use vstd::prelude::*;

use crate::probe::is_digit;

verus! {

/// Ports the worker is known to use, swept when the backend is stopped.
pub open spec fn spec_known_ports() -> Seq<u16> {
    seq![8008u16, 8009u16, 8010u16, 8011u16, 8012u16]
}

/// Ports the worker is known to use. Processes left listening on them, for instance by an
/// earlier run that crashed, are terminated as a last resort when the backend stops.
pub fn known_ports() -> (r: Vec<u16>)
    ensures
        r@ == spec_known_ports(),
{
    let r = vec![8008u16, 8009u16, 8010u16, 8011u16, 8012u16];
    assert(r@ =~= spec_known_ports());
    r
}

/// The ports of `s` in order, without `skip`.
pub open spec fn ports_except(s: Seq<u16>, skip: Option<u16>) -> Seq<u16>
    decreases s.len(),
{
    if s.len() == 0 {
        seq![]
    } else {
        let rest = ports_except(s.drop_last(), skip);
        if skip == Some(s.last()) {
            rest
        } else {
            rest.push(s.last())
        }
    }
}

/// What `ports_except` keeps comes from `s` and is never `skip`.
pub proof fn lemma_ports_except(s: Seq<u16>, skip: Option<u16>)
    ensures
        forall|i: int|
            0 <= i < ports_except(s, skip).len() ==> s.contains(#[trigger] ports_except(s, skip)[i])
                && skip != Some(ports_except(s, skip)[i]),
    decreases s.len(),
{
    if s.len() > 0 {
        lemma_ports_except(s.drop_last(), skip);
        let rest = ports_except(s.drop_last(), skip);
        assert forall|i: int| 0 <= i < ports_except(s, skip).len() implies s.contains(
            #[trigger] ports_except(s, skip)[i],
        ) && skip != Some(ports_except(s, skip)[i]) by {
            if i < rest.len() {
                let j = choose|j: int| 0 <= j < s.drop_last().len() && s.drop_last()[j] == rest[i];
                assert(s[j] == rest[i]);
            } else {
                assert(s[s.len() - 1] == s.last());
            }
        }
    }
}

/// The known ports to sweep, leaving out `skip`: the port of a service this instance adopted
/// and must not kill.
pub fn sweep_ports(skip: Option<u16>) -> (r: Vec<u16>)
    ensures
        r@ == ports_except(spec_known_ports(), skip),
{
    let known = known_ports();
    let mut r: Vec<u16> = Vec::new();
    let mut i: usize = 0;
    assert(known@.subrange(0, 0) =~= Seq::<u16>::empty());
    while i < known.len()
        invariant
            known@ == spec_known_ports(),
            i <= known@.len(),
            r@ == ports_except(known@.subrange(0, i as int), skip),
        decreases known@.len() - i,
    {
        let port = known[i];
        assert(known@.subrange(0, i + 1).drop_last() =~= known@.subrange(0, i as int));
        let keep = match skip {
            Some(spared) => port != spared,
            None => true,
        };
        if keep {
            r.push(port);
        }
        i = i + 1;
    }
    assert(known@.subrange(0, known@.len() as int) =~= known@);
    r
}

/// ASCII whitespace: space, tab, line feed, vertical tab, form feed, carriage return.
pub open spec fn is_space(b: u8) -> bool {
    b == 32 || (9 <= b && b <= 13)
}

/// Value of a string of decimal digits.
pub open spec fn digits_value(t: Seq<u8>) -> nat
    decreases t.len(),
{
    if t.len() == 0 {
        0
    } else {
        digits_value(t.drop_last()) * 10 + (t.last() - 48) as nat
    }
}

/// The process id that a token names: a non-empty run of decimal digits whose value is a
/// positive `u32`. Zero is no process and is never taken.
pub open spec fn token_pid(t: Seq<u8>) -> Option<u32> {
    if t.len() > 0 && (forall|k: int| 0 <= k < t.len() ==> is_digit(#[trigger] t[k])) && 0
        < digits_value(t) <= u32::MAX {
        Some(digits_value(t) as u32)
    } else {
        None
    }
}

pub open spec fn emit(token: Seq<u8>) -> Seq<u32> {
    match token_pid(token) {
        Some(p) => seq![p],
        None => seq![],
    }
}

/// Process ids in `s`, whose current token so far is `token`.
pub open spec fn pids_after(s: Seq<u8>, token: Seq<u8>) -> Seq<u32>
    decreases s.len(),
{
    if s.len() == 0 {
        emit(token)
    } else if is_space(s[0]) {
        emit(token) + pids_after(s.drop_first(), seq![])
    } else {
        pids_after(s.drop_first(), token.push(s[0]))
    }
}

/// Process ids listed in the output of a port lookup tool: the whitespace-separated tokens
/// that name a process, in order. Other tokens are skipped.
pub open spec fn spec_pids_in(s: Seq<u8>) -> Seq<u32> {
    pids_after(s, seq![])
}

/// Past `u32::MAX` the exact value no longer matters.
pub open spec fn capped(v: nat) -> nat {
    if v > u32::MAX {
        u32::MAX as nat + 1
    } else {
        v
    }
}

/// Appends the process id that the finished `token` names, if any.
fn flush_token(r: &mut Vec<u32>, len: usize, digits: bool, value: u64, Ghost(token): Ghost<Seq<u8>>)
    requires
        len == token.len(),
        digits == (forall|k: int| 0 <= k < token.len() ==> is_digit(#[trigger] token[k])),
        digits ==> value == capped(digits_value(token)),
    ensures
        final(r)@ == old(r)@ + emit(token),
{
    if len > 0 && digits && 0 < value && value <= 4294967295u64 {
        r.push(value as u32);
        assert(final(r)@ =~= old(r)@ + emit(token));
    } else {
        assert(old(r)@ =~= old(r)@ + emit(token));
    }
}

/// Reads the process ids listed in `output`.
pub fn parse_pids(output: &[u8]) -> (r: Vec<u32>)
    ensures
        r@ == spec_pids_in(output@),
{
    let n = output.len();
    let mut r: Vec<u32> = Vec::new();
    let mut i: usize = 0;
    let mut len: usize = 0;
    let mut digits = true;
    let mut value: u64 = 0;
    let ghost token: Seq<u8> = seq![];
    assert(output@.subrange(0, n as int) =~= output@);
    while i < n
        invariant
            n == output@.len(),
            i <= n,
            len == token.len(),
            len <= i,
            digits == (forall|k: int| 0 <= k < token.len() ==> is_digit(#[trigger] token[k])),
            digits ==> value == capped(digits_value(token)),
            r@ + pids_after(output@.subrange(i as int, n as int), token) == spec_pids_in(output@),
        decreases n - i,
    {
        let b = output[i];
        let ghost rest = output@.subrange(i as int, n as int);
        assert(rest.drop_first() =~= output@.subrange(i + 1, n as int));
        if b == 32u8 || (9u8 <= b && b <= 13u8) {
            flush_token(&mut r, len, digits, value, Ghost(token));
            len = 0;
            digits = true;
            value = 0;
            proof {
                token = seq![];
            }
        } else {
            let ghost next = token.push(b);
            assert(next.drop_last() =~= token);
            assert(next[len as int] == b);
            assert(forall|k: int| 0 <= k < token.len() ==> next[k] == token[k]);
            if digits && 48u8 <= b && b <= 57u8 {
                assert(digits_value(next) == digits_value(token) * 10 + (b - 48) as nat);
                let d = (b - 48u8) as u64;
                if value > 4294967295u64 {
                    value = 4294967296u64;
                } else {
                    value = value * 10 + d;
                    if value > 4294967295u64 {
                        value = 4294967296u64;
                    }
                }
            } else {
                digits = false;
            }
            len = len + 1;
            proof {
                token = next;
            }
        }
        i = i + 1;
    }
    assert(output@.subrange(n as int, n as int) =~= Seq::<u8>::empty());
    flush_token(&mut r, len, digits, value, Ghost(token));
    r
}

} // verus!
