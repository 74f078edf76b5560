use vstd::prelude::*;

use crate::select::{first_true, first_true_below, lemma_first_true_from};

verus! {

/// Number of ports tried, above the canonical one, when a port of its own is needed.
pub const PORT_SCAN_WINDOW: u16 = 100;

/// How long a health probe may take, in milliseconds.
pub const HEALTH_TIMEOUT_MS: u64 = 1000;

/// Path of the worker's health endpoint.
pub const HEALTH_PATH: &'static str = "/health";

/// Token that the worker's health response carries in its body.
pub const HEALTH_MARKER: &'static str = "aestiv";

/// The port picked from a scan of `[start, start + window)`, where `free[i]` tells whether
/// `start + i` could be bound. With no free port in the window, `start + window` is the
/// fallback, which the caller must still be ready to find occupied.
pub open spec fn spec_find_free_port(start: u16, window: u16, free: Seq<bool>) -> int {
    match first_true_below(free, window as int) {
        Some(i) => start + i,
        None => start + window,
    }
}

/// Picks the first free port of the window `[start, start + window)`, from the probe results
/// `free` (`free[i]` for port `start + i`; ports not probed yet may be left out).
pub fn find_free_port(start: u16, window: u16, free: &Vec<bool>) -> (r: u16)
    requires
        start + window <= u16::MAX,
    ensures
        r == spec_find_free_port(start, window, free@),
{
    proof {
        lemma_first_true_from(free@, window as int, 0);
    }
    match first_true(free, window as usize) {
        Some(i) => start + i as u16,
        None => start + window,
    }
}

/// `pat` occurs in `s` at position `i`.
pub open spec fn occurs_at(s: Seq<u8>, pat: Seq<u8>, i: int) -> bool {
    &&& 0 <= i
    &&& i + pat.len() <= s.len()
    &&& forall|k: int| 0 <= k < pat.len() ==> s[i + k] == pat[k]
}

/// `i` is the first position where `pat` occurs in `s`.
pub open spec fn is_first_occurrence(s: Seq<u8>, pat: Seq<u8>, i: int) -> bool {
    &&& occurs_at(s, pat, i)
    &&& forall|k: int| 0 <= k < i ==> !occurs_at(s, pat, k)
}

/// The blank line that ends the header of an HTTP response.
pub open spec fn header_end() -> Seq<u8> {
    seq![13u8, 10u8, 13u8, 10u8]
}

pub open spec fn is_digit(b: u8) -> bool {
    48 <= b <= 57
}

/// The response opens with an HTTP/1.x status line whose code is in the 2xx class.
pub open spec fn status_is_success(resp: Seq<u8>) -> bool {
    &&& resp.len() >= 12
    &&& resp[0] == 72u8
    &&& resp[1] == 84u8
    &&& resp[2] == 84u8
    &&& resp[3] == 80u8
    &&& resp[4] == 47u8
    &&& resp[8] == 32u8
    &&& resp[9] == 50u8
    &&& is_digit(resp[10])
    &&& is_digit(resp[11])
}

/// The marker occurs in the body, that is after the first blank line of the response.
pub open spec fn marker_in_body(resp: Seq<u8>, marker: Seq<u8>) -> bool {
    exists|h: int|
        #[trigger] is_first_occurrence(resp, header_end(), h) && exists|j: int|
            h + 4 <= j && #[trigger] occurs_at(resp, marker, j)
}

/// A response of our own worker: a successful status and the marker in the body. Anything
/// else, including a response cut short, counts as some other service.
pub open spec fn spec_is_our_health_response(resp: Seq<u8>, marker: Seq<u8>) -> bool {
    status_is_success(resp) && marker_in_body(resp, marker)
}

fn occurs_here(hay: &[u8], needle: &[u8], i: usize) -> (r: bool)
    requires
        i + needle@.len() <= hay@.len(),
    ensures
        r == occurs_at(hay@, needle@, i as int),
{
    let n = hay.len();
    let mut k: usize = 0;
    while k < needle.len()
        invariant
            n == hay@.len(),
            i + needle@.len() <= hay@.len(),
            k <= needle@.len(),
            forall|m: int| 0 <= m < k ==> hay@[i + m] == needle@[m],
        decreases needle@.len() - k,
    {
        if hay[i + k] != needle[k] {
            return false;
        }
        k = k + 1;
    }
    true
}

/// First position at or after `from` where `needle` occurs in `hay`.
pub fn find_from(hay: &[u8], needle: &[u8], from: usize) -> (r: Option<usize>)
    ensures
        match r {
            Some(i) => {
                &&& from <= i
                &&& occurs_at(hay@, needle@, i as int)
                &&& forall|k: int| from <= k < i ==> !occurs_at(hay@, needle@, k)
            },
            None => forall|k: int| from <= k ==> !occurs_at(hay@, needle@, k),
        },
{
    if needle.len() > hay.len() {
        return None;
    }
    let last = hay.len() - needle.len();
    let mut i = from;
    while i <= last
        invariant
            last + needle@.len() == hay@.len(),
            from <= i,
            forall|k: int| from <= k < i ==> !occurs_at(hay@, needle@, k),
        decreases last + 1 - i,
    {
        if occurs_here(hay, needle, i) {
            return Some(i);
        }
        if i == last {
            return None;
        }
        i = i + 1;
    }
    None
}

/// Whether a raw HTTP response to the health probe comes from our own worker.
pub fn is_our_health_response(response: &[u8], marker: &[u8]) -> (r: bool)
    ensures
        r == spec_is_our_health_response(response@, marker@),
{
    if !(response.len() >= 12 && response[0] == 72u8 && response[1] == 84u8 && response[2] == 84u8
        && response[3] == 80u8 && response[4] == 47u8 && response[8] == 32u8 && response[9]
        == 50u8 && 48u8 <= response[10] && response[10] <= 57u8 && 48u8 <= response[11]
        && response[11] <= 57u8) {
        return false;
    }
    let blank_line = vec![13u8, 10u8, 13u8, 10u8];
    assert(blank_line@ =~= header_end());
    match find_from(response, blank_line.as_slice(), 0) {
        None => {
            assert(!marker_in_body(response@, marker@));
            false
        },
        Some(h) => {
            assert(is_first_occurrence(response@, header_end(), h as int));
            let found = find_from(response, marker, h + 4);
            match found {
                Some(j) => {
                    assert(occurs_at(response@, marker@, j as int));
                    true
                },
                None => {
                    assert forall|h2: int| #[trigger]
                        is_first_occurrence(response@, header_end(), h2) implies h2 == h by {
                        if h2 < h {
                            assert(!occurs_at(response@, header_end(), h2));
                        } else if h2 > h {
                            assert(!occurs_at(response@, header_end(), h as int));
                        }
                    }
                    false
                },
            }
        },
    }
}

} // verus!
