//! HTTP/1.1 response handling for the CLI's Unix-socket client: locating
//! the end of the headers, reading the status code, splitting off the body
//! and judging the status.

use vstd::prelude::*;
use vstd::string::StringExecFns;
use vstd::utf8::{decode_utf8, valid_utf8};

use crate::error::Error;
use crate::text::{decimal, parse_u16_bytes, spec_parse_u16, u64_to_decimal};

verus! {

/// Whether `pat` occurs in `data` at position `i`.
pub open spec fn occurs_at(data: Seq<u8>, pat: Seq<u8>, i: int) -> bool {
    0 <= i && i + pat.len() <= data.len() && data.subrange(i, i + pat.len()) == pat
}

/// The first position at which `pat` occurs in `data`, if any.
#[verifier::opaque]
pub open spec fn first_occurrence(data: Seq<u8>, pat: Seq<u8>) -> Option<int> {
    if exists|i: int| #[trigger] occurs_at(data, pat, i) {
        Some(choose|i: int| #[trigger] occurs_at(data, pat, i) && forall|j: int| 0 <= j < i ==> !occurs_at(data, pat, j))
    } else {
        None
    }
}

/// The header terminator `\r\n\r\n`.
pub open spec fn crlfcrlf() -> Seq<u8> {
    seq![13u8, 10u8, 13u8, 10u8]
}

/// The line terminator `\r\n`.
pub open spec fn crlf() -> Seq<u8> {
    seq![13u8, 10u8]
}

/// The first position of `pat` in `data` (a pattern of at most four bytes).
fn find_pattern(data: &[u8], pat: &[u8]) -> (r: Option<usize>)
    requires
        0 < pat@.len() <= 4,
    ensures
        match r {
            Some(i) => occurs_at(data@, pat@, i as int) && forall|j: int| 0 <= j < i ==> !occurs_at(data@, pat@, j),
            None => forall|j: int| !occurs_at(data@, pat@, j),
        },
{
    let n = data.len();
    let k = pat.len();
    if n < k {
        return None;
    }
    let mut i: usize = 0;
    while i <= n - k
        invariant
            n == data@.len(),
            k == pat@.len(),
            0 < k <= 4,
            k <= n,
            i <= n - k + 1,
            forall|j: int| 0 <= j < i ==> !occurs_at(data@, pat@, j),
        decreases n - i,
    {
        let mut m: usize = 0;
        let mut ok = true;
        while m < k
            invariant
                n == data@.len(),
                k == pat@.len(),
                i + k <= n,
                m <= k,
                ok <==> forall|t: int| 0 <= t < m ==> data@[i + t] == pat@[t],
            decreases k - m,
        {
            if data[i + m] != pat[m] {
                ok = false;
            }
            m = m + 1;
        }
        if ok {
            assert(data@.subrange(i as int, i + k) =~= pat@);
            return Some(i);
        }
        assert(!occurs_at(data@, pat@, i as int)) by {
            if occurs_at(data@, pat@, i as int) {
                assert forall|t: int| 0 <= t < k implies data@[i + t] == pat@[t] by {
                    assert(data@.subrange(i as int, i + k)[t] == data@[i + t]);
                }
            }
        }
        i = i + 1;
    }
    None
}

/// Ties the search result to [`first_occurrence`].
proof fn lemma_first_occurrence(data: Seq<u8>, pat: Seq<u8>, r: Option<usize>)
    requires
        match r {
            Some(i) => occurs_at(data, pat, i as int) && forall|j: int| 0 <= j < i ==> !occurs_at(data, pat, j),
            None => forall|j: int| !occurs_at(data, pat, j),
        },
    ensures
        match r {
            Some(i) => first_occurrence(data, pat) == Some(i as int),
            None => first_occurrence(data, pat) is None,
        },
{
    reveal(first_occurrence);
    if let Some(i) = r {
        assert(occurs_at(data, pat, i as int));
        let c = choose|c: int| #[trigger] occurs_at(data, pat, c) && forall|j: int| 0 <= j < c ==> !occurs_at(data, pat, j);
        assert(occurs_at(data, pat, c) && forall|j: int| 0 <= j < c ==> !occurs_at(data, pat, j));
        if c < i {
            assert(!occurs_at(data, pat, c));
        }
        if i < c {
            assert(!occurs_at(data, pat, i as int));
        }
    }
}

/// The byte offset of the first `\r\n\r\n` in `data`, if any.
pub fn find_header_end(data: &[u8]) -> (r: Option<usize>)
    ensures
        match r {
            Some(i) => first_occurrence(data@, crlfcrlf()) == Some(i as int)
                && occurs_at(data@, crlfcrlf(), i as int),
            None => first_occurrence(data@, crlfcrlf()) is None,
        },
{
    let pat: [u8; 4] = [13u8, 10u8, 13u8, 10u8];
    let p = pat.as_slice();
    assert(p@ =~= crlfcrlf());
    let r = find_pattern(data, p);
    proof {
        lemma_first_occurrence(data@, crlfcrlf(), r);
    }
    r
}

/// `std::str::from_utf8(bytes).is_ok()`: whether the bytes are valid
/// UTF-8.
///
/// The contract equates std's acceptance with vstd's definition of valid
/// UTF-8.
#[verifier::external_body]
fn is_valid_utf8(bytes: &[u8]) -> (r: bool)
    ensures
        r == valid_utf8(bytes@),
{
    std::str::from_utf8(bytes).is_ok()
}

/// The first position of a space in `b`, or its length when there is none.
#[verifier::opaque]
pub open spec fn space_or_end(b: Seq<u8>) -> int {
    if exists|i: int| 0 <= i < b.len() && b[i] == 32 && forall|j: int| 0 <= j < i ==> b[j] != 32 {
        choose|i: int| 0 <= i < b.len() && b[i] == 32 && forall|j: int| 0 <= j < i ==> b[j] != 32
    } else {
        b.len() as int
    }
}

/// The status code in the first line of a raw response: the line must end
/// in `\r\n` and be valid UTF-8, and its second space-separated field must
/// parse as a `u16`.
pub open spec fn spec_status_code(data: Seq<u8>) -> Option<u16> {
    match first_occurrence(data, crlf()) {
        None => None,
        Some(e) => {
            let line = data.subrange(0, e);
            if !valid_utf8(line) || space_or_end(line) == line.len() {
                None
            } else {
                let rest = line.subrange(space_or_end(line) + 1, line.len() as int);
                spec_parse_u16(rest.subrange(0, space_or_end(rest)))
            }
        },
    }
}

/// The position of the first space in `b[from..]`, or `b.len()`.
fn find_space(b: &[u8], from: usize) -> (r: usize)
    requires
        from <= b@.len(),
    ensures
        r - from == space_or_end(b@.subrange(from as int, b@.len() as int)),
        from <= r <= b@.len(),
{
    reveal(space_or_end);
    let ghost s = b@.subrange(from as int, b@.len() as int);
    let mut i: usize = from;
    while i < b.len()
        invariant
            from <= i <= b@.len(),
            s == b@.subrange(from as int, b@.len() as int),
            forall|j: int| 0 <= j < i - from ==> s[j] != 32,
        decreases b.len() - i,
    {
        if b[i] == 32u8 {
            assert(s[i - from] == 32);
            let ghost k: int = i - from;
            assert(0 <= k < s.len() && s[k] == 32 && forall|j: int| 0 <= j < k ==> s[j] != 32);
            proof {
                reveal(space_or_end);
            }
            assert(exists|t: int| 0 <= t < s.len() && s[t] == 32 && forall|j: int| 0 <= j < t ==> s[j] != 32);
            let ghost w = space_or_end(s);
            assert(0 <= w < s.len() && s[w] == 32 && forall|j: int| 0 <= j < w ==> s[j] != 32);
            assert(w == k) by {
                if w < k {
                    assert(s[w] != 32);
                }
                if w > k {
                    assert(s[k] != 32);
                }
            }
            return i;
        }
        i = i + 1;
    }
    i
}

/// Parses the HTTP status code from the first line of a response.
pub fn parse_status_code(data: &[u8]) -> (r: Option<u16>)
    ensures
        r == spec_status_code(data@),
{
    let crlf_pat: [u8; 2] = [13u8, 10u8];
    let p = crlf_pat.as_slice();
    assert(p@ =~= crlf());
    let e = find_pattern(data, p);
    proof {
        lemma_first_occurrence(data@, crlf(), e);
    }
    let e = match e {
        None => return None,
        Some(e) => e,
    };
    let line = &data[0..e];
    let ghost lv = data@.subrange(0, e as int);
    assert(line@ =~= lv);
    if !is_valid_utf8(line) {
        return None;
    }
    let s1 = find_space(line, 0);
    assert(line@.subrange(0, line@.len() as int) =~= line@);
    if s1 == line.len() {
        return None;
    }
    let s2 = find_space(line, s1 + 1);
    let ghost rest = lv.subrange(s1 + 1, lv.len() as int);
    assert(line@.subrange(s1 + 1, line@.len() as int) =~= rest);
    let field = &line[s1 + 1..s2];
    assert(field@ =~= rest.subrange(0, space_or_end(rest)));
    parse_u16_bytes(field)
}

/// The body of a raw response: what follows the first `\r\n\r\n`, or the
/// whole response when there is none.
pub open spec fn spec_body(raw: Seq<u8>) -> Seq<u8> {
    match first_occurrence(raw, crlfcrlf()) {
        Some(i) => raw.subrange(i + 4, raw.len() as int),
        None => raw,
    }
}

/// Splits a raw HTTP response into its status code (200 when the status
/// line cannot be read) and its body.
pub fn split_response(raw: Vec<u8>) -> (r: Result<(u16, Vec<u8>), Error>)
    ensures
        r matches Ok((status, body)) && status == (match spec_status_code(raw@) {
            Some(s) => s,
            None => 200u16,
        }) && body@ == spec_body(raw@),
{
    let status = match parse_status_code(raw.as_slice()) {
        Some(s) => s,
        None => 200u16,
    };
    let total = raw.len();
    let found = find_header_end(raw.as_slice());
    match found {
        Some(idx) => {
            proof {
                assert(occurs_at(raw@, crlfcrlf(), idx as int));
                assert(crlfcrlf().len() == 4);
            }
            let mut body: Vec<u8> = Vec::new();
            let mut j: usize = idx + 4;
            while j < raw.len()
                invariant
                    idx + 4 <= j <= raw@.len(),
                    body@ == raw@.subrange(idx + 4, j as int),
                decreases raw.len() - j,
            {
                body.push(raw[j]);
                j = j + 1;
                assert(body@ =~= raw@.subrange(idx + 4, j as int));
            }
            Ok((status, body))
        },
        None => Ok((status, raw)),
    }
}

/// The text `String::from_utf8_lossy` makes of some bytes: invalid
/// sequences become U+FFFD.
pub uninterp spec fn utf8_lossy(b: Seq<u8>) -> Seq<char>;

/// `String::from_utf8_lossy`, as an owned string.
///
/// std documents that valid UTF-8 comes back unchanged; beyond that the
/// contract only names the result.
#[verifier::external_body]
pub(crate) fn lossy_string(b: &[u8]) -> (r: String)
    ensures
        r@ == utf8_lossy(b@),
        valid_utf8(b@) ==> r@ == decode_utf8(b@),
{
    String::from_utf8_lossy(b).into_owned()
}

/// Whether a status code is a success (2xx).
pub open spec fn is_success(status: u16) -> bool {
    200 <= status < 300
}

/// Accepts a 2xx response; any other status becomes an internal error that
/// carries the status and the body's text.
pub fn check_status(status: u16, body: &[u8]) -> (r: Result<(), Error>)
    ensures
        is_success(status) ==> r is Ok,
        !is_success(status) ==> (r matches Err(Error::InternalUnexpected { reason })
            && reason@ == "daemon returned HTTP "@ + decimal(status as nat) + ": "@ + utf8_lossy(body@)),
{
    if 200 <= status && status < 300 {
        return Ok(());
    }
    let mut s = String::from_str("daemon returned HTTP ");
    let n = u64_to_decimal(status as u64);
    s.append(n.as_str());
    s.append(": ");
    let d = lossy_string(body);
    s.append(d.as_str());
    Err(Error::InternalUnexpected { reason: s })
}

} // verus!
