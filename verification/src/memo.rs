use vstd::prelude::*;
use vstd::utf8::decode_utf8;
use vstd::utf8::valid_utf8;

verus! {

/// How much of a POST body is read: anything past this many bytes is
/// dropped, not rejected.
pub const MAX_BODY_LEN: usize = 256;

/// A hexadecimal digit, either case.
pub open spec fn is_hex_digit(b: u8) -> bool {
    (0x30 <= b && b <= 0x39) || (0x41 <= b && b <= 0x46) || (0x61 <= b && b <= 0x66)
}

/// The value of a hexadecimal digit.
pub open spec fn hex_digit_value(b: u8) -> u8
    recommends
        is_hex_digit(b),
{
    if 0x30 <= b && b <= 0x39 {
        (b - 0x30) as u8
    } else if 0x41 <= b && b <= 0x46 {
        (b - 0x41 + 10) as u8
    } else {
        (b - 0x61 + 10) as u8
    }
}

/// Percent-decoding of a byte string: a `%` followed by two hexadecimal
/// digits becomes the byte they name; a `%` whose first trailing byte is
/// a digit but whose second is not keeps the `%` and that digit; any
/// other byte, a lone `%` included, is copied through unchanged.
pub open spec fn pct_decoded(s: Seq<u8>) -> Seq<u8>
    decreases s.len(),
{
    if s.len() == 0 {
        Seq::empty()
    } else if s[0] != 0x25 {
        seq![s[0]] + pct_decoded(s.skip(1))
    } else if s.len() < 3 {
        s
    } else if is_hex_digit(s[1]) && is_hex_digit(s[2]) {
        seq![(hex_digit_value(s[1]) * 16 + hex_digit_value(s[2])) as u8] + pct_decoded(s.skip(3))
    } else if is_hex_digit(s[1]) {
        seq![0x25u8, s[1]] + pct_decoded(s.skip(2))
    } else {
        seq![0x25u8] + pct_decoded(s.skip(1))
    }
}

/// Relies on urlencoding::decode_binary: each `%` with two hexadecimal
/// digits after it becomes one byte, and every other byte — a `%` with
/// anything else after it included — is copied through as it stands.
#[verifier::external_body]
fn percent_decode(data: &[u8]) -> (r: Vec<u8>)
    ensures
        r@ == pct_decoded(data@),
{
    urlencoding::decode_binary(data).into_owned()
}

/// Relies on core::str::from_utf8, which returns `Ok` exactly when the
/// bytes are valid UTF-8.
#[verifier::external_body]
fn utf8_valid(data: &[u8]) -> (r: bool)
    ensures
        r == valid_utf8(data@),
{
    core::str::from_utf8(data).is_ok()
}

/// Relies on String::from_utf8, which succeeds exactly on valid UTF-8
/// and then returns the string those bytes encode.
#[verifier::external_body]
fn utf8_to_string(data: Vec<u8>) -> (r: Option<String>)
    ensures
        r is Some <==> valid_utf8(data@),
        r matches Some(s) ==> s@ == decode_utf8(data@),
{
    String::from_utf8(data).ok()
}

/// The position of the first `=` byte at or after `start`, if any.
pub open spec fn find_eq_from(b: Seq<u8>, start: int) -> Option<int>
    decreases b.len() - start,
{
    if start < 0 || start >= b.len() {
        None
    } else if b[start] == 0x3d {
        Some(start)
    } else {
        find_eq_from(b, start + 1)
    }
}

/// The position of the first `=` byte, if any.
pub open spec fn find_eq(b: Seq<u8>) -> Option<int> {
    find_eq_from(b, 0)
}

/// The form key a submission must carry: the bytes of `memo`.
pub open spec fn memo_key() -> Seq<u8> {
    seq![0x6du8, 0x65u8, 0x6du8, 0x6fu8]
}

/// A body truncated to the read limit.
pub open spec fn truncated(body: Seq<u8>) -> Seq<u8> {
    if body.len() > MAX_BODY_LEN {
        body.take(MAX_BODY_LEN as int)
    } else {
        body
    }
}

/// The memo value a POST body submits, if it is well formed: the body
/// (truncated to the read limit) must be valid UTF-8, must split at its
/// first `=` into the key `memo` and a value, and the percent-decoded
/// value must again be valid UTF-8. Anything else submits nothing.
pub open spec fn submitted_memo(body: Seq<u8>) -> Option<Seq<char>> {
    let b = truncated(body);
    if !valid_utf8(b) {
        None
    } else {
        match find_eq(b) {
            None => None,
            Some(i) => {
                if b.take(i) == memo_key() {
                    let d = pct_decoded(b.skip(i + 1));
                    if valid_utf8(d) {
                        Some(decode_utf8(d))
                    } else {
                        None
                    }
                } else {
                    None
                }
            },
        }
    }
}

/// The memo after one POST body is applied: the submitted value if the
/// body is well formed, the old memo otherwise.
pub open spec fn memo_after_post(body: Seq<u8>, memo: Seq<char>) -> Seq<char> {
    match submitted_memo(body) {
        Some(v) => v,
        None => memo,
    }
}

fn find_eq_byte(b: &[u8]) -> (r: Option<usize>)
    ensures
        r matches Some(i) ==> i < b@.len() && b@[i as int] == 0x3d && find_eq(b@) == Some(i as int),
        r is None ==> find_eq(b@) is None,
{
    let mut i: usize = 0;
    while i < b.len()
        invariant
            i <= b@.len(),
            find_eq(b@) == find_eq_from(b@, i as int),
        decreases b@.len() - i,
    {
        if b[i] == 0x3d {
            return Some(i);
        }
        i = i + 1;
    }
    None
}

/// Applies one POST body to the memo. A well-formed submission replaces
/// the memo with the decoded value as one whole write; a malformed body
/// — no separator, a key other than `memo`, bytes that are not UTF-8
/// before or after decoding — leaves the memo exactly as it was.
pub fn update_memo(body: &Vec<u8>, memo: &mut String)
    ensures
        final(memo)@ == memo_after_post(body@, old(memo)@),
{
    let b: &[u8] = if body.len() > MAX_BODY_LEN {
        vstd::slice::slice_subrange(body.as_slice(), 0, MAX_BODY_LEN)
    } else {
        body.as_slice()
    };
    proof {
        assert(b@ =~= truncated(body@));
    }
    if !utf8_valid(b) {
        return ;
    }
    let idx = match find_eq_byte(b) {
        Some(i) => i,
        None => {
            return ;
        },
    };
    if !(idx == 4 && b[0] == 0x6d && b[1] == 0x65 && b[2] == 0x6d && b[3] == 0x6f) {
        proof {
            if b@.take(idx as int) == memo_key() {
                assert(b@.take(idx as int).len() == 4);
                assert(b@.take(4)[0] == memo_key()[0]);
                assert(b@.take(4)[1] == memo_key()[1]);
                assert(b@.take(4)[2] == memo_key()[2]);
                assert(b@.take(4)[3] == memo_key()[3]);
            }
        }
        return ;
    }
    proof {
        assert(b@.take(idx as int) =~= memo_key());
    }
    let value = vstd::slice::slice_subrange(b, idx + 1, b.len());
    proof {
        assert(value@ =~= b@.skip(idx + 1));
    }
    let decoded = percent_decode(value);
    match utf8_to_string(decoded) {
        Some(s) => {
            *memo = s;
        },
        None => {},
    }
}

/// A body with no `=` separator submits nothing: the memo after it is
/// exactly the memo before it.
pub proof fn lemma_no_separator_keeps_memo(body: Seq<u8>, memo: Seq<char>)
    requires
        find_eq(truncated(body)) is None,
    ensures
        memo_after_post(body, memo) == memo,
{
}

/// Posts are whole-value writes: after two well-formed submissions, in
/// whichever order they were serialized, the memo equals the complete
/// value of the one applied last — never a mixture of the two.
pub proof fn lemma_last_write_wins(
    b1: Seq<u8>,
    b2: Seq<u8>,
    memo: Seq<char>,
    v1: Seq<char>,
    v2: Seq<char>,
)
    requires
        submitted_memo(b1) == Some(v1),
        submitted_memo(b2) == Some(v2),
    ensures
        memo_after_post(b2, memo_after_post(b1, memo)) == v2,
        memo_after_post(b1, memo_after_post(b2, memo)) == v1,
{
}

} // verus!
