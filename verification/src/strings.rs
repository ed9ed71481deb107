//! Text handling: strict UTF-16LE decoding through the encoding crate,
//! terminator scanning, and construction of the UTF-16LE stream names that
//! the MSG layout derives from property tags and counters.

use vstd::prelude::*;
use crate::MsgError;

verus! {

/// What encoding's strict UTF-16LE decoder yields on `b`: `None` when the
/// bytes are not well-formed UTF-16LE.
pub uninterp spec fn utf16le_decode(b: Seq<u8>) -> Option<Seq<char>>;

/// Relies on encoding's `UTF_16LE` codec with the strict trap: the decoded
/// string depends on the input bytes alone, and malformed input fails.
#[verifier::external_body]
fn decode_utf16le(b: &[u8]) -> (r: Option<String>)
    ensures
        r is Some <==> utf16le_decode(b@) is Some,
        r matches Some(s) ==> Some(s@) == utf16le_decode(b@),
{
    match encoding::types::Encoding::decode(
        encoding::all::UTF_16LE,
        b,
        encoding::types::DecoderTrap::Strict,
    ) {
        Ok(s) => Some(s),
        Err(_) => None,
    }
}

/// The first aligned `00 00` code unit at or after chunk `k` of `b`.
pub open spec fn find_terminator(b: Seq<u8>, k: int) -> Option<int>
    decreases b.len() - 2 * k,
{
    if k < 0 || 2 * k + 2 > b.len() {
        None
    } else if b[2 * k] == 0u8 && b[2 * k + 1] == 0u8 {
        Some(k)
    } else {
        find_terminator(b, k + 1)
    }
}

/// The raw code-unit bytes that a UTF-16LE read off the front of `b` hands
/// to the decoder: up to the first aligned terminator, or all of `b`.
pub open spec fn spec_utf16_raw(b: Seq<u8>) -> Seq<u8> {
    if b.len() == 0 {
        Seq::empty()
    } else {
        match find_terminator(b, 0) {
            Some(k) => b.take(2 * k),
            None => b,
        }
    }
}

/// A UTF-16LE string read off the front of `b`: decoded up to the first
/// aligned terminator (consuming it), or whole if no terminator and the
/// length is even. The result carries how many bytes were consumed.
pub open spec fn spec_utf16_string(b: Seq<u8>) -> Result<(Seq<char>, int), MsgError> {
    if b.len() == 0 {
        Ok((Seq::empty(), 0))
    } else {
        match find_terminator(b, 0) {
            Some(k) => match utf16le_decode(b.take(2 * k)) {
                Some(s) => Ok((s, 2 * k + 2)),
                None => Err(MsgError::InvalidString),
            },
            None => {
                if b.len() % 2 == 0 {
                    match utf16le_decode(b) {
                        Some(s) => Ok((s, b.len() as int)),
                        None => Err(MsgError::InvalidString),
                    }
                } else {
                    Err(MsgError::TruncatedInput)
                }
            },
        }
    }
}

/// Reads one UTF-16LE string off the front of `input`; the second result is
/// the number of bytes consumed, the third the raw code-unit bytes decoded.
pub fn complete_utf16le_string(input: &[u8]) -> (r: Result<(String, usize, Vec<u8>), MsgError>)
    ensures
        r matches Ok(t) ==> spec_utf16_string(input@) == Ok::<_, MsgError>((t.0@, t.1 as int))
            && t.2@ == spec_utf16_raw(input@) && t.1 <= input@.len(),
        r matches Err(e) ==> spec_utf16_string(input@) == Err::<(Seq<char>, int), _>(e),
{
    let n: usize = input.len();
    if n == 0 {
        let empty_raw: Vec<u8> = Vec::new();
        let empty_str = String::new();
        proof {
            assert(empty_raw@ =~= spec_utf16_raw(input@));
        }
        return Ok((empty_str, 0, empty_raw));
    }
    let mut k: usize = 0;
    let mut term: bool = false;
    while k < n / 2 && !term
        invariant
            n == input@.len(),
            k <= n / 2,
            term ==> 2 * k + 2 <= n && find_terminator(input@, 0) == Some(k as int),
            !term ==> find_terminator(input@, 0) == find_terminator(input@, k as int),
        decreases n - 2 * k, (if term { 0int } else { 1int }),
    {
        if input[2 * k] == 0 && input[2 * k + 1] == 0 {
            term = true;
        } else {
            k = k + 1;
        }
    }
    if term {
        let raw = crate::bytes::copy_range(input, 0, 2 * k);
        proof {
            assert(raw@ =~= input@.take(2 * (k as int)));
        }
        match decode_utf16le(raw.as_slice()) {
            Some(s) => Ok((s, 2 * k + 2, raw)),
            None => Err(MsgError::InvalidString),
        }
    } else {
        // No terminator: decode the whole buffer when its length is even.
        if n % 2 == 0 {
            let raw = crate::bytes::copy_range(input, 0, n);
            proof {
                assert(raw@ =~= input@);
            }
            match decode_utf16le(raw.as_slice()) {
                Some(s) => Ok((s, n, raw)),
                None => Err(MsgError::InvalidString),
            }
        } else {
            Err(MsgError::TruncatedInput)
        }
    }
}

/// How many aligned `00 00` code units `b` holds from chunk `k` on.
pub open spec fn count_terminators(b: Seq<u8>, k: int) -> nat
    decreases b.len() - 2 * k,
{
    if k < 0 || 2 * k + 2 > b.len() {
        0
    } else if b[2 * k] == 0u8 && b[2 * k + 1] == 0u8 {
        count_terminators(b, k + 1) + 1
    } else {
        count_terminators(b, k + 1)
    }
}

/// `n` UTF-16LE strings read in sequence from `b`.
pub open spec fn spec_utf16_strings_n(b: Seq<u8>, n: nat) -> Result<Seq<Seq<char>>, MsgError>
    decreases n,
{
    if n == 0 {
        Ok(Seq::empty())
    } else {
        match spec_utf16_string(b) {
            Err(e) => Err(e),
            Ok((s, used)) => match spec_utf16_strings_n(b.skip(used), (n - 1) as nat) {
                Ok(rest) => Ok(seq![s] + rest),
                Err(e) => Err(e),
            },
        }
    }
}

/// As many UTF-16LE strings as `b` holds terminators for.
pub open spec fn spec_utf16_strings(b: Seq<u8>) -> Result<Seq<Seq<char>>, MsgError> {
    spec_utf16_strings_n(b, count_terminators(b, 0))
}

/// Reads one UTF-16LE string per `00 00` terminator found in `input`.
pub fn complete_many_utf16le_string(input: &[u8]) -> (r: Result<Vec<String>, MsgError>)
    ensures
        r matches Ok(v) ==> spec_utf16_strings(input@) == Ok::<_, MsgError>(v.deep_view()),
        r matches Err(e) ==> spec_utf16_strings(input@) == Err::<Seq<Seq<char>>, _>(e),
{
    let n: usize = input.len();
    let mut num: usize = 0;
    let mut k: usize = 0;
    while k < n / 2
        invariant
            n == input@.len(),
            k <= n / 2,
            num <= k,
            count_terminators(input@, 0) == num + count_terminators(input@, k as int),
        decreases n - 2 * k,
    {
        if input[2 * k] == 0 && input[2 * k + 1] == 0 {
            num = num + 1;
        }
        k = k + 1;
    }
    let mut out: Vec<String> = Vec::new();
    let mut pos: usize = 0;
    let mut left: usize = num;
    proof {
        assert(input@.skip(0) =~= input@);
        match spec_utf16_strings_n(input@, num as nat) {
            Ok(rest) => {
                assert(out.deep_view() + rest =~= rest);
            },
            Err(e) => {},
        }
    }
    while left > 0
        invariant
            pos <= input@.len(),
            n == input@.len(),
            spec_utf16_strings(input@) == (match spec_utf16_strings_n(
                input@.skip(pos as int),
                left as nat,
            ) {
                Ok(rest) => Ok::<_, MsgError>(out.deep_view() + rest),
                Err(e) => Err::<Seq<Seq<char>>, _>(e),
            }),
        decreases left,
    {
        let rest = vstd::slice::slice_subrange(input, pos, n);
        match complete_utf16le_string(rest) {
            Ok((s, used, _raw)) => {
                let ghost before = out.deep_view();
                out.push(s);
                proof {
                    assert(out.deep_view() =~= before + seq![s@]);
                    match spec_utf16_strings_n(
                        input@.skip(pos as int).skip(used as int),
                        (left - 1) as nat,
                    ) {
                        Ok(tail) => {
                            assert(before + (seq![s@] + tail) =~= (before + seq![s@]) + tail);
                        },
                        Err(e) => {},
                    }
                    assert(input@.skip(pos as int).skip(used as int) =~= input@.skip(
                        pos as int + used as int,
                    ));
                }
                pos = pos + used;
                left = left - 1;
            },
            Err(e) => {
                return Err(e);
            },
        }
    }
    proof {
        assert(out.deep_view() + Seq::<Seq<char>>::empty() =~= out.deep_view());
    }
    Ok(out)
}

/// The position of the first zero byte at or after `k` in `b`.
pub open spec fn find_nul(b: Seq<u8>, k: int) -> Option<int>
    decreases b.len() - k,
{
    if k < 0 || k >= b.len() {
        None
    } else if b[k] == 0u8 {
        Some(k)
    } else {
        find_nul(b, k + 1)
    }
}

/// A null-terminated byte string off the front of `b`, with the bytes
/// before the terminator and the bytes consumed (terminator included).
pub open spec fn spec_string8(b: Seq<u8>) -> Result<(Seq<u8>, int), MsgError> {
    match find_nul(b, 0) {
        Some(p) => Ok((b.take(p), p + 1)),
        None => Err(MsgError::TruncatedInput),
    }
}

/// Reads a null-terminated byte string off the front of `input`.
pub fn null_terminated_string(input: &[u8]) -> (r: Result<(Vec<u8>, usize), MsgError>)
    ensures
        r matches Ok(t) ==> spec_string8(input@) == Ok::<_, MsgError>((t.0@, t.1 as int)) && 1
            <= t.1 <= input@.len(),
        r matches Err(e) ==> spec_string8(input@) == Err::<(Seq<u8>, int), _>(e),
{
    let n: usize = input.len();
    let mut k: usize = 0;
    while k < n
        invariant
            n == input@.len(),
            k <= n,
            find_nul(input@, 0) == find_nul(input@, k as int),
        decreases n - k,
    {
        if input[k] == 0 {
            let raw = crate::bytes::copy_range(input, 0, k);
            proof {
                assert(raw@ =~= input@.take(k as int));
            }
            return Ok((raw, k + 1));
        }
        k = k + 1;
    }
    Err(MsgError::TruncatedInput)
}

/// Null-terminated byte strings read off `b` until it is exhausted; bytes
/// after the last terminator are an error.
pub open spec fn spec_string8s(b: Seq<u8>) -> Result<Seq<Seq<u8>>, MsgError>
    decreases b.len(),
{
    if b.len() == 0 {
        Ok(Seq::empty())
    } else {
        match find_nul(b, 0) {
            None => Err(MsgError::TruncatedInput),
            Some(p) => if 0 <= p < b.len() {
                match spec_string8s(b.skip(p + 1)) {
                    Ok(rest) => Ok(seq![b.take(p)] + rest),
                    Err(e) => Err(e),
                }
            } else {
                Err(MsgError::TruncatedInput)
            },
        }
    }
}

/// Reads null-terminated byte strings until `input` is exhausted.
pub fn many_null_terminated_strings(input: &[u8]) -> (r: Result<Vec<Vec<u8>>, MsgError>)
    ensures
        r matches Ok(v) ==> spec_string8s(input@) == Ok::<_, MsgError>(v.deep_view()),
        r matches Err(e) ==> spec_string8s(input@) == Err::<Seq<Seq<u8>>, _>(e),
{
    let n: usize = input.len();
    let mut out: Vec<Vec<u8>> = Vec::new();
    let mut pos: usize = 0;
    proof {
        assert(input@.skip(0) =~= input@);
        match spec_string8s(input@) {
            Ok(rest) => {
                assert(out.deep_view() + rest =~= rest);
            },
            Err(e) => {},
        }
    }
    while pos < n
        invariant
            pos <= n,
            n == input@.len(),
            spec_string8s(input@) == (match spec_string8s(input@.skip(pos as int)) {
                Ok(rest) => Ok::<_, MsgError>(out.deep_view() + rest),
                Err(e) => Err::<Seq<Seq<u8>>, _>(e),
            }),
        decreases n - pos,
    {
        let rest = vstd::slice::slice_subrange(input, pos, n);
        match null_terminated_string(rest) {
            Ok((s, used)) => {
                let ghost before = out.deep_view();
                let ghost sv = s@;
                out.push(s);
                proof {
                    assert(out.deep_view() =~~= before.push(sv));
                    assert(before.push(sv) =~= before + seq![sv]);
                    match spec_string8s(input@.skip(pos as int).skip(used as int)) {
                        Ok(tail) => {
                            assert(before + (seq![sv] + tail) =~= (before + seq![sv]) + tail);
                        },
                        Err(e) => {},
                    }
                    assert(input@.skip(pos as int).skip(used as int) =~= input@.skip(
                        pos as int + used as int,
                    ));
                }
                pos = pos + used;
            },
            Err(e) => {
                return Err(e);
            },
        }
    }
    proof {
        assert(input@.skip(n as int) =~= Seq::<u8>::empty());
        assert(out.deep_view() + Seq::<Seq<u8>>::empty() =~= out.deep_view());
    }
    Ok(out)
}

/// The uppercase hexadecimal digit for `x`.
pub open spec fn hex_digit(x: u32) -> u8
    recommends
        x < 16,
{
    if x < 10 {
        (0x30 + x) as u8
    } else {
        (0x37 + x) as u8
    }
}

/// The eight uppercase hexadecimal digits of `x`, most significant first.
pub open spec fn hex8(x: u32) -> Seq<u8> {
    Seq::new(8, |i: int| hex_digit((x >> (((7 - i) * 4) as u32)) & 0xF))
}

/// Appends the eight uppercase hexadecimal digits of `x` to `out`.
pub fn push_hex8(out: &mut Vec<u8>, x: u32)
    ensures
        final(out)@ == old(out)@ + hex8(x),
{
    let mut i: usize = 0;
    while i < 8
        invariant
            i <= 8,
            out@ == old(out)@ + hex8(x).take(i as int),
        decreases 8 - i,
    {
        let sh: u32 = ((7 - i) * 4) as u32;
        assert(sh < 32);
        let d: u32 = (x >> sh) & 0xF;
        assert((x >> sh) & 0xF < 16) by (bit_vector);
        let c: u8 = if d < 10 {
            (0x30 + d) as u8
        } else {
            (0x37 + d) as u8
        };
        out.push(c);
        assert(out@ =~= old(out)@ + hex8(x).take((i + 1) as int));
        i = i + 1;
    }
    proof {
        assert(hex8(x).take(8) =~= hex8(x));
    }
}

/// ASCII bytes widened to UTF-16LE: each byte followed by a zero byte.
pub open spec fn ascii_to_utf16(s: Seq<u8>) -> Seq<u8> {
    Seq::new(
        2 * s.len(),
        |i: int|
            if i % 2 == 0 {
                s[i / 2]
            } else {
                0u8
            },
    )
}

/// Widens ASCII bytes to UTF-16LE code-unit bytes.
pub fn widen_ascii(s: &Vec<u8>) -> (r: Vec<u8>)
    ensures
        r@ == ascii_to_utf16(s@),
{
    let mut out: Vec<u8> = Vec::new();
    let mut i: usize = 0;
    while i < s.len()
        invariant
            i <= s@.len(),
            out@ == ascii_to_utf16(s@.take(i as int)),
        decreases s@.len() - i,
    {
        out.push(s[i]);
        out.push(0);
        assert(out@ =~= ascii_to_utf16(s@.take((i + 1) as int)));
        i = i + 1;
    }
    proof {
        assert(s@.take(s@.len() as int) =~= s@);
    }
    out
}

/// The ASCII name of the property stream, `__properties_version1.0`.
pub open spec fn prop_stream_name_ascii() -> Seq<u8> {
    seq![
        0x5Fu8, 0x5Fu8, 0x70u8, 0x72u8, 0x6Fu8, 0x70u8, 0x65u8, 0x72u8, 0x74u8, 0x69u8, 0x65u8,
        0x73u8, 0x5Fu8, 0x76u8, 0x65u8, 0x72u8, 0x73u8, 0x69u8, 0x6Fu8, 0x6Eu8, 0x31u8, 0x2Eu8,
        0x30u8,
    ]
}

/// The ASCII prefix of a value stream's name, `__substg1.0_`.
pub open spec fn substg_prefix_ascii() -> Seq<u8> {
    seq![
        0x5Fu8, 0x5Fu8, 0x73u8, 0x75u8, 0x62u8, 0x73u8, 0x74u8, 0x67u8, 0x31u8, 0x2Eu8, 0x30u8,
        0x5Fu8,
    ]
}

/// The ASCII prefix of a recipient storage's name, `__recip_version1.0_#`.
pub open spec fn recip_prefix_ascii() -> Seq<u8> {
    seq![
        0x5Fu8, 0x5Fu8, 0x72u8, 0x65u8, 0x63u8, 0x69u8, 0x70u8, 0x5Fu8, 0x76u8, 0x65u8, 0x72u8,
        0x73u8, 0x69u8, 0x6Fu8, 0x6Eu8, 0x31u8, 0x2Eu8, 0x30u8, 0x5Fu8, 0x23u8,
    ]
}

/// The ASCII prefix of an attachment storage's name, `__attach_version1.0_#`.
pub open spec fn attach_prefix_ascii() -> Seq<u8> {
    seq![
        0x5Fu8, 0x5Fu8, 0x61u8, 0x74u8, 0x74u8, 0x61u8, 0x63u8, 0x68u8, 0x5Fu8, 0x76u8, 0x65u8,
        0x72u8, 0x73u8, 0x69u8, 0x6Fu8, 0x6Eu8, 0x31u8, 0x2Eu8, 0x30u8, 0x5Fu8, 0x23u8,
    ]
}

/// Builds `__properties_version1.0` as raw UTF-16LE bytes.
pub fn prop_stream_name_utf16() -> (r: Vec<u8>)
    ensures
        r@ == ascii_to_utf16(prop_stream_name_ascii()),
{
    let mut a: Vec<u8> = Vec::new();
    a.push(0x5F);
    a.push(0x5F);
    a.push(0x70);
    a.push(0x72);
    a.push(0x6F);
    a.push(0x70);
    a.push(0x65);
    a.push(0x72);
    a.push(0x74);
    a.push(0x69);
    a.push(0x65);
    a.push(0x73);
    a.push(0x5F);
    a.push(0x76);
    a.push(0x65);
    a.push(0x72);
    a.push(0x73);
    a.push(0x69);
    a.push(0x6F);
    a.push(0x6E);
    a.push(0x31);
    a.push(0x2E);
    a.push(0x30);
    proof {
        assert(a@ =~= prop_stream_name_ascii());
    }
    widen_ascii(&a)
}

/// The ASCII name of the value stream for the raw tag `tag`:
/// `__substg1.0_` followed by the tag's eight hex digits.
pub open spec fn substg_name_ascii(tag: u32) -> Seq<u8> {
    substg_prefix_ascii() + hex8(tag)
}

/// Builds a value stream's name as raw UTF-16LE bytes.
pub fn substg_name_utf16(tag: u32) -> (r: Vec<u8>)
    ensures
        r@ == ascii_to_utf16(substg_name_ascii(tag)),
{
    let mut a: Vec<u8> = Vec::new();
    a.push(0x5F);
    a.push(0x5F);
    a.push(0x73);
    a.push(0x75);
    a.push(0x62);
    a.push(0x73);
    a.push(0x74);
    a.push(0x67);
    a.push(0x31);
    a.push(0x2E);
    a.push(0x30);
    a.push(0x5F);
    proof {
        assert(a@ =~= substg_prefix_ascii());
    }
    push_hex8(&mut a, tag);
    widen_ascii(&a)
}

/// The ASCII name of element `k` of a multi-valued property: the value
/// stream's name, a dash, and the element's eight hex digits.
pub open spec fn substg_element_name_ascii(tag: u32, k: u32) -> Seq<u8> {
    substg_name_ascii(tag) + seq![0x2Du8] + hex8(k)
}

/// Builds a multi-valued element stream's name as raw UTF-16LE bytes.
pub fn substg_element_name_utf16(tag: u32, k: u32) -> (r: Vec<u8>)
    ensures
        r@ == ascii_to_utf16(substg_element_name_ascii(tag, k)),
{
    let mut a: Vec<u8> = Vec::new();
    a.push(0x5F);
    a.push(0x5F);
    a.push(0x73);
    a.push(0x75);
    a.push(0x62);
    a.push(0x73);
    a.push(0x74);
    a.push(0x67);
    a.push(0x31);
    a.push(0x2E);
    a.push(0x30);
    a.push(0x5F);
    proof {
        assert(a@ =~= substg_prefix_ascii());
    }
    push_hex8(&mut a, tag);
    a.push(0x2D);
    push_hex8(&mut a, k);
    proof {
        assert(a@ =~= substg_element_name_ascii(tag, k));
    }
    widen_ascii(&a)
}

/// The ASCII name of recipient storage `i`.
pub open spec fn recip_name_ascii(i: u32) -> Seq<u8> {
    recip_prefix_ascii() + hex8(i)
}

/// Builds a recipient storage's name as raw UTF-16LE bytes.
pub fn recip_name_utf16(i: u32) -> (r: Vec<u8>)
    ensures
        r@ == ascii_to_utf16(recip_name_ascii(i)),
{
    let mut a: Vec<u8> = Vec::new();
    a.push(0x5F);
    a.push(0x5F);
    a.push(0x72);
    a.push(0x65);
    a.push(0x63);
    a.push(0x69);
    a.push(0x70);
    a.push(0x5F);
    a.push(0x76);
    a.push(0x65);
    a.push(0x72);
    a.push(0x73);
    a.push(0x69);
    a.push(0x6F);
    a.push(0x6E);
    a.push(0x31);
    a.push(0x2E);
    a.push(0x30);
    a.push(0x5F);
    a.push(0x23);
    proof {
        assert(a@ =~= recip_prefix_ascii());
    }
    push_hex8(&mut a, i);
    widen_ascii(&a)
}

/// The ASCII name of attachment storage `i`.
pub open spec fn attach_name_ascii(i: u32) -> Seq<u8> {
    attach_prefix_ascii() + hex8(i)
}

/// Builds an attachment storage's name as raw UTF-16LE bytes.
pub fn attach_name_utf16(i: u32) -> (r: Vec<u8>)
    ensures
        r@ == ascii_to_utf16(attach_name_ascii(i)),
{
    let mut a: Vec<u8> = Vec::new();
    a.push(0x5F);
    a.push(0x5F);
    a.push(0x61);
    a.push(0x74);
    a.push(0x74);
    a.push(0x61);
    a.push(0x63);
    a.push(0x68);
    a.push(0x5F);
    a.push(0x76);
    a.push(0x65);
    a.push(0x72);
    a.push(0x73);
    a.push(0x69);
    a.push(0x6F);
    a.push(0x6E);
    a.push(0x31);
    a.push(0x2E);
    a.push(0x30);
    a.push(0x5F);
    a.push(0x23);
    proof {
        assert(a@ =~= attach_prefix_ascii());
    }
    push_hex8(&mut a, i);
    widen_ascii(&a)
}

/// Compares two byte vectors for equality.
pub fn bytes_eq(a: &Vec<u8>, b: &Vec<u8>) -> (r: bool)
    ensures
        r == (a@ == b@),
{
    if a.len() != b.len() {
        return false;
    }
    let mut i: usize = 0;
    while i < a.len()
        invariant
            a@.len() == b@.len(),
            i <= a@.len(),
            forall|j: int| 0 <= j < i ==> a@[j] == b@[j],
        decreases a@.len() - i,
    {
        if a[i] != b[i] {
            return false;
        }
        i = i + 1;
    }
    proof {
        assert(a@ =~= b@);
    }
    true
}

} // verus!
