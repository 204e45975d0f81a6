use vstd::prelude::*;
use vstd::utf8::{
    char_is_scalar, decode_utf8, decode_utf8_encode_utf8, encode_scalar, encode_utf8, encode_utf8_decode_utf8,
    encode_utf8_valid_utf8, has_width_1_encoding, has_width_2_encoding, has_width_3_encoding,
    is_continuation_byte, is_scalar, last_continuation_byte, leading_byte_width_1, leading_byte_width_2,
    leading_byte_width_3, leading_byte_width_4, second_last_continuation_byte,
    third_last_continuation_byte, valid_utf8,
};

use crate::protocol::bytes::zeros;
use crate::protocol::error::ProtocolError;

verus! {

/// Index of the first zero byte at or after `i`, or the length when there is none.
pub open spec fn first_zero(b: Seq<u8>, i: int) -> int
    decreases b.len() - i,
{
    if i < 0 || i >= b.len() {
        b.len() as int
    } else if b[i] == 0 {
        i
    } else {
        first_zero(b, i + 1)
    }
}

/// The largest index `<= k` at which the UTF-8 bytes `b` can be cut without
/// splitting a code point.
pub open spec fn cut_point(b: Seq<u8>, k: int) -> int
    decreases k,
{
    if k <= 0 {
        0
    } else if k >= b.len() {
        b.len() as int
    } else if !is_continuation_byte(b[k]) {
        k
    } else {
        cut_point(b, k - 1)
    }
}

/// The `n`-byte zero-padded field holding the longest prefix of `s` whose
/// UTF-8 encoding fits and ends on a code point boundary.
pub open spec fn spec_encode_fixed_utf8(s: Seq<char>, n: nat) -> Seq<u8> {
    let bytes = encode_utf8(s);
    let k = cut_point(bytes, n as int);
    bytes.take(k) + zeros((n - k) as nat)
}

/// The text in a zero-padded fixed field: everything before the first zero
/// byte, which must be followed by zeros only and be valid UTF-8.
pub open spec fn spec_decode_fixed_utf8(field: &'static str, b: Seq<u8>) -> Result<
    Seq<char>,
    ProtocolError,
> {
    let end = first_zero(b, 0);
    if exists|i: int| end <= i < b.len() && b[i] != 0 {
        Err(ProtocolError::InvalidPadding { field })
    } else if !valid_utf8(b.take(end)) {
        Err(ProtocolError::InvalidUtf8 { field })
    } else {
        Ok(decode_utf8(b.take(end)))
    }
}

pub proof fn lemma_first_zero_bounds(b: Seq<u8>, i: int)
    requires
        0 <= i <= b.len(),
    ensures
        i <= first_zero(b, i) <= b.len(),
        forall|j: int| i <= j < first_zero(b, i) ==> b[j] != 0,
        first_zero(b, i) < b.len() ==> b[first_zero(b, i)] == 0,
    decreases b.len() - i,
{
    if i < b.len() && b[i] != 0 {
        lemma_first_zero_bounds(b, i + 1);
    }
}

pub proof fn lemma_first_zero_unique(b: Seq<u8>, i: int, e: int)
    requires
        0 <= i <= e <= b.len(),
        forall|j: int| i <= j < e ==> b[j] != 0,
        e < b.len() ==> b[e] == 0,
    ensures
        first_zero(b, i) == e,
    decreases b.len() - i,
{
    if i < e {
        lemma_first_zero_unique(b, i + 1, e);
    }
}

pub proof fn lemma_cut_point_bounds(b: Seq<u8>, k: int)
    ensures
        0 <= cut_point(b, k) <= b.len(),
        cut_point(b, k) <= k || (k < 0 && cut_point(b, k) == 0),
        k >= b.len() ==> cut_point(b, k) == b.len(),
        0 < cut_point(b, k) < b.len() ==> !is_continuation_byte(b[cut_point(b, k)]),
    decreases k,
{
    if k > 0 && k < b.len() && is_continuation_byte(b[k]) {
        lemma_cut_point_bounds(b, k - 1);
    }
}

/// The text has no NUL character and its UTF-8 encoding fits in `n` bytes, so
/// a fixed field of `n` bytes holds it exactly.
pub open spec fn fits_fixed_field(s: Seq<char>, n: nat) -> bool {
    &&& forall|i: int| 0 <= i < s.len() ==> s[i] as u32 != 0
    &&& encode_utf8(s).len() <= n
}

proof fn lemma_scalar_bytes_nonzero(c: u32)
    by (bit_vector)
    requires
        c != 0,
        c <= 0x10FFFF,
    ensures
        c <= 0x7F ==> leading_byte_width_1(c) != 0,
        leading_byte_width_2(c) != 0,
        leading_byte_width_3(c) != 0,
        leading_byte_width_4(c) != 0,
        last_continuation_byte(c) != 0,
        second_last_continuation_byte(c) != 0,
        third_last_continuation_byte(c) != 0,
{
}

proof fn lemma_encode_utf8_nonzero(s: Seq<char>)
    requires
        forall|i: int| 0 <= i < s.len() ==> s[i] as u32 != 0,
    ensures
        forall|j: int| 0 <= j < encode_utf8(s).len() ==> encode_utf8(s)[j] != 0,
    decreases s.len(),
{
    if s.len() > 0 {
        let c = s[0] as u32;
        char_is_scalar(s[0]);
        lemma_scalar_bytes_nonzero(c);
        let head = encode_scalar(c);
        assert(forall|j: int| 0 <= j < head.len() ==> head[j] != 0);
        lemma_encode_utf8_nonzero(s.drop_first());
        let tail = encode_utf8(s.drop_first());
        assert(encode_utf8(s) == head + tail);
        assert forall|j: int| 0 <= j < encode_utf8(s).len() implies encode_utf8(s)[j] != 0 by {
            if j < head.len() {
            } else {
                assert(encode_utf8(s)[j] == tail[j - head.len()]);
            }
        }
    }
}

/// Writing a fitting text into a fixed field and reading it back gives the text.
pub proof fn lemma_fixed_utf8_round_trip(field: &'static str, s: Seq<char>, n: nat)
    requires
        fits_fixed_field(s, n),
    ensures
        spec_decode_fixed_utf8(field, spec_encode_fixed_utf8(s, n)) == Ok::<
            Seq<char>,
            ProtocolError,
        >(s),
{
    let bytes = encode_utf8(s);
    lemma_cut_point_bounds(bytes, n as int);
    assert(cut_point(bytes, n as int) == bytes.len()) by {
        if n as int >= bytes.len() {
        }
    }
    let enc = spec_encode_fixed_utf8(s, n);
    assert(bytes.take(bytes.len() as int) =~= bytes);
    assert(enc == bytes + zeros((n - bytes.len()) as nat));
    lemma_encode_utf8_nonzero(s);
    lemma_first_zero_unique(enc, 0, bytes.len() as int);
    assert(enc.take(bytes.len() as int) =~= bytes);
    encode_utf8_valid_utf8(s);
    encode_utf8_decode_utf8(s);
}

/// How many leading characters of `s` fit, whole, in `n` bytes of UTF-8.
pub open spec fn fitting_char_count(s: Seq<char>, n: int) -> nat
    decreases s.len(),
{
    if s.len() == 0 {
        0
    } else {
        let w = encode_scalar(s[0] as u32).len();
        if w <= n {
            1 + fitting_char_count(s.drop_first(), n - w)
        } else {
            0
        }
    }
}

/// The text an `n`-byte fixed field keeps of `s`: its longest prefix of
/// whole characters whose UTF-8 encoding fits.
pub open spec fn fixed_field_text(s: Seq<char>, n: nat) -> Seq<char> {
    s.take(fitting_char_count(s, n as int) as int)
}

proof fn lemma_scalar_bytes_kinds(c: u32)
    by (bit_vector)
    requires
        c <= 0x10FFFF,
    ensures
        c <= 0x7F ==> !is_continuation_byte(leading_byte_width_1(c)),
        !is_continuation_byte(leading_byte_width_2(c)),
        !is_continuation_byte(leading_byte_width_3(c)),
        !is_continuation_byte(leading_byte_width_4(c)),
        is_continuation_byte(last_continuation_byte(c)),
        is_continuation_byte(second_last_continuation_byte(c)),
        is_continuation_byte(third_last_continuation_byte(c)),
{
}

/// A character's UTF-8 encoding starts with a byte that is no continuation
/// byte, and all its other bytes are continuation bytes.
proof fn lemma_encode_scalar_shape(c: u32)
    requires
        is_scalar(c),
    ensures
        1 <= encode_scalar(c).len() <= 4,
        !is_continuation_byte(encode_scalar(c)[0]),
        forall|i: int| 1 <= i < encode_scalar(c).len() ==> is_continuation_byte(
            #[trigger] encode_scalar(c)[i],
        ),
{
    lemma_scalar_bytes_kinds(c);
}

/// The first byte of a non-empty text's encoding is no continuation byte.
proof fn lemma_encode_utf8_starts_a_char(s: Seq<char>)
    requires
        s.len() > 0,
    ensures
        encode_utf8(s).len() > 0,
        !is_continuation_byte(encode_utf8(s)[0]),
{
    char_is_scalar(s[0]);
    lemma_encode_scalar_shape(s[0] as u32);
    let head = encode_scalar(s[0] as u32);
    assert(encode_utf8(s) == head + encode_utf8(s.drop_first()));
    assert(encode_utf8(s)[0] == head[0]);
}

/// Cutting inside the first character's bytes cuts before it.
proof fn lemma_cut_point_inside_first(head: Seq<u8>, tail: Seq<u8>, k: int)
    requires
        0 <= k < head.len(),
        forall|i: int| 1 <= i < head.len() ==> is_continuation_byte(#[trigger] head[i]),
    ensures
        cut_point(head + tail, k) == 0,
    decreases k,
{
    if k > 0 {
        assert((head + tail)[k] == head[k]);
        lemma_cut_point_inside_first(head, tail, k - 1);
    }
}

/// Cutting at or after the end of a first part that ends on a character
/// boundary cuts the rest where it would be cut on its own.
proof fn lemma_cut_point_after_first(head: Seq<u8>, tail: Seq<u8>, k: int)
    requires
        1 <= head.len() <= k,
        tail.len() > 0 ==> !is_continuation_byte(tail[0]),
    ensures
        cut_point(head + tail, k) == head.len() + cut_point(tail, k - head.len()),
    decreases k,
{
    let b = head + tail;
    let w = head.len() as int;
    let x = k - w;
    if k >= b.len() {
    } else {
        assert(b[k] == tail[x]);
        if is_continuation_byte(b[k]) {
            assert(x > 0);
            lemma_cut_point_after_first(head, tail, k - 1);
        }
    }
}

/// Where an `n`-byte field cuts the encoding of `s`: right after the
/// characters that fit whole, which are a prefix of the encoding; and the
/// next character would not have fit.
proof fn lemma_fixed_field_cut(s: Seq<char>, n: int)
    requires
        n >= 0,
    ensures
        ({
            let m = fitting_char_count(s, n) as int;
            let kept = encode_utf8(s.take(m));
            &&& m <= s.len()
            &&& cut_point(encode_utf8(s), n) == kept.len()
            &&& encode_utf8(s).take(kept.len() as int) == kept
            &&& kept.len() <= n
            &&& m < s.len() ==> encode_utf8(s.take(m + 1)).len() > n
        }),
    decreases s.len(),
{
    let e = encode_utf8(s);
    if s.len() == 0 {
        assert(s.take(0) =~= s);
        assert(e.take(0) =~= e);
    } else {
        let c = s[0] as u32;
        char_is_scalar(s[0]);
        lemma_encode_scalar_shape(c);
        let head = encode_scalar(c);
        let w = head.len() as int;
        let rest = s.drop_first();
        let tail = encode_utf8(rest);
        assert(e == head + tail);
        if w > n {
            assert(fitting_char_count(s, n) == 0);
            lemma_cut_point_inside_first(head, tail, n);
            assert(s.take(0) =~= Seq::<char>::empty());
            assert(e.take(0) =~= Seq::<u8>::empty());
            let one = s.take(1);
            assert(one[0] == s[0]);
            assert(one.drop_first() =~= Seq::<char>::empty());
            assert(encode_utf8(one) == head + encode_utf8(one.drop_first()));
        } else {
            lemma_fixed_field_cut(rest, n - w);
            let m1 = fitting_char_count(rest, n - w) as int;
            let m = m1 + 1;
            assert(fitting_char_count(s, n) as int == m);
            let kept_rest = encode_utf8(rest.take(m1));
            let p = s.take(m);
            assert(p[0] == s[0]);
            assert(p.drop_first() =~= rest.take(m1));
            assert(encode_utf8(p) == head + kept_rest);
            if rest.len() > 0 {
                lemma_encode_utf8_starts_a_char(rest);
            }
            lemma_cut_point_after_first(head, tail, n);
            assert(e.take(w + kept_rest.len()) =~= head + tail.take(kept_rest.len() as int));
            if m < s.len() {
                let q = s.take(m + 1);
                assert(q[0] == s[0]);
                assert(q.drop_first() =~= rest.take(m1 + 1));
                assert(encode_utf8(q) == head + encode_utf8(rest.take(m1 + 1)));
            }
        }
    }
}

/// Writing a text without NUL characters into an `n`-byte field and reading
/// it back gives its longest prefix of whole characters that fits: the whole
/// text when it fits, and otherwise the text cut before the first character
/// that would not.
pub proof fn law_fixed_field_keeps_longest_fitting_prefix(field: &'static str, s: Seq<char>, n: nat)
    requires
        forall|i: int| 0 <= i < s.len() ==> s[i] as u32 != 0,
    ensures
        spec_decode_fixed_utf8(field, spec_encode_fixed_utf8(s, n)) == Ok::<Seq<char>, ProtocolError>(
            fixed_field_text(s, n),
        ),
        encode_utf8(fixed_field_text(s, n)).len() <= n,
        fixed_field_text(s, n).len() < s.len() ==> encode_utf8(
            s.take(fixed_field_text(s, n).len() as int + 1),
        ).len() > n,
{
    lemma_fixed_field_cut(s, n as int);
    let m = fitting_char_count(s, n as int) as int;
    let p = fixed_field_text(s, n);
    assert(p.len() == m);
    let kept = encode_utf8(p);
    lemma_cut_point_bounds(kept, n as int);
    assert(spec_encode_fixed_utf8(s, n) == spec_encode_fixed_utf8(p, n));
    assert forall|i: int| 0 <= i < p.len() implies p[i] as u32 != 0 by {
        assert(p[i] == s[i]);
    }
    lemma_fixed_utf8_round_trip(field, p, n);
}

/// A field that reads back as some text is exactly the field that text is
/// written as.
pub proof fn lemma_fixed_utf8_canonical(field: &'static str, b: Seq<u8>, s: Seq<char>)
    requires
        spec_decode_fixed_utf8(field, b) == Ok::<Seq<char>, ProtocolError>(s),
    ensures
        spec_encode_fixed_utf8(s, b.len()) == b,
{
    let end = first_zero(b, 0);
    lemma_first_zero_bounds(b, 0);
    let prefix = b.take(end);
    assert(valid_utf8(prefix));
    decode_utf8_encode_utf8(prefix);
    assert(encode_utf8(s) == prefix);
    lemma_cut_point_bounds(prefix, b.len() as int);
    assert(forall|i: int| end <= i < b.len() ==> b[i] == 0);
    assert(spec_encode_fixed_utf8(s, b.len()) =~= b);
}

/// `String::from_utf8`: the bytes become a `String` exactly when they are valid
/// UTF-8, and the string then holds the characters they encode.
#[verifier::external_body]
fn string_from_utf8(bytes: Vec<u8>) -> (r: Option<String>)
    ensures
        r is Some <==> valid_utf8(bytes@),
        r matches Some(s) ==> s@ == decode_utf8(bytes@),
{
    String::from_utf8(bytes).ok()
}

/// Writes `value` into an `n`-byte zero-padded field, truncating at the last
/// code point that fits.
pub fn encode_fixed_utf8(value: &str, n: usize) -> (r: Vec<u8>)
    ensures
        r@ == spec_encode_fixed_utf8(value@, n as nat),
        r@.len() == n,
{
    let bytes = value.as_bytes();
    let len = bytes.len();
    proof {
        assert(bytes@ == encode_utf8(value@));
    }
    let mut k: usize = if n >= len {
        len
    } else {
        n
    };
    proof {
        lemma_cut_point_bounds(bytes@, n as int);
    }
    while k > 0 && k < len && bytes[k] >= 0x80 && bytes[k] <= 0xBF
        invariant
            len == bytes@.len(),
            k <= len,
            k <= n,
            cut_point(bytes@, n as int) == cut_point(bytes@, k as int),
        decreases k,
    {
        k = k - 1;
    }
    let mut out: Vec<u8> = Vec::new();
    let mut i: usize = 0;
    while i < k
        invariant
            k <= len,
            len == bytes@.len(),
            i <= k,
            out@ == bytes@.take(i as int),
        decreases k - i,
    {
        out.push(bytes[i]);
        i = i + 1;
        assert(out@ =~= bytes@.take(i as int));
    }
    let ghost prefix = out@;
    let mut j: usize = k;
    while j < n
        invariant
            k <= j <= n,
            out@ == prefix + zeros((j - k) as nat),
        decreases n - j,
    {
        out.push(0u8);
        j = j + 1;
        assert(out@ =~= prefix + zeros((j - k) as nat));
    }
    out
}

/// Reads a zero-padded UTF-8 field.
pub fn decode_fixed_utf8(field: &'static str, bytes: &[u8]) -> (r: Result<String, ProtocolError>)
    ensures
        r matches Ok(s) ==> spec_decode_fixed_utf8(field, bytes@) == Ok::<Seq<char>, ProtocolError>(
            s@,
        ),
        r matches Err(e) ==> spec_decode_fixed_utf8(field, bytes@) == Err::<Seq<char>, ProtocolError>(
            e,
        ),
{
    let n = bytes.len();
    let mut end: usize = 0;
    while end < n && bytes[end] != 0
        invariant
            n == bytes@.len(),
            end <= n,
            forall|j: int| 0 <= j < end ==> bytes@[j] != 0,
        decreases n - end,
    {
        end = end + 1;
    }
    proof {
        lemma_first_zero_unique(bytes@, 0, end as int);
    }
    let mut i: usize = end;
    while i < n
        invariant
            n == bytes@.len(),
            end <= i <= n,
            first_zero(bytes@, 0) == end,
            forall|j: int| end <= j < i ==> bytes@[j] == 0,
        decreases n - i,
    {
        if bytes[i] != 0 {
            assert(end <= i < bytes@.len() && bytes@[i as int] != 0);
            return Err(ProtocolError::InvalidPadding { field });
        }
        i = i + 1;
    }
    let mut prefix: Vec<u8> = Vec::new();
    let mut k: usize = 0;
    while k < end
        invariant
            end <= n,
            n == bytes@.len(),
            k <= end,
            first_zero(bytes@, 0) == end,
            forall|j: int| end <= j < n ==> bytes@[j] == 0,
            prefix@ == bytes@.take(k as int),
        decreases end - k,
    {
        prefix.push(bytes[k]);
        k = k + 1;
        assert(prefix@ =~= bytes@.take(k as int));
    }
    match string_from_utf8(prefix) {
        Some(s) => Ok(s),
        None => Err(ProtocolError::InvalidUtf8 { field }),
    }
}

} // verus!
