//! Executable UTF-8 validation, proved against vstd's UTF-8 specification,
//! and the trusted conversions between checked byte sequences and `str`.

use vstd::prelude::*;
use vstd::string::StringSliceAdditionalSpecFns;
use vstd::utf8::{
    decode_utf8, encode_utf8, is_continuation_byte, is_leading_byte_width_1,
    is_leading_byte_width_2, is_leading_byte_width_3, is_leading_byte_width_4,
    length_of_first_scalar, pop_first_scalar, valid_first_scalar, valid_utf8,
};

verus! {

broadcast use vstd::seq::group_seq_axioms;

/// Length of the longest prefix of `s` that is a concatenation of complete,
/// well-formed UTF-8 scalar encodings. For valid input this is `s.len()`;
/// otherwise it is the byte offset of the first malformed sequence.
pub open spec fn utf8_prefix_len(s: Seq<u8>) -> nat
    decreases s.len(),
{
    if valid_first_scalar(s) {
        (length_of_first_scalar(s) + utf8_prefix_len(pop_first_scalar(s))) as nat
    } else {
        0
    }
}

/// The byte width of a well-formed leading scalar is at least 1 and at most
/// the length of the sequence.
proof fn lemma_first_scalar_len_bounds(s: Seq<u8>)
    requires
        valid_first_scalar(s),
    ensures
        1 <= length_of_first_scalar(s) <= s.len(),
        pop_first_scalar(s).len() == s.len() - length_of_first_scalar(s),
{
}

/// A sequence is valid UTF-8 exactly when its longest well-formed prefix is
/// the whole sequence.
pub proof fn lemma_utf8_prefix_len(s: Seq<u8>)
    ensures
        utf8_prefix_len(s) <= s.len(),
        valid_utf8(s) <==> utf8_prefix_len(s) == s.len(),
    decreases s.len(),
{
    if valid_first_scalar(s) {
        lemma_first_scalar_len_bounds(s);
        lemma_utf8_prefix_len(pop_first_scalar(s));
    } else {
        if s.len() != 0 {
            assert(!valid_utf8(s));
        }
    }
}

/// Advancing over the longest well-formed prefix of the suffix at `i` keeps
/// the whole prefix of `s` valid.
proof fn lemma_prefix_partial(s: Seq<u8>, i: int)
    requires
        0 <= i <= s.len(),
        vstd::utf8::partial_valid_utf8(s, i),
    ensures
        vstd::utf8::partial_valid_utf8(s, i + utf8_prefix_len(s.subrange(i, s.len() as int))),
    decreases s.len() - i,
{
    let t = s.subrange(i, s.len() as int);
    if valid_first_scalar(t) {
        let k = length_of_first_scalar(t);
        lemma_validate_step(s, i);
        vstd::utf8::partial_valid_utf8_extend(s, i);
        lemma_prefix_partial(s, i + k);
    }
}

/// Every byte before the reported offset belongs to a complete well-formed
/// scalar encoding: the prefix of length `utf8_prefix_len` is itself valid
/// UTF-8.
pub proof fn lemma_utf8_prefix_valid(s: Seq<u8>)
    ensures
        valid_utf8(s.subrange(0, utf8_prefix_len(s) as int)),
{
    assert(s.subrange(0, 0) =~= Seq::<u8>::empty());
    assert(s.subrange(0, s.len() as int) =~= s);
    lemma_prefix_partial(s, 0);
}

/// A byte below 0x80 always leads a well-formed one-byte scalar.
proof fn lemma_width1(t: Seq<u8>)
    requires
        t.len() >= 1,
        is_leading_byte_width_1(t[0]),
    ensures
        valid_first_scalar(t),
        length_of_first_scalar(t) == 1,
{
    let b0 = t[0];
    assert(((b0 & 0x7f) as u32) < 0xd800) by (bit_vector);
}

/// Exact well-formedness condition for a two-byte leading byte: one
/// continuation byte must follow, and bytes 0xC0 and 0xC1 are excluded as
/// overlong encodings.
proof fn lemma_width2(t: Seq<u8>)
    requires
        t.len() >= 1,
        is_leading_byte_width_2(t[0]),
    ensures
        valid_first_scalar(t) <==> (t.len() >= 2 && is_continuation_byte(t[1]) && t[0] >= 0xc2),
        valid_first_scalar(t) ==> length_of_first_scalar(t) == 2,
{
    let b0 = t[0];
    if t.len() >= 2 && is_continuation_byte(t[1]) {
        let b1 = t[1];
        assert(((((b0 & 0x1f) as u32) << 6) | ((b1 & 0x3f) as u32)) >= 0x80 <==> b0 >= 0xc2)
            by (bit_vector)
            requires
                0xc0 <= b0 <= 0xdf && 0x80 <= b1 <= 0xbf,
        ;
        assert(((((b0 & 0x1f) as u32) << 6) | ((b1 & 0x3f) as u32)) < 0xd800) by (bit_vector)
            requires
                0xc0 <= b0 <= 0xdf && 0x80 <= b1 <= 0xbf,
        ;
    }
}

/// Exact well-formedness condition for a three-byte leading byte: two
/// continuation bytes must follow, overlong encodings (0xE0 with a low first
/// continuation) and surrogate codepoints (0xED with a high one) are
/// excluded.
proof fn lemma_width3(t: Seq<u8>)
    requires
        t.len() >= 1,
        is_leading_byte_width_3(t[0]),
    ensures
        valid_first_scalar(t) <==> (t.len() >= 3 && is_continuation_byte(t[1])
            && is_continuation_byte(t[2]) && !(t[0] == 0xe0 && t[1] < 0xa0) && !(t[0] == 0xed
            && t[1] >= 0xa0)),
        valid_first_scalar(t) ==> length_of_first_scalar(t) == 3,
{
    let b0 = t[0];
    if t.len() >= 3 && is_continuation_byte(t[1]) && is_continuation_byte(t[2]) {
        let b1 = t[1];
        let b2 = t[2];
        assert({
            let cp = ((((b0 & 0x0f) as u32) << 12) | (((b1 & 0x3f) as u32) << 6) | ((b2
                & 0x3f) as u32));
            &&& (cp >= 0x800 <==> !(b0 == 0xe0 && b1 < 0xa0))
            &&& ((0xd800 <= cp && cp <= 0xdfff) <==> (b0 == 0xed && b1 >= 0xa0))
        }) by (bit_vector)
            requires
                0xe0 <= b0 <= 0xef && 0x80 <= b1 <= 0xbf && 0x80 <= b2 <= 0xbf,
        ;
    }
}

/// Exact well-formedness condition for a four-byte leading byte: three
/// continuation bytes must follow, overlong encodings (0xF0 with a low first
/// continuation) and codepoints above 0x10FFFF are excluded.
proof fn lemma_width4(t: Seq<u8>)
    requires
        t.len() >= 1,
        is_leading_byte_width_4(t[0]),
    ensures
        valid_first_scalar(t) <==> (t.len() >= 4 && is_continuation_byte(t[1])
            && is_continuation_byte(t[2]) && is_continuation_byte(t[3]) && !(t[0] == 0xf0 && t[1]
            < 0x90) && (t[0] < 0xf4 || (t[0] == 0xf4 && t[1] < 0x90))),
        valid_first_scalar(t) ==> length_of_first_scalar(t) == 4,
{
    let b0 = t[0];
    if t.len() >= 4 && is_continuation_byte(t[1]) && is_continuation_byte(t[2])
        && is_continuation_byte(t[3]) {
        let b1 = t[1];
        let b2 = t[2];
        let b3 = t[3];
        assert({
            let cp = ((((b0 & 0x07) as u32) << 18) | (((b1 & 0x3f) as u32) << 12) | (((b2
                & 0x3f) as u32) << 6) | ((b3 & 0x3f) as u32));
            &&& (cp >= 0x10000 <==> !(b0 == 0xf0 && b1 < 0x90))
            &&& (cp <= 0x10ffff <==> (b0 < 0xf4 || (b0 == 0xf4 && b1 < 0x90)))
            &&& !(0xd800 <= cp && cp <= 0xdfff) || cp < 0x10000
        }) by (bit_vector)
            requires
                0xf0 <= b0 <= 0xf7 && 0x80 <= b1 <= 0xbf && 0x80 <= b2 <= 0xbf && 0x80 <= b3
                    <= 0xbf,
        ;
    }
}

/// A continuation byte, or a byte above 0xF7, never leads a scalar.
proof fn lemma_invalid_lead(t: Seq<u8>)
    requires
        t.len() >= 1,
        is_continuation_byte(t[0]) || t[0] > 0xf7,
    ensures
        !valid_first_scalar(t),
{
}

/// True when `b` has the continuation-byte form 10xxxxxx.
fn is_cont(b: u8) -> (r: bool)
    ensures
        r == is_continuation_byte(b),
{
    0x80 <= b && b <= 0xbf
}

/// Decides whether the suffix of `v` starting at `i` begins with a
/// well-formed UTF-8 scalar encoding, and returns the encoding's byte width.
fn first_scalar_width(v: &[u8], i: usize) -> (r: Option<usize>)
    requires
        i < v@.len(),
    ensures
        ({
            let t = v@.subrange(i as int, v@.len() as int);
            match r {
                Some(k) => valid_first_scalar(t) && k == length_of_first_scalar(t) && 1 <= k <= v@.len() - i,
                None => !valid_first_scalar(t),
            }
        }),
{
    let ghost t = v@.subrange(i as int, v@.len() as int);
    proof {
        assert forall|j: int| 0 <= j < t.len() implies t[j] == v@[i + j] by {}
    }
    let n = v.len();
    let rem = n - i;
    let b0 = v[i];
    if b0 < 0x80 {
        proof {
            lemma_width1(t);
        }
        Some(1)
    } else if b0 < 0xc0 {
        proof {
            lemma_invalid_lead(t);
        }
        None
    } else if b0 < 0xe0 {
        proof {
            lemma_width2(t);
        }
        if b0 >= 0xc2 && rem >= 2 && is_cont(v[i + 1]) {
            Some(2)
        } else {
            None
        }
    } else if b0 < 0xf0 {
        proof {
            lemma_width3(t);
        }
        if rem >= 3 && is_cont(v[i + 1]) && is_cont(v[i + 2]) && !(b0 == 0xe0 && v[i + 1] < 0xa0)
            && !(b0 == 0xed && v[i + 1] >= 0xa0) {
            Some(3)
        } else {
            None
        }
    } else if b0 < 0xf8 {
        proof {
            lemma_width4(t);
        }
        if rem >= 4 && is_cont(v[i + 1]) && is_cont(v[i + 2]) && is_cont(v[i + 3]) && !(b0 == 0xf0
            && v[i + 1] < 0x90) && (b0 < 0xf4 || (b0 == 0xf4 && v[i + 1] < 0x90)) {
            Some(4)
        } else {
            None
        }
    } else {
        proof {
            lemma_invalid_lead(t);
        }
        None
    }
}

/// Consuming one well-formed scalar advances the longest well-formed prefix
/// by its width and preserves validity of the remainder.
proof fn lemma_validate_step(s: Seq<u8>, i: int)
    requires
        0 <= i < s.len(),
        valid_first_scalar(s.subrange(i, s.len() as int)),
    ensures
        ({
            let t = s.subrange(i, s.len() as int);
            let k = length_of_first_scalar(t);
            let u = s.subrange(i + k, s.len() as int);
            &&& i + k <= s.len()
            &&& (valid_utf8(t) <==> valid_utf8(u))
            &&& utf8_prefix_len(t) == k + utf8_prefix_len(u)
        }),
{
    let t = s.subrange(i, s.len() as int);
    let k = length_of_first_scalar(t);
    lemma_first_scalar_len_bounds(t);
    assert(s.subrange(i + k, s.len() as int) =~= pop_first_scalar(t));
}

/// Checks that `v` is valid UTF-8. On failure, reports the byte offset of
/// the first malformed sequence; every byte before that offset belongs to a
/// complete well-formed scalar encoding.
pub fn validate_utf8(v: &[u8]) -> (r: Result<(), usize>)
    ensures
        match r {
            Ok(_) => valid_utf8(v@),
            Err(i) => !valid_utf8(v@) && i == utf8_prefix_len(v@),
        },
{
    let n = v.len();
    let mut i: usize = 0;
    proof {
        assert(v@.subrange(0, n as int) =~= v@);
    }
    while i < n
        invariant
            n == v@.len(),
            i <= n,
            valid_utf8(v@) <==> valid_utf8(v@.subrange(i as int, n as int)),
            utf8_prefix_len(v@) == i + utf8_prefix_len(v@.subrange(i as int, n as int)),
        decreases n - i,
    {
        match first_scalar_width(v, i) {
            Some(k) => {
                proof {
                    lemma_validate_step(v@, i as int);
                }
                i = i + k;
            },
            None => {
                proof {
                    let t = v@.subrange(i as int, n as int);
                    assert(!valid_utf8(t));
                    assert(utf8_prefix_len(t) == 0);
                }
                return Err(i);
            },
        }
    }
    proof {
        assert(v@.subrange(i as int, n as int).len() == 0);
        assert(valid_utf8(v@.subrange(i as int, n as int)));
    }
    Ok(())
}

/// Relies on `std::str::from_utf8`: on valid UTF-8 input it returns the
/// borrowed string over exactly the input bytes.
#[verifier::external_body]
pub(crate) fn str_from_utf8(v: &[u8]) -> (r: &str)
    requires
        valid_utf8(v@),
    ensures
        r.spec_bytes() == v@,
{
    std::str::from_utf8(v).unwrap()
}

/// Relies on `String::from_utf8`: on valid UTF-8 input it returns the owned
/// string over exactly the input bytes.
#[verifier::external_body]
pub(crate) fn string_from_utf8(v: Vec<u8>) -> (r: String)
    requires
        valid_utf8(v@),
    ensures
        r@ == decode_utf8(v@),
{
    String::from_utf8(v).unwrap()
}

/// Relies on `str::into_boxed_bytes`: returns exactly the string's UTF-8
/// bytes.
#[verifier::external_body]
pub(crate) fn str_into_boxed_bytes(s: Box<str>) -> (r: Box<[u8]>)
    ensures
        r@ == encode_utf8(s@),
{
    s.into_boxed_bytes()
}

/// Relies on `String::into_bytes`: returns exactly the string's UTF-8 bytes.
#[verifier::external_body]
pub(crate) fn string_into_vec(s: String) -> (r: Vec<u8>)
    ensures
        r@ == encode_utf8(s@),
{
    s.into_bytes()
}

} // verus!
