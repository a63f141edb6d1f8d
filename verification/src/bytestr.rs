//! A cheaply cloneable and sliceable str.
//!
//! An immutable string with storage backed by a shared, reference-counted
//! byte buffer. The bytes visible through a handle's view are valid UTF-8
//! after every operation, including the trusted unchecked construction path.

use bytes::Bytes;
use bytes::BytesMut;
use std::borrow::Cow;
use vstd::prelude::*;
use vstd::string::StringSliceAdditionalSpecFns;
use vstd::utf8::{decode_utf8, encode_utf8, valid_utf8};

use crate::buffer::{
    bytes_as_slice, bytes_clear, bytes_clone, bytes_contents, bytes_copy_from_slice,
    bytes_from_boxed_slice, bytes_from_static, bytes_from_vec, bytes_into_mut, bytes_into_vec,
    bytes_is_static, bytes_is_unique, bytes_mut_contents, bytes_mut_into_vec, bytes_new,
    bytes_slice_ref, bytes_try_into_mut,
};
use crate::validation::{
    str_from_utf8, str_into_boxed_bytes, string_from_utf8, string_into_vec, utf8_prefix_len,
    validate_utf8,
};

verus! {

broadcast use {
    vstd::seq::group_seq_axioms,
    vstd::utf8::encode_utf8_decode_utf8,
    vstd::utf8::encode_utf8_valid_utf8,
};

/// Error returned when validated construction finds malformed UTF-8.
#[derive(Clone, Copy, PartialEq, Eq, Structural, Debug)]
pub struct Utf8Error {
    /// Byte offset of the first malformed sequence: every byte before it
    /// belongs to a complete well-formed scalar encoding.
    pub valid_up_to: usize,
}

/// A cheaply cloneable and sliceable str.
///
/// An immutable string with storage backed by a shared `Bytes` buffer:
/// cloning and slicing share the allocation and never copy bytes.
pub struct ByteStr {
    bytes: Bytes,
}

impl View for ByteStr {
    type V = Seq<u8>;

    closed spec fn view(&self) -> Seq<u8> {
        bytes_contents(self.bytes)
    }
}

impl ByteStr {
    /// The invariant of the type: the bytes visible through the handle's
    /// view are valid UTF-8. Every constructor establishes it and every
    /// operation preserves it.
    pub open spec fn wf(&self) -> bool {
        valid_utf8(self@)
    }

    /// True of a handle backed by process-lifetime static data; such a
    /// handle is never exclusively owned.
    pub closed spec fn is_static(&self) -> bool {
        bytes_is_static(self.bytes)
    }

    /// Creates a new empty `ByteStr` without allocating.
    pub fn new() -> (r: ByteStr)
        ensures
            r@ == Seq::<u8>::empty(),
            r.wf(),
            r.is_static(),
    {
        ByteStr { bytes: bytes_new() }
    }

    /// Converts a `Bytes` buffer into a `ByteStr`, validating UTF-8 but not
    /// copying. Succeeds exactly on valid UTF-8 contents; on failure reports
    /// the byte offset of the first malformed sequence.
    pub fn from_utf8(bytes: Bytes) -> (r: Result<ByteStr, Utf8Error>)
        ensures
            match r {
                Ok(s) => valid_utf8(bytes_contents(bytes)) && s@ == bytes_contents(bytes)
                    && s.wf(),
                Err(e) => !valid_utf8(bytes_contents(bytes)) && e.valid_up_to == utf8_prefix_len(
                    bytes_contents(bytes),
                ),
            },
    {
        let checked = validate_utf8(bytes_as_slice(&bytes));
        match checked {
            Ok(_) => Ok(ByteStr { bytes }),
            Err(off) => Err(Utf8Error { valid_up_to: off }),
        }
    }

    /// Trusted construction: wraps the buffer without validating. The caller
    /// must establish that the contents are valid UTF-8; this is a distinct,
    /// clearly marked entry point, never reached by a default-looking path.
    pub fn from_utf8_unchecked(bytes: Bytes) -> (r: ByteStr)
        requires
            valid_utf8(bytes_contents(bytes)),
        ensures
            r@ == bytes_contents(bytes),
            r.wf(),
    {
        ByteStr { bytes }
    }

    /// Creates a `ByteStr` sharing `bytes`'s allocation, restricted to the
    /// given sub-slice of it, in O(1) and without copying.
    ///
    /// `subset` must in fact lie within `bytes`'s own memory range;
    /// otherwise the call fails fast (panics), since a mismatched view could
    /// not be detected afterwards.
    pub fn from_slice_of(subset: &str, bytes: &Bytes) -> (r: ByteStr)
        ensures
            r@ == subset.spec_bytes(),
            r.wf(),
    {
        ByteStr { bytes: bytes_slice_ref(bytes, subset.as_bytes()) }
    }

    /// Creates a `ByteStr` from a string slice, by copying it into fresh
    /// storage that no other handle aliases.
    pub fn copy_from_str(string: &str) -> (r: ByteStr)
        ensures
            r@ == string.spec_bytes(),
            r.wf(),
    {
        ByteStr { bytes: bytes_copy_from_slice(string.as_bytes()) }
    }

    /// Creates a `ByteStr` pointing directly at a static string; never
    /// allocates or copies, and is always treated as shared.
    pub fn from_static(string: &'static str) -> (r: ByteStr)
        ensures
            r@ == string.spec_bytes(),
            r.wf(),
            r.is_static(),
    {
        ByteStr { bytes: bytes_from_static(string.as_bytes()) }
    }

    /// Creates a `ByteStr` from an owned string, taking over its storage.
    pub fn from_string(string: String) -> (r: ByteStr)
        ensures
            r@ == encode_utf8(string@),
            r.wf(),
    {
        ByteStr { bytes: bytes_from_vec(string_into_vec(string)) }
    }

    /// Creates a `ByteStr` from a boxed string, taking over its storage.
    pub fn from_boxed_str(string: Box<str>) -> (r: ByteStr)
        ensures
            r@ == encode_utf8(string@),
            r.wf(),
    {
        ByteStr { bytes: bytes_from_boxed_slice(str_into_boxed_bytes(string)) }
    }

    /// Creates a `ByteStr` from a copy-on-write string: a borrowed variant
    /// points at the static data, an owned variant takes over the storage.
    pub fn from_cow(string: Cow<'static, str>) -> (r: ByteStr)
        ensures
            r@ == encode_utf8(string@),
            r.wf(),
    {
        match string {
            Cow::Borrowed(s) => ByteStr::from_static(s),
            Cow::Owned(s) => ByteStr::from_string(s),
        }
    }

    /// Tries to edit the text in place. The whole backing allocation is
    /// atomically checked and claimed: when `self` is its sole holder, `f`
    /// receives the bytes and its result (which must preserve byte length
    /// and UTF-8 validity) becomes the new contents, and the call returns
    /// true. When any other handle shares the allocation — always the case
    /// for static-backed handles — `self` is left unchanged and the call
    /// returns false.
    pub fn try_mut<F: FnOnce(Vec<u8>) -> Vec<u8>>(&mut self, f: F) -> (r: bool)
        requires
            old(self).wf(),
            forall|v: Vec<u8>| v@ == old(self)@ ==> #[trigger] call_requires(f, (v,)),
            forall|v: Vec<u8>, w: Vec<u8>| #[trigger] call_ensures(f, (v,), w) ==> w@.len()
                == v@.len() && (valid_utf8(v@) ==> valid_utf8(w@)),
        ensures
            final(self).wf(),
            !r ==> *final(self) == *old(self),
            r ==> exists|v: Vec<u8>, w: Vec<u8>| v@ == old(self)@ && #[trigger] call_ensures(
                f,
                (v,),
                w,
            ) && final(self)@ == w@,
            r ==> final(self)@.len() == old(self)@.len(),
            old(self).is_static() ==> r == false,
    {
        let mut taken = bytes_new();
        core::mem::swap(&mut self.bytes, &mut taken);
        match bytes_try_into_mut(taken) {
            Ok(claimed) => {
                let owned = bytes_mut_into_vec(claimed);
                let edited = f(owned);
                self.bytes = bytes_from_vec(edited);
                true
            },
            Err(original) => {
                self.bytes = original;
                false
            },
        }
    }

    /// Clears the string, resetting this handle's own view to length zero.
    /// No exclusivity over the allocation is needed, and other handles'
    /// views are unaffected.
    pub fn clear(&mut self)
        ensures
            final(self)@ == Seq::<u8>::empty(),
            final(self).wf(),
    {
        bytes_clear(&mut self.bytes)
    }

    /// Returns true if this is the only handle referencing its allocation,
    /// at the instant of the call. Always false for static-backed handles,
    /// which must never be mutated.
    pub fn is_unique(&self) -> (r: bool)
        ensures
            self.is_static() ==> r == false,
    {
        bytes_is_unique(&self.bytes)
    }

    /// Extracts a string slice containing the entire `ByteStr`, in O(1),
    /// borrowed from `self`'s storage.
    pub fn as_str(&self) -> (r: &str)
        requires
            self.wf(),
        ensures
            r.spec_bytes() == self@,
            r@ == decode_utf8(self@),
    {
        str_from_utf8(bytes_as_slice(&self.bytes))
    }

    /// The raw bytes of the text, in O(1), borrowed from `self`'s storage.
    pub fn as_bytes(&self) -> (r: &[u8])
        ensures
            r@ == self@,
    {
        bytes_as_slice(&self.bytes)
    }

    /// Returns a `ByteStr` over the given sub-slice of `self`'s own storage,
    /// sharing the allocation, in O(1) and without copying.
    ///
    /// `subset` must in fact lie within `self`'s own memory range; otherwise
    /// the call fails fast (panics), since a mismatched view could not be
    /// detected afterwards.
    pub fn slice_ref(&self, subset: &str) -> (r: ByteStr)
        ensures
            r@ == subset.spec_bytes(),
            r.wf(),
    {
        ByteStr { bytes: bytes_slice_ref(&self.bytes, subset.as_bytes()) }
    }

    /// Converts the `ByteStr` into an owned `String`; reuses the existing
    /// storage when it is uniquely owned and reusable, and copies otherwise.
    pub fn into_string(self) -> (r: String)
        requires
            self.wf(),
        ensures
            r@ == decode_utf8(self@),
    {
        let ByteStr { bytes } = self;
        string_from_utf8(bytes_into_vec(bytes))
    }

    /// Converts the `ByteStr` into the underlying shared buffer handle,
    /// giving up the UTF-8 guarantee.
    pub fn into_bytes(self) -> (r: Bytes)
        ensures
            bytes_contents(r) == self@,
            bytes_is_static(r) == self.is_static(),
    {
        let ByteStr { bytes } = self;
        bytes
    }

    /// Converts the `ByteStr` into a mutable buffer with the same contents
    /// (moved when uniquely owned, copied otherwise), giving up the UTF-8
    /// guarantee.
    pub fn into_bytes_mut(self) -> (r: BytesMut)
        ensures
            bytes_mut_contents(r) == self@,
    {
        let ByteStr { bytes } = self;
        bytes_into_mut(bytes)
    }
}

impl Clone for ByteStr {
    /// Returns a handle over the same contents, sharing the allocation:
    /// only a reference count is incremented, no bytes are copied.
    fn clone(&self) -> (r: Self)
        ensures
            r@ == self@,
            r.is_static() == self.is_static(),
    {
        ByteStr { bytes: bytes_clone(&self.bytes) }
    }
}

impl Default for ByteStr {
    /// The empty `ByteStr`.
    fn default() -> (r: Self)
        ensures
            r@ == Seq::<u8>::empty(),
            r.wf(),
    {
        ByteStr::new()
    }
}

/// Byte-for-byte comparison of two slices.
fn slice_eq(a: &[u8], b: &[u8]) -> (r: bool)
    ensures
        r == (a@ == b@),
{
    if a.len() != b.len() {
        return false;
    }
    let n = a.len();
    let mut i: usize = 0;
    while i < n
        invariant
            n == a@.len(),
            a@.len() == b@.len(),
            i <= n,
            forall|j: int| 0 <= j < i ==> a@[j] == b@[j],
        decreases n - i,
    {
        if a[i] != b[i] {
            return false;
        }
        i = i + 1;
    }
    proof {
        assert(a@ =~= b@);
    }
    true
}

impl PartialEq for ByteStr {
    /// Equality over decoded text content, never allocation identity: two
    /// handles backed by different allocations but identical content
    /// compare equal.
    fn eq(&self, other: &Self) -> (r: bool) {
        slice_eq(self.as_bytes(), other.as_bytes())
    }
}

impl vstd::std_specs::cmp::PartialEqSpecImpl for ByteStr {
    open spec fn obeys_eq_spec() -> bool {
        true
    }

    open spec fn eq_spec(&self, other: &ByteStr) -> bool {
        self@ == other@
    }
}

/// Equality of the visible bytes is exactly equality of the decoded text:
/// two well-formed handles compare equal iff they denote the same character
/// sequence, regardless of which allocation backs them.
pub proof fn lemma_eq_is_text_eq(a: &ByteStr, b: &ByteStr)
    requires
        a.wf(),
        b.wf(),
    ensures
        (a@ == b@) <==> (decode_utf8(a@) == decode_utf8(b@)),
{
    if decode_utf8(a@) == decode_utf8(b@) {
        vstd::utf8::decode_utf8_encode_utf8(a@);
        vstd::utf8::decode_utf8_encode_utf8(b@);
    }
}

} // verus!
