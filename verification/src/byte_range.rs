//! The byte-range wrapper kind: a one-byte value class constrained to a
//! declared set of legal byte values.
//!
//! Each grammar position of an escape sequence (CSI parameter byte,
//! intermediate byte, final byte, string body byte, printable byte, format
//! effector) is its own nominal type implementing [`RangedByte`], so a byte
//! legal in one grammar slot can never be placed in another. Legality is
//! enforced at construction time; serialization never re-scans.

use vstd::prelude::*;

verus! {

/// A one-byte value constrained to this kind's legal byte range(s).
///
/// Implementing types hold exactly one private byte and maintain, as a type
/// invariant, that the byte satisfies [`RangedByte::spec_valid`].
pub trait RangedByte: Sized + Copy {
    /// Which bytes are legal for this kind.
    spec fn spec_valid(byte: u8) -> bool;

    /// The wrapped byte.
    spec fn spec_byte(self) -> u8;

    /// Wrap `byte`, checking that it is legal for this kind.
    ///
    /// Succeeds if and only if `byte` satisfies this kind's range predicate.
    fn new(byte: u8) -> (r: Option<Self>)
        ensures
            r is Some <==> Self::spec_valid(byte),
            r matches Some(v) ==> v.spec_byte() == byte,
    ;

    /// Wrap `byte` without a runtime check; the caller proves legality.
    fn new_unchecked(byte: u8) -> (r: Self)
        requires
            Self::spec_valid(byte),
        ensures
            r.spec_byte() == byte,
    ;

    /// Whether `byte` is legal for this kind, without constructing a value.
    fn is_byte_valid(byte: u8) -> (r: bool)
        ensures
            r == Self::spec_valid(byte),
    ;

    /// The byte represented by this wrapper. It is always legal for this
    /// kind, since every constructor establishes legality.
    fn byte(&self) -> (r: u8)
        ensures
            r == self.spec_byte(),
            Self::spec_valid(r),
    ;
}

/// A byte-range kind whose every legal byte is also a valid single-byte UTF-8
/// codepoint, so a value projects to text infallibly.
pub trait Utf8Byte: RangedByte {
    /// Every legal byte for this kind is an ASCII byte, hence a valid
    /// single-byte UTF-8 scalar value.
    proof fn lemma_valid_is_ascii(byte: u8)
        requires
            Self::spec_valid(byte),
        ensures
            byte < 0x80,
    ;

    /// The wrapped byte as a character.
    fn as_char(&self) -> (c: char)
        ensures
            c == self.spec_byte() as char,
            c as u8 == self.spec_byte(),
    ;
}

/// The bytes wrapped by each element of `s`, in order.
pub open spec fn spec_bytes_of<K: RangedByte>(s: Seq<K>) -> Seq<u8> {
    s.map_values(|k: K| k.spec_byte())
}

/// Convert a slice of wrappers to the bytes they wrap, in order.
///
/// Every returned byte is legal for `K`, since each element was validated at
/// construction.
pub fn slice_as_bytes<K: RangedByte>(slice: &[K]) -> (r: Vec<u8>)
    ensures
        r@ == spec_bytes_of(slice@),
        forall|i: int| 0 <= i < r@.len() ==> K::spec_valid(r@[i]),
{
    let mut out: Vec<u8> = Vec::new();
    let mut i: usize = 0;
    while i < slice.len()
        invariant
            i <= slice@.len(),
            out@ == spec_bytes_of(slice@.take(i as int)),
            forall|j: int| 0 <= j < out@.len() ==> K::spec_valid(out@[j]),
        decreases slice@.len() - i,
    {
        let b = slice[i].byte();
        out.push(b);
        proof {
            assert(slice@.take(i + 1) =~= slice@.take(i as int).push(slice@[i as int]));
            assert(spec_bytes_of(slice@.take(i + 1))
                =~= spec_bytes_of(slice@.take(i as int)).push(b));
        }
        i += 1;
    }
    proof {
        assert(slice@.take(slice@.len() as int) =~= slice@);
    }
    out
}

/// Validate every byte of `bytes` and wrap each one.
///
/// Returns the wrapped bytes in order if all are legal for `K`; otherwise
/// returns the zero-based index of the first illegal byte.
pub fn slice_from_bytes<K: RangedByte>(bytes: &[u8]) -> (r: Result<Vec<K>, usize>)
    ensures
        match r {
            Ok(v) => {
                &&& spec_bytes_of(v@) == bytes@
                &&& forall|i: int| 0 <= i < bytes@.len() ==> K::spec_valid(bytes@[i])
            },
            Err(idx) => {
                &&& 0 <= idx < bytes@.len()
                &&& !K::spec_valid(bytes@[idx as int])
                &&& forall|j: int| 0 <= j < idx ==> K::spec_valid(bytes@[j])
            },
        },
{
    let mut out: Vec<K> = Vec::new();
    let mut i: usize = 0;
    while i < bytes.len()
        invariant
            i <= bytes@.len(),
            spec_bytes_of(out@) == bytes@.take(i as int),
            forall|j: int| 0 <= j < i ==> K::spec_valid(bytes@[j]),
        decreases bytes@.len() - i,
    {
        let ghost prev = out@;
        match K::new(bytes[i]) {
            Some(v) => {
                out.push(v);
                proof {
                    assert(bytes@.take(i + 1) =~= bytes@.take(i as int).push(bytes@[i as int]));
                    assert(spec_bytes_of(prev.push(v)) =~= spec_bytes_of(prev).push(v.spec_byte()));
                }
            },
            None => {
                return Err(i);
            },
        }
        i += 1;
    }
    proof {
        assert(bytes@.take(bytes@.len() as int) =~= bytes@);
    }
    Ok(out)
}

/// Round trip: a byte sequence accepted by [`slice_from_bytes`], projected
/// back to bytes by [`slice_as_bytes`], is returned unchanged.
///
/// `vals` stands for the wrappers that `slice_from_bytes` produced from
/// `bytes` (its postcondition on the success case), and `back` for what
/// [`slice_as_bytes`] returns on `vals` (its postcondition).
pub proof fn lemma_slice_round_trip<K: RangedByte>(bytes: Seq<u8>, vals: Seq<K>, back: Seq<u8>)
    requires
        spec_bytes_of(vals) == bytes,
        back == spec_bytes_of(vals),
    ensures
        back == bytes,
{
}

} // verus!
