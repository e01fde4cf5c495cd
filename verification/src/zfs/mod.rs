//! Datasets: their names, the requests that create them, their properties,
//! the errors of `zfs(8)` and `libzfs_core`, and the command lines and
//! property lists behind each operation.
use vstd::prelude::*;

pub mod description;
pub mod errors;
pub mod lzc;
pub mod open3;
pub mod pathext;
pub mod properties;
pub mod request;
pub mod string_map;

pub use self::description::{Dataset, DatasetKind};
pub use self::errors::{Error, ErrorKind, ValidationError};
pub use self::pathext::PathExt;

verus! {

/// The longest name a dataset component may have, in bytes.
pub const DATASET_NAME_MAX_LENGTH: usize = 255;

/// Whether to mark busy snapshots for deferred destruction rather than immediately failing if can't
/// be destroyed right now.
#[derive(Clone, Copy, PartialEq, Eq, Debug, Structural)]
pub enum DestroyTiming {
    /// If a snapshot has user holds or clones, destroy operation will fail and none of the
    /// snapshots will be destroyed.
    RightNow,
    /// If a snapshot has user holds or clones, it will be marked for deferred destruction, and
    /// will be destroyed when the last hold or clone is removed/destroyed.
    Defer,
}

impl DestroyTiming {
    /// The `defer` argument of `lzc_destroy_snaps`: 1 to defer, 0 not to.
    pub fn as_c_uint(&self) -> (r: u32)
        ensures
            r == (if *self == DestroyTiming::Defer { 1u32 } else { 0u32 }),
    {
        match self {
            DestroyTiming::Defer => 1,
            DestroyTiming::RightNow => 0,
        }
    }
}

/// A bookmark to create from a snapshot.
pub struct BookmarkRequest {
    pub snapshot: String,
    pub bookmark: String,
}

impl BookmarkRequest {
    pub fn new(snapshot: String, bookmark: String) -> (r: BookmarkRequest)
        ensures
            r.snapshot@ == snapshot@,
            r.bookmark@ == bookmark@,
    {
        BookmarkRequest { snapshot, bookmark }
    }
}

/// Embed data blocks in the stream.
pub const LZC_SEND_FLAG_EMBED_DATA: u32 = 1;
/// Send blocks larger than 128 KiB as such.
pub const LZC_SEND_FLAG_LARGE_BLOCK: u32 = 2;
/// Send compressed blocks as they are stored.
pub const LZC_SEND_FLAG_COMPRESS: u32 = 4;
/// Send encrypted blocks as they are stored.
pub const LZC_SEND_FLAG_RAW: u32 = 8;
/// Send a saved, partially received stream.
pub const LZC_SEND_FLAG_SAVED: u32 = 16;

/// Flags of `lzc_send`, each one of the bits above.
#[derive(Clone, Copy, PartialEq, Eq, Debug, Structural)]
pub struct SendFlags {
    bits: u32,
}

/// Every flag `lzc_send` knows of.
pub open spec fn all_send_bits() -> u32 {
    0x1f
}

impl SendFlags {
    /// Only bits of known flags are ever set.
    #[verifier::type_invariant]
    closed spec fn known_bits_only(self) -> bool {
        self.bits & !all_send_bits() == 0
    }

    /// The set of flags as a number.
    pub closed spec fn spec_bits(self) -> u32 {
        self.bits
    }

    /// No flag.
    pub fn empty() -> (r: SendFlags)
        ensures
            r.spec_bits() == 0,
    {
        assert(0u32 & !0x1fu32 == 0) by (bit_vector);
        SendFlags { bits: 0 }
    }

    /// Every flag.
    pub fn all() -> (r: SendFlags)
        ensures
            r.spec_bits() == all_send_bits(),
    {
        assert(0x1fu32 & !0x1fu32 == 0) by (bit_vector);
        SendFlags { bits: 0x1f }
    }

    /// The set of flags as a number.
    pub fn bits(&self) -> (r: u32)
        ensures
            r == self.spec_bits(),
            r & !all_send_bits() == 0,
    {
        proof {
            use_type_invariant(self);
        }
        self.bits
    }

    /// The flags of `bits`, or `None` when it holds a bit that is no flag.
    pub fn from_bits(bits: u32) -> (r: Option<SendFlags>)
        ensures
            (bits & !all_send_bits()) == 0 ==> (r matches Some(f) && f.spec_bits() == bits),
            (bits & !all_send_bits()) != 0 ==> r is None,
    {
        if bits & !0x1fu32 == 0 {
            Some(SendFlags { bits })
        } else {
            None
        }
    }

    /// The flags of `bits`, the bits that are no flag dropped.
    pub fn from_bits_truncate(bits: u32) -> (r: SendFlags)
        ensures
            r.spec_bits() == bits & all_send_bits(),
    {
        assert((bits & 0x1f) & !0x1fu32 == 0) by (bit_vector);
        SendFlags { bits: bits & 0x1f }
    }

    /// Whether no flag is set.
    pub fn is_empty(&self) -> (r: bool)
        ensures
            r == (self.spec_bits() == 0),
    {
        self.bits == 0
    }

    /// Whether every flag of `other` is set.
    pub fn contains(&self, other: SendFlags) -> (r: bool)
        ensures
            r == (self.spec_bits() & other.spec_bits() == other.spec_bits()),
    {
        self.bits & other.bits == other.bits
    }

    /// The flags of both.
    pub fn union(&self, other: SendFlags) -> (r: SendFlags)
        ensures
            r.spec_bits() == self.spec_bits() | other.spec_bits(),
    {
        proof {
            use_type_invariant(self);
            use_type_invariant(&other);
        }
        let (a, b) = (self.bits, other.bits);
        assert((a & !0x1fu32 == 0 && b & !0x1fu32 == 0) ==> (a | b) & !0x1fu32 == 0) by (bit_vector);
        SendFlags { bits: a | b }
    }

    /// Sets the flags of `other`.
    pub fn insert(&mut self, other: SendFlags)
        ensures
            final(self).spec_bits() == old(self).spec_bits() | other.spec_bits(),
    {
        proof {
            use_type_invariant(&*self);
            use_type_invariant(&other);
        }
        let (a, b) = (self.bits, other.bits);
        assert((a & !0x1fu32 == 0 && b & !0x1fu32 == 0) ==> (a | b) & !0x1fu32 == 0) by (bit_vector);
        self.bits = a | b;
    }

    /// Clears the flags of `other`.
    pub fn remove(&mut self, other: SendFlags)
        ensures
            final(self).spec_bits() == old(self).spec_bits() & !other.spec_bits(),
    {
        proof {
            use_type_invariant(&*self);
        }
        let (a, b) = (self.bits, other.bits);
        assert(a & !0x1fu32 == 0 ==> (a & !b) & !0x1fu32 == 0) by (bit_vector);
        self.bits = a & !b;
    }
}

impl Default for SendFlags {
    fn default() -> (r: SendFlags)
        ensures
            r.spec_bits() == 0,
    {
        assert(0u32 & !0x1fu32 == 0) by (bit_vector);
        SendFlags { bits: 0 }
    }
}

/// The set laws of flags: the union holds the flags of both sides, in
/// either order; after a removal none of the removed flags is left; and
/// dropping unknown bits keeps a set of flags as it is.
pub proof fn lemma_send_flags_set_laws(a: u32, b: u32)
    requires
        a & !all_send_bits() == 0,
    ensures
        (a | b) & a == a,
        (a | b) & b == b,
        a | b == b | a,
        (a & !b) & b == 0,
        a & all_send_bits() == a,
{
    assert((a | b) & a == a) by (bit_vector);
    assert((a | b) & b == b) by (bit_vector);
    assert(a | b == b | a) by (bit_vector);
    assert((a & !b) & b == 0) by (bit_vector);
    assert(a & !0x1fu32 == 0 ==> a & 0x1fu32 == a) by (bit_vector);
}

} // verus!
