//! The kinds of values and the creation options of name/value lists, and
//! the numbers `libnv` gives them.
use vstd::prelude::*;

verus! {

/// Enumeration of available data types that the API supports.
#[derive(Copy, Clone, Debug, PartialEq, Eq, Structural)]
pub enum NvType {
    /// Empty type (number 0).
    Empty,
    /// There is no associated data with the name
    Null,
    /// The value is a `bool` value
    Bool,
    /// The value is a `u64` value
    Number,
    /// The value is a C string
    String,
    /// The value is another `nvlist`
    NvList,
    /// The value is a file descriptor
    Descriptor,
    /// The value is a binary buffer
    Binary,
    /// The value is an array of `bool` values
    BoolArray,
    /// The value is an array of `u64` values
    NumberArray,
    /// The value is an array of C strings
    StringArray,
    /// The value is an array of other `nvlist`'s
    NvListArray,
    /// The value is an array of file descriptors
    DescriptorArray,
}

impl NvType {
    /// The number `libnv` gives the type.
    pub open spec fn spec_number(self) -> i32 {
        match self {
            NvType::Empty => 0,
            NvType::Null => 1,
            NvType::Bool => 2,
            NvType::Number => 3,
            NvType::String => 4,
            NvType::NvList => 5,
            NvType::Descriptor => 6,
            NvType::Binary => 7,
            NvType::BoolArray => 8,
            NvType::NumberArray => 9,
            NvType::StringArray => 10,
            NvType::NvListArray => 11,
            NvType::DescriptorArray => 12,
        }
    }

    /// The number `libnv` gives the type.
    pub fn number(&self) -> (r: i32)
        ensures
            r == self.spec_number(),
    {
        match self {
            NvType::Empty => 0,
            NvType::Null => 1,
            NvType::Bool => 2,
            NvType::Number => 3,
            NvType::String => 4,
            NvType::NvList => 5,
            NvType::Descriptor => 6,
            NvType::Binary => 7,
            NvType::BoolArray => 8,
            NvType::NumberArray => 9,
            NvType::StringArray => 10,
            NvType::NvListArray => 11,
            NvType::DescriptorArray => 12,
        }
    }
}

/// Options available for creation of an `nvlist`
#[derive(Copy, Clone, Debug, PartialEq, Eq, Structural)]
pub enum NvFlag {
    /// No user specified options (number 0).
    NoOptions,
    /// Perform case-insensitive lookups of provided names.
    IgnoreCase,
    /// Names in the nvlist do not have to be unique.
    NoUnique,
    /// Allow duplicate case-insensitive keys.
    Both,
}

impl NvFlag {
    /// The number `libnv` gives the option.
    pub open spec fn spec_number(self) -> i32 {
        match self {
            NvFlag::NoOptions => 0,
            NvFlag::IgnoreCase => 1,
            NvFlag::NoUnique => 2,
            NvFlag::Both => 3,
        }
    }

    /// The number `libnv` gives the option.
    pub fn number(&self) -> (r: i32)
        ensures
            r == self.spec_number(),
    {
        match self {
            NvFlag::NoOptions => 0,
            NvFlag::IgnoreCase => 1,
            NvFlag::NoUnique => 2,
            NvFlag::Both => 3,
        }
    }

    /// The option of the number `source`, which must be one of the four.
    pub fn from(source: i32) -> (r: NvFlag)
        requires
            0 <= source <= 3,
        ensures
            r.spec_number() == source,
    {
        match source {
            0 => NvFlag::NoOptions,
            1 => NvFlag::IgnoreCase,
            2 => NvFlag::NoUnique,
            _ => NvFlag::Both,
        }
    }
}

/// Each option is given back by its number, and no two options share one.
pub proof fn lemma_nv_flag_number_round_trip(f: NvFlag, g: NvFlag)
    ensures
        0 <= f.spec_number() <= 3,
        f.spec_number() == g.spec_number() ==> f == g,
{
}

} // verus!
