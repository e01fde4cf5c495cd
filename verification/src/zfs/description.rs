//! Kinds of datasets.
use vstd::prelude::*;

use crate::text::{all_eq_str, chars_of};

verus! {

/// The kind of a dataset.
#[derive(Debug, Clone, Copy, PartialEq, Eq, Structural)]
pub enum DatasetKind {
    Filesystem,
    Volume,
    Snapshot,
}

impl DatasetKind {
    /// The name `zfs(8)` gives the kind.
    pub open spec fn spec_name(self) -> Seq<char> {
        match self {
            DatasetKind::Filesystem => "filesystem"@,
            DatasetKind::Volume => "volume"@,
            DatasetKind::Snapshot => "snapshot"@,
        }
    }

    /// The kind that `zfs(8)` names `s`.
    pub open spec fn spec_from_name(s: Seq<char>) -> Option<DatasetKind> {
        if s == "filesystem"@ {
            Some(DatasetKind::Filesystem)
        } else if s == "volume"@ {
            Some(DatasetKind::Volume)
        } else if s == "snapshot"@ {
            Some(DatasetKind::Snapshot)
        } else {
            None
        }
    }

    /// The name `zfs(8)` gives the kind.
    pub fn as_str(&self) -> (r: &'static str)
        ensures
            r@ == self.spec_name(),
    {
        match self {
            DatasetKind::Filesystem => "filesystem",
            DatasetKind::Volume => "volume",
            DatasetKind::Snapshot => "snapshot",
        }
    }

    /// The kind named by the characters `s`.
    pub fn from_chars(s: &[char]) -> (r: Option<DatasetKind>)
        ensures
            r == DatasetKind::spec_from_name(s@),
    {
        if all_eq_str(s, "filesystem") {
            Some(DatasetKind::Filesystem)
        } else if all_eq_str(s, "volume") {
            Some(DatasetKind::Volume)
        } else if all_eq_str(s, "snapshot") {
            Some(DatasetKind::Snapshot)
        } else {
            None
        }
    }

    /// The kind named `s`.
    pub fn from_name(s: &str) -> (r: Option<DatasetKind>)
        ensures
            r == DatasetKind::spec_from_name(s@),
    {
        let v = chars_of(s);
        DatasetKind::from_chars(v.as_slice())
    }

    /// The type `libzfs_core` takes in a property list: `zfs` for a
    /// filesystem, `zvol` for a volume. Snapshots are not created this way.
    pub fn as_nvpair_value(&self) -> (r: &'static str)
        requires
            *self != DatasetKind::Snapshot,
        ensures
            r@ == (if *self == DatasetKind::Filesystem {
                "zfs"@
            } else {
                "zvol"@
            }),
    {
        match self {
            DatasetKind::Filesystem => "zfs",
            _ => "zvol",
        }
    }
}

impl Default for DatasetKind {
    fn default() -> (r: DatasetKind)
        ensures
            r == DatasetKind::Filesystem,
    {
        DatasetKind::Filesystem
    }
}

/// Reading the name of a kind gives the kind back.
pub proof fn lemma_dataset_kind_name_round_trip(k: DatasetKind)
    ensures
        DatasetKind::spec_from_name(k.spec_name()) == Some(k),
{
    reveal_strlit("filesystem");
    reveal_strlit("volume");
    reveal_strlit("snapshot");
    match k {
        DatasetKind::Filesystem => {},
        DatasetKind::Volume => {
            assert("volume"@.len() != "filesystem"@.len());
        },
        DatasetKind::Snapshot => {
            assert("snapshot"@.len() != "filesystem"@.len());
            assert("snapshot"@.len() != "volume"@.len());
        },
    }
}

/// A dataset: its kind and its name.
pub struct Dataset {
    kind: DatasetKind,
    name: String,
}

} // verus!
