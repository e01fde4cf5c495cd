//! The request that creates a dataset.
use vstd::prelude::*;

use super::description::DatasetKind;
use super::errors::{Error, ValidationError};
use super::pathext::{spec_validate_name, validate_name};
use super::properties::{
    AclInheritMode, AclMode, CacheMode, CanMount, Checksum, Compression, Copies, SnapDir,
};
use super::string_map::StringMap;
use crate::zpool::properties::{copy_opt_string, opt_view};

verus! {

/// The entries of an optional map.
pub open spec fn map_entries(m: Option<StringMap>) -> Option<Seq<(Seq<char>, Seq<char>)>> {
    match m {
        Some(x) => Some(x.entries()),
        None => None,
    }
}

/// Consumer friendly request for a new dataset. Some properties only work on filesystems, some
/// only on volumes.
#[derive(Debug, Clone)]
pub struct CreateDatasetRequest {
    /// Name of the dataset. First crumb of path is name of zpool.
    pub name: String,
    /// Filesystem or Volume.
    pub kind: DatasetKind,
    /// Optional user defined properties. Their names contain a colon (':'), lowercase
    /// letters, numbers and the punctuation characters ':', '+', '.', '_', and are at most 256
    /// characters long.
    pub user_properties: Option<StringMap>,
    /// Controls how ACL entries inherited when files and directories created.
    pub acl_inherit: Option<AclInheritMode>,
    /// Controls how an ACL entry modified during a `chmod` operation.
    pub acl_mode: Option<AclMode>,
    /// Controls whether the access time for files updated when they are read.
    pub atime: Option<bool>,
    /// Controls whether a file system can be mounted.
    pub can_mount: CanMount,
    /// Controls the checksum used to verify data integrity.
    pub checksum: Option<Checksum>,
    /// Enables or disables compression for a dataset.
    pub compression: Option<Compression>,
    /// Sets the number of copies of user data per file system: 1, 2, or 3.
    pub copies: Option<Copies>,
    /// Controls whether device files in a file system can be opened.
    pub devices: Option<bool>,
    /// Controls whether programs in a file system allowed to be executed (`exec`).
    pub executable: Option<bool>,
    /// Controls the mount point used for this file system.
    pub mount_point: Option<String>,
    /// Controls what is cached in the primary cache (ARC).
    pub primary_cache: Option<CacheMode>,
    /// Limits the amount of disk space a dataset and its descendants can consume.
    pub quota: Option<u64>,
    /// Controls whether a dataset can be modified.
    pub readonly: Option<bool>,
    /// Specifies a suggested block size for files in a file system in bytes.
    pub record_size: Option<u64>,
    /// Sets the amount of disk space a dataset can consume, descendents not included.
    pub ref_quota: Option<u64>,
    /// Sets the minimum amount of disk space guaranteed to a dataset, descendants not included.
    pub ref_reservation: Option<u64>,
    /// Sets the minimum amount of disk space guaranteed to a dataset and its descendants.
    pub reservation: Option<u64>,
    /// Controls what is cached in the secondary cache (L2ARC).
    pub secondary_cache: Option<CacheMode>,
    /// Controls whether the `setuid` bit is honored in a file system.
    pub setuid: Option<bool>,
    /// Controls whether the .zfs directory is hidden or visible in the root of the file system
    pub snap_dir: Option<SnapDir>,
    /// For volumes, specifies the logical size of the volume.
    pub volume_size: Option<u64>,
    /// For volumes, specifies the block size of the volume in bytes.
    pub volume_block_size: Option<u64>,
    /// Indicates whether extended attributes are enabled or disabled.
    pub xattr: Option<bool>,
}

/// Builder of `CreateDatasetRequest`: the name and the kind must be given.
#[derive(Debug, Clone)]
pub struct CreateDatasetRequestBuilder {
    pub name: Option<String>,
    pub kind: Option<DatasetKind>,
    pub user_properties: Option<Option<StringMap>>,
    pub acl_inherit: Option<Option<AclInheritMode>>,
    pub acl_mode: Option<Option<AclMode>>,
    pub atime: Option<Option<bool>>,
    pub can_mount: Option<CanMount>,
    pub checksum: Option<Option<Checksum>>,
    pub compression: Option<Option<Compression>>,
    pub copies: Option<Option<Copies>>,
    pub devices: Option<Option<bool>>,
    pub executable: Option<Option<bool>>,
    pub mount_point: Option<Option<String>>,
    pub primary_cache: Option<Option<CacheMode>>,
    pub quota: Option<Option<u64>>,
    pub readonly: Option<Option<bool>>,
    pub record_size: Option<Option<u64>>,
    pub ref_quota: Option<Option<u64>>,
    pub ref_reservation: Option<Option<u64>>,
    pub reservation: Option<Option<u64>>,
    pub secondary_cache: Option<Option<CacheMode>>,
    pub setuid: Option<Option<bool>>,
    pub snap_dir: Option<Option<SnapDir>>,
    pub volume_size: Option<Option<u64>>,
    pub volume_block_size: Option<Option<u64>>,
    pub xattr: Option<Option<bool>>,
}

impl CreateDatasetRequestBuilder {
    /// A builder with nothing given.
    pub open spec fn empty() -> CreateDatasetRequestBuilder {
        CreateDatasetRequestBuilder {
            name: None,
            kind: None,
            user_properties: None,
            acl_inherit: None,
            acl_mode: None,
            atime: None,
            can_mount: None,
            checksum: None,
            compression: None,
            copies: None,
            devices: None,
            executable: None,
            mount_point: None,
            primary_cache: None,
            quota: None,
            readonly: None,
            record_size: None,
            ref_quota: None,
            ref_reservation: None,
            reservation: None,
            secondary_cache: None,
            setuid: None,
            snap_dir: None,
            volume_size: None,
            volume_block_size: None,
            xattr: None,
        }
    }
}

impl Default for CreateDatasetRequestBuilder {
    fn default() -> (r: CreateDatasetRequestBuilder)
        ensures
            r == CreateDatasetRequestBuilder::empty(),
    {
        CreateDatasetRequestBuilder {
            name: None,
            kind: None,
            user_properties: None,
            acl_inherit: None,
            acl_mode: None,
            atime: None,
            can_mount: None,
            checksum: None,
            compression: None,
            copies: None,
            devices: None,
            executable: None,
            mount_point: None,
            primary_cache: None,
            quota: None,
            readonly: None,
            record_size: None,
            ref_quota: None,
            ref_reservation: None,
            reservation: None,
            secondary_cache: None,
            setuid: None,
            snap_dir: None,
            volume_size: None,
            volume_block_size: None,
            xattr: None,
        }
    }
}

impl CreateDatasetRequestBuilder {
    pub fn name(&mut self, value: &str) -> (r: &mut CreateDatasetRequestBuilder)
        ensures
            r.name matches Some(x) && x@ == value@,
            *r == (CreateDatasetRequestBuilder { name: r.name, ..*old(self) }),
            *final(self) == *final(r),
    {
        self.name = Some(value.to_owned());
        self
    }

    pub fn kind(&mut self, value: DatasetKind) -> (r: &mut CreateDatasetRequestBuilder)
        ensures
            *r == (CreateDatasetRequestBuilder { kind: Some(value), ..*old(self) }),
            *final(self) == *final(r),
    {
        self.kind = Some(value);
        self
    }

    pub fn user_properties(&mut self, value: StringMap) -> (r: &mut CreateDatasetRequestBuilder)
        ensures
            *r == (CreateDatasetRequestBuilder { user_properties: Some(Some(value)), ..*old(self) }),
            *final(self) == *final(r),
    {
        self.user_properties = Some(Some(value));
        self
    }

    pub fn acl_inherit(&mut self, value: AclInheritMode) -> (r: &mut CreateDatasetRequestBuilder)
        ensures
            *r == (CreateDatasetRequestBuilder { acl_inherit: Some(Some(value)), ..*old(self) }),
            *final(self) == *final(r),
    {
        self.acl_inherit = Some(Some(value));
        self
    }

    pub fn acl_mode(&mut self, value: AclMode) -> (r: &mut CreateDatasetRequestBuilder)
        ensures
            *r == (CreateDatasetRequestBuilder { acl_mode: Some(Some(value)), ..*old(self) }),
            *final(self) == *final(r),
    {
        self.acl_mode = Some(Some(value));
        self
    }

    pub fn atime(&mut self, value: bool) -> (r: &mut CreateDatasetRequestBuilder)
        ensures
            *r == (CreateDatasetRequestBuilder { atime: Some(Some(value)), ..*old(self) }),
            *final(self) == *final(r),
    {
        self.atime = Some(Some(value));
        self
    }

    pub fn can_mount(&mut self, value: CanMount) -> (r: &mut CreateDatasetRequestBuilder)
        ensures
            *r == (CreateDatasetRequestBuilder { can_mount: Some(value), ..*old(self) }),
            *final(self) == *final(r),
    {
        self.can_mount = Some(value);
        self
    }

    pub fn checksum(&mut self, value: Checksum) -> (r: &mut CreateDatasetRequestBuilder)
        ensures
            *r == (CreateDatasetRequestBuilder { checksum: Some(Some(value)), ..*old(self) }),
            *final(self) == *final(r),
    {
        self.checksum = Some(Some(value));
        self
    }

    pub fn compression(&mut self, value: Compression) -> (r: &mut CreateDatasetRequestBuilder)
        ensures
            *r == (CreateDatasetRequestBuilder { compression: Some(Some(value)), ..*old(self) }),
            *final(self) == *final(r),
    {
        self.compression = Some(Some(value));
        self
    }

    pub fn copies(&mut self, value: Copies) -> (r: &mut CreateDatasetRequestBuilder)
        ensures
            *r == (CreateDatasetRequestBuilder { copies: Some(Some(value)), ..*old(self) }),
            *final(self) == *final(r),
    {
        self.copies = Some(Some(value));
        self
    }

    pub fn devices(&mut self, value: bool) -> (r: &mut CreateDatasetRequestBuilder)
        ensures
            *r == (CreateDatasetRequestBuilder { devices: Some(Some(value)), ..*old(self) }),
            *final(self) == *final(r),
    {
        self.devices = Some(Some(value));
        self
    }

    pub fn executable(&mut self, value: bool) -> (r: &mut CreateDatasetRequestBuilder)
        ensures
            *r == (CreateDatasetRequestBuilder { executable: Some(Some(value)), ..*old(self) }),
            *final(self) == *final(r),
    {
        self.executable = Some(Some(value));
        self
    }

    pub fn mount_point(&mut self, value: &str) -> (r: &mut CreateDatasetRequestBuilder)
        ensures
            r.mount_point matches Some(Some(x)) && x@ == value@,
            *r == (CreateDatasetRequestBuilder { mount_point: r.mount_point, ..*old(self) }),
            *final(self) == *final(r),
    {
        self.mount_point = Some(Some(value.to_owned()));
        self
    }

    pub fn primary_cache(&mut self, value: CacheMode) -> (r: &mut CreateDatasetRequestBuilder)
        ensures
            *r == (CreateDatasetRequestBuilder { primary_cache: Some(Some(value)), ..*old(self) }),
            *final(self) == *final(r),
    {
        self.primary_cache = Some(Some(value));
        self
    }

    pub fn quota(&mut self, value: u64) -> (r: &mut CreateDatasetRequestBuilder)
        ensures
            *r == (CreateDatasetRequestBuilder { quota: Some(Some(value)), ..*old(self) }),
            *final(self) == *final(r),
    {
        self.quota = Some(Some(value));
        self
    }

    pub fn readonly(&mut self, value: bool) -> (r: &mut CreateDatasetRequestBuilder)
        ensures
            *r == (CreateDatasetRequestBuilder { readonly: Some(Some(value)), ..*old(self) }),
            *final(self) == *final(r),
    {
        self.readonly = Some(Some(value));
        self
    }

    pub fn record_size(&mut self, value: u64) -> (r: &mut CreateDatasetRequestBuilder)
        ensures
            *r == (CreateDatasetRequestBuilder { record_size: Some(Some(value)), ..*old(self) }),
            *final(self) == *final(r),
    {
        self.record_size = Some(Some(value));
        self
    }

    pub fn ref_quota(&mut self, value: u64) -> (r: &mut CreateDatasetRequestBuilder)
        ensures
            *r == (CreateDatasetRequestBuilder { ref_quota: Some(Some(value)), ..*old(self) }),
            *final(self) == *final(r),
    {
        self.ref_quota = Some(Some(value));
        self
    }

    pub fn ref_reservation(&mut self, value: u64) -> (r: &mut CreateDatasetRequestBuilder)
        ensures
            *r == (CreateDatasetRequestBuilder { ref_reservation: Some(Some(value)), ..*old(self) }),
            *final(self) == *final(r),
    {
        self.ref_reservation = Some(Some(value));
        self
    }

    pub fn reservation(&mut self, value: u64) -> (r: &mut CreateDatasetRequestBuilder)
        ensures
            *r == (CreateDatasetRequestBuilder { reservation: Some(Some(value)), ..*old(self) }),
            *final(self) == *final(r),
    {
        self.reservation = Some(Some(value));
        self
    }

    pub fn secondary_cache(&mut self, value: CacheMode) -> (r: &mut CreateDatasetRequestBuilder)
        ensures
            *r == (CreateDatasetRequestBuilder { secondary_cache: Some(Some(value)), ..*old(self) }),
            *final(self) == *final(r),
    {
        self.secondary_cache = Some(Some(value));
        self
    }

    pub fn setuid(&mut self, value: bool) -> (r: &mut CreateDatasetRequestBuilder)
        ensures
            *r == (CreateDatasetRequestBuilder { setuid: Some(Some(value)), ..*old(self) }),
            *final(self) == *final(r),
    {
        self.setuid = Some(Some(value));
        self
    }

    pub fn snap_dir(&mut self, value: SnapDir) -> (r: &mut CreateDatasetRequestBuilder)
        ensures
            *r == (CreateDatasetRequestBuilder { snap_dir: Some(Some(value)), ..*old(self) }),
            *final(self) == *final(r),
    {
        self.snap_dir = Some(Some(value));
        self
    }

    pub fn volume_size(&mut self, value: u64) -> (r: &mut CreateDatasetRequestBuilder)
        ensures
            *r == (CreateDatasetRequestBuilder { volume_size: Some(Some(value)), ..*old(self) }),
            *final(self) == *final(r),
    {
        self.volume_size = Some(Some(value));
        self
    }

    pub fn volume_block_size(&mut self, value: u64) -> (r: &mut CreateDatasetRequestBuilder)
        ensures
            *r == (CreateDatasetRequestBuilder { volume_block_size: Some(Some(value)), ..*old(self) }),
            *final(self) == *final(r),
    {
        self.volume_block_size = Some(Some(value));
        self
    }

    pub fn xattr(&mut self, value: bool) -> (r: &mut CreateDatasetRequestBuilder)
        ensures
            *r == (CreateDatasetRequestBuilder { xattr: Some(Some(value)), ..*old(self) }),
            *final(self) == *final(r),
    {
        self.xattr = Some(Some(value));
        self
    }

    /// The request; fails when the name or the kind was not given. Every
    /// property not given is unset, `can_mount` is `On`.
    pub fn build(&self) -> (r: Result<CreateDatasetRequest, String>)
        ensures
            r is Ok <==> (self.name is Some && self.kind is Some),
            r matches Ok(q) ==> {
                &&& q.name@ == self.name->0@
                &&& q.kind == self.kind->0
                &&& map_entries(q.user_properties) == match self.user_properties { Some(x) => map_entries(x), None => None }
                &&& q.acl_inherit == match self.acl_inherit { Some(x) => x, None => None }
                &&& q.acl_mode == match self.acl_mode { Some(x) => x, None => None }
                &&& q.atime == match self.atime { Some(x) => x, None => None }
                &&& q.can_mount == match self.can_mount { Some(x) => x, None => CanMount::On }
                &&& q.checksum == match self.checksum { Some(x) => x, None => None }
                &&& q.compression == match self.compression { Some(x) => x, None => None }
                &&& q.copies == match self.copies { Some(x) => x, None => None }
                &&& q.devices == match self.devices { Some(x) => x, None => None }
                &&& q.executable == match self.executable { Some(x) => x, None => None }
                &&& opt_view(q.mount_point) == match self.mount_point { Some(x) => opt_view(x), None => None }
                &&& q.primary_cache == match self.primary_cache { Some(x) => x, None => None }
                &&& q.quota == match self.quota { Some(x) => x, None => None }
                &&& q.readonly == match self.readonly { Some(x) => x, None => None }
                &&& q.record_size == match self.record_size { Some(x) => x, None => None }
                &&& q.ref_quota == match self.ref_quota { Some(x) => x, None => None }
                &&& q.ref_reservation == match self.ref_reservation { Some(x) => x, None => None }
                &&& q.reservation == match self.reservation { Some(x) => x, None => None }
                &&& q.secondary_cache == match self.secondary_cache { Some(x) => x, None => None }
                &&& q.setuid == match self.setuid { Some(x) => x, None => None }
                &&& q.snap_dir == match self.snap_dir { Some(x) => x, None => None }
                &&& q.volume_size == match self.volume_size { Some(x) => x, None => None }
                &&& q.volume_block_size == match self.volume_block_size { Some(x) => x, None => None }
                &&& q.xattr == match self.xattr { Some(x) => x, None => None }
            },
    {
        let name = match &self.name {
            Some(x) => x.clone(),
            None => {
                return Err("`name` must be initialized".to_owned());
            },
        };
        let kind = match self.kind {
            Some(x) => x,
            None => {
                return Err("`kind` must be initialized".to_owned());
            },
        };
        let user_properties = match &self.user_properties {
            Some(Some(m)) => Some(m.clone()),
            _ => None,
        };
        let acl_inherit = match self.acl_inherit {
            Some(x) => x,
            None => None,
        };
        let acl_mode = match self.acl_mode {
            Some(x) => x,
            None => None,
        };
        let atime = match self.atime {
            Some(x) => x,
            None => None,
        };
        let can_mount = match self.can_mount {
            Some(x) => x,
            None => CanMount::On,
        };
        let checksum = match self.checksum {
            Some(x) => x,
            None => None,
        };
        let compression = match self.compression {
            Some(x) => x,
            None => None,
        };
        let copies = match self.copies {
            Some(x) => x,
            None => None,
        };
        let devices = match self.devices {
            Some(x) => x,
            None => None,
        };
        let executable = match self.executable {
            Some(x) => x,
            None => None,
        };
        let mount_point = match &self.mount_point {
            Some(x) => copy_opt_string(x),
            None => None,
        };
        let primary_cache = match self.primary_cache {
            Some(x) => x,
            None => None,
        };
        let quota = match self.quota {
            Some(x) => x,
            None => None,
        };
        let readonly = match self.readonly {
            Some(x) => x,
            None => None,
        };
        let record_size = match self.record_size {
            Some(x) => x,
            None => None,
        };
        let ref_quota = match self.ref_quota {
            Some(x) => x,
            None => None,
        };
        let ref_reservation = match self.ref_reservation {
            Some(x) => x,
            None => None,
        };
        let reservation = match self.reservation {
            Some(x) => x,
            None => None,
        };
        let secondary_cache = match self.secondary_cache {
            Some(x) => x,
            None => None,
        };
        let setuid = match self.setuid {
            Some(x) => x,
            None => None,
        };
        let snap_dir = match self.snap_dir {
            Some(x) => x,
            None => None,
        };
        let volume_size = match self.volume_size {
            Some(x) => x,
            None => None,
        };
        let volume_block_size = match self.volume_block_size {
            Some(x) => x,
            None => None,
        };
        let xattr = match self.xattr {
            Some(x) => x,
            None => None,
        };
        Ok(
            CreateDatasetRequest {
                name,
                kind,
                user_properties,
                acl_inherit,
                acl_mode,
                atime,
                can_mount,
                checksum,
                compression,
                copies,
                devices,
                executable,
                mount_point,
                primary_cache,
                quota,
                readonly,
                record_size,
                ref_quota,
                ref_reservation,
                reservation,
                secondary_cache,
                setuid,
                snap_dir,
                volume_size,
                volume_block_size,
                xattr,
            },
        )
    }
}

impl CreateDatasetRequest {
    /// Create a builder.
    pub fn builder() -> (r: CreateDatasetRequestBuilder)
        ensures
            r == CreateDatasetRequestBuilder::empty(),
    {
        CreateDatasetRequestBuilder::default()
    }

    /// Checks the request: its name must be a valid dataset name.
    pub fn validate(&self) -> (r: Result<(), Error>)
        ensures
            spec_validate_name(self.name@) is None ==> r is Ok,
            spec_validate_name(self.name@) matches Some(e) ==> (r matches Err(Error::ValidationErrors(v))
                && v@.len() == 1 && v@[0]@ == e),
    {
        match validate_name(self.name.as_str()) {
            Ok(()) => Ok(()),
            Err(e) => {
                let mut errors: Vec<ValidationError> = Vec::new();
                errors.push(e);
                Err(Error::ValidationErrors(errors))
            },
        }
    }
}

} // verus!
