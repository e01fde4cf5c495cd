use libzetta::nv::{NvFlag, NvType};
use libzetta::zfs::errors::ValidationError;
use libzetta::zfs::lzc::{bool_to_u64, create_properties, create_result, NvValue};
use libzetta::zfs::open3::{
    datasets_from_output, destroy_args, destroy_result, list_args, list_kind_args, properties_from_output, properties_from_stdout,
    read_properties_args, typed_datasets_from_output,
};
use libzetta::zfs::pathext::validate_name;
use libzetta::zfs::properties::{BookmarkProperties, SnapshotProperties, CacheMode, CaseSensitivity, Checksum, Compression, Normalization, Properties, VolumeMode};
use libzetta::zfs::request::CreateDatasetRequest;
use libzetta::zfs::string_map::StringMap;
use libzetta::zfs::{BookmarkRequest, DatasetKind, DestroyTiming, Error, ErrorKind, PathExt, SendFlags};

#[test]
fn test_error_ds_not_found() {
    let stderr = b"cannot open 's/asd/asd': dataset does not exist";

    let err = Error::from_stderr(stderr);
    assert_eq!(Error::DatasetNotFound(String::from("s/asd/asd")), err);
    assert_eq!(ErrorKind::DatasetNotFound, err.kind());
}

#[test]
fn test_error_rubbish() {
    let stderr = b"there is no way there is an error like this";
    let stderr_string = String::from_utf8_lossy(stderr).to_string();

    let err = Error::from_stderr(stderr);
    assert_eq!(Error::UnknownSoFar(stderr_string), err);
    assert_eq!(ErrorKind::Unknown, err.kind());
}

#[test]
fn test_name_validator() {
    let path = "z/asd/";
    let request = CreateDatasetRequest::builder().name(path).kind(DatasetKind::Filesystem).build().unwrap();

    let result = request.validate().unwrap_err();
    let expected = Error::from(vec![ValidationError::MissingName(path.to_string())]);
    assert_eq!(expected, result);

    let path = "z/asd/jnmgyfklueiodyfryvopvyfidvdgxqxsesjmqeoevdgmzsqmesuqzqoxhjfltmsvltdyiilgkvklinlfhaanfqisdazjpfmwttnuosdfijickudhwegburxsoesvunamysaigtagymxcyfeyqiqphtalmbkskrjdndbbcjqiiwucsxzezqmvpzmkylrojumtvatfvrpfkxubfujyioyylmffvrvtfetnzghkwaqzxkqmialkaaekotuhgiivwvbsoqqa";
    let request = CreateDatasetRequest::builder().name(path).kind(DatasetKind::Filesystem).build().unwrap();

    let result = request.validate().unwrap_err();
    let expected = Error::from(vec![ValidationError::NameTooLong(path.to_string())]);
    assert_eq!(expected, result);
}

#[test]
fn test_hashmap_eq() {
    let mut left = StringMap::new();
    left.insert("foo".to_string(), "bar".to_string());
    left.insert("bar".to_string(), "foo".to_string());
    let mut right = StringMap::new();
    right.insert("bar".to_string(), "foo".to_string());
    right.insert("foo".to_string(), "bar".to_string());
    assert_eq!(left, right);
}

#[test]
fn valid_dataset_no_bookmarks_or_snapshots() {
    let path = String::from("tank/usr/home");

    assert_eq!(Some(String::from("tank")), path.get_pool());
    assert!(!path.is_snapshot());
    assert!(!path.is_bookmark());
    assert_eq!(None, path.get_snapshot());
    assert_eq!(None, path.get_bookmark());
    assert!(path.is_volume_or_dataset());
    assert!(path.is_valid());
}

#[test]
fn not_valid_just_dataset() {
    let path = String::from("/usr/home");
    assert_eq!(None, path.get_pool());
    assert!(!path.is_snapshot());
    assert!(!path.is_bookmark());
    assert_eq!(None, path.get_snapshot());
    assert_eq!(None, path.get_bookmark());
    assert!(path.is_volume_or_dataset());
    assert!(!path.is_valid());
}

#[test]
fn valid_snapshot() {
    let path = String::from("tank/usr/home@snap");

    assert_eq!(Some(String::from("tank")), path.get_pool());
    assert!(path.is_snapshot());
    assert!(!path.is_bookmark());
    assert_eq!(Some(String::from("snap")), path.get_snapshot());
    assert_eq!(None, path.get_bookmark());
    assert!(!path.is_volume_or_dataset());
    assert!(path.is_valid());
}

#[test]
fn valid_bookmark() {
    let path = String::from("tank/usr/home#bookmark");

    assert_eq!(Some(String::from("tank")), path.get_pool());
    assert!(!path.is_snapshot());
    assert!(path.is_bookmark());
    assert_eq!(None, path.get_snapshot());
    assert_eq!(Some(String::from("bookmark")), path.get_bookmark());
    assert!(!path.is_volume_or_dataset());
    assert!(path.is_valid());
}

#[test]
fn at_in_wrong_place() {
    let path = String::from("tank/usr@wat/home");
    assert!(!path.is_snapshot());
}

#[test]
fn pound_in_wrong_place() {
    let path = String::from("tank/usr#wat/home");
    assert!(!path.is_bookmark());
}

#[test]
fn pathext_on_str_matches_string() {
    let path = "tank/data@daily";
    assert_eq!(Some(String::from("tank")), path.get_pool());
    assert_eq!(Some(String::from("daily")), path.get_snapshot());
    assert!(path.validate().is_ok());
}

#[test]
fn name_validation_errors() {
    assert!(validate_name("tank/data").is_ok());
    assert!(matches!(validate_name("/tank"), Err(ValidationError::MissingPool(p)) if p == "/tank"));
    assert!(matches!(validate_name("tank/"), Err(ValidationError::MissingName(p)) if p == "tank/"));
    assert!(matches!(validate_name(""), Err(ValidationError::MissingName(p)) if p.is_empty()));
    let long = format!("tank/{}", "a".repeat(256));
    assert!(matches!(validate_name(&long), Err(ValidationError::NameTooLong(_))));
    let edge = format!("tank/{}", "a".repeat(255));
    assert!(validate_name(&edge).is_ok());
}

#[test]
fn string_map_insert_and_get() {
    let mut m = StringMap::new();
    assert_eq!(0, m.len());
    m.insert("a".to_string(), "1".to_string());
    m.insert("b".to_string(), "2".to_string());
    m.insert("a".to_string(), "3".to_string());
    assert_eq!(2, m.len());
    assert_eq!(Some(&"3".to_string()), m.get("a"));
    assert_eq!(Some(&"2".to_string()), m.get("b"));
    assert_eq!(None, m.get("c"));
    assert!(m.contains_key("b"));
    assert!(!m.contains_key("c"));
    let mut other = StringMap::new();
    other.insert("a".to_string(), "1".to_string());
    other.insert("b".to_string(), "2".to_string());
    assert_ne!(m, other);
}

#[test]
fn errors_compare_by_kind() {
    assert_eq!(Error::Unknown, Error::UnknownSoFar("x".to_string()));
    assert_ne!(Error::Unknown, Error::CmdNotFound);
    assert_eq!(ErrorKind::Io, Error::invalid_input().kind());
    let a = Error::from(vec![ValidationError::MissingName("a/".to_string())]);
    let b = Error::from(vec![ValidationError::MissingPool("a/".to_string())]);
    assert_ne!(a, b);
    assert_eq!(Error::from(ValidationError::Unknown("x".to_string())), Error::from(vec![ValidationError::Unknown("x".to_string())]));
}

#[test]
fn dataset_lists_from_output() {
    let names = datasets_from_output(true, b"s\ns/s/s/s\ns/d@test\n", b"").unwrap();
    assert_eq!(vec!["s".to_string(), "s/s/s/s".to_string(), "s/d@test".to_string()], names);

    let err = datasets_from_output(false, b"", b"cannot open 'z/missing': dataset does not exist").unwrap_err();
    assert!(matches!(err, Error::DatasetNotFound(n) if n == "z/missing"));

    let typed = typed_datasets_from_output(true, b"filesystem\tz\nsnapshot\tz@s\nvolume\tz/v\n", b"").unwrap();
    assert_eq!(
        vec![
            (DatasetKind::Filesystem, "z".to_string()),
            (DatasetKind::Snapshot, "z@s".to_string()),
            (DatasetKind::Volume, "z/v".to_string()),
        ],
        typed
    );
    let bad = typed_datasets_from_output(true, b"pool\tz\n", b"").unwrap_err();
    assert_eq!(ErrorKind::Unknown, bad.kind());
}

#[test]
fn command_lines() {
    assert_eq!(vec!["destroy", "z/a"], destroy_args("z/a"));
    assert_eq!(vec!["list", "-t", "all", "-o", "type,name", "-Hpr", "z"], list_args("z"));
    assert_eq!(vec!["list", "-t", "snapshot", "-o", "name", "-Hpr", "z"], list_kind_args("snapshot", "z"));
    assert_eq!(vec!["get", "-Hp", "all", "z/a"], read_properties_args("z/a"));
    assert!(destroy_result(true).is_ok());
    assert_eq!(ErrorKind::Unknown, destroy_result(false).unwrap_err().kind());
}

#[test]
fn snapshot_properties_from_stdout() {
    let name = "z/usr@backup-2019-11-24";
    let stdout = [
        "z/usr@backup-2019-11-24\ttype\tsnapshot\t-",
        "z/usr@backup-2019-11-24\tcasesensitivity\tsensitive\t-",
        "z/usr@backup-2019-11-24\tclones\t\t-",
        "z/usr@backup-2019-11-24\tcompressratio\t1.00x\t-",
        "z/usr@backup-2019-11-24\tcreatetxg\t3034392\t-",
        "z/usr@backup-2019-11-24\tcreation\t1574590597\t-",
        "z/usr@backup-2019-11-24\tdefer_destroy\toff\t-",
        "z/usr@backup-2019-11-24\tdevices\ton\tdefault",
        "z/usr@backup-2019-11-24\texec\ton\tdefault",
        "z/usr@backup-2019-11-24\tguid\t6033436932844487115\t-",
        "z/usr@backup-2019-11-24\tlogicalreferenced\t37376\t-",
        "z/usr@backup-2019-11-24\tmlslabel\t\t-",
        "z/usr@backup-2019-11-24\tnbmand\toff\tdefault",
        "z/usr@backup-2019-11-24\tnormalization\tnone\t-",
        "z/usr@backup-2019-11-24\tprimarycache\tall\tdefault",
        "z/usr@backup-2019-11-24\trefcompressratio\t1.00x\t-",
        "z/usr@backup-2019-11-24\treferenced\t90210\t-",
        "z/usr@backup-2019-11-24\tsecondarycache\tall\tdefault",
        "z/usr@backup-2019-11-24\tsetuid\ton\tdefault",
        "z/usr@backup-2019-11-24\tused\t0\t-",
        "z/usr@backup-2019-11-24\tuserrefs\t0\t-",
        "z/usr@backup-2019-11-24\tutf8only\toff\t-",
        "z/usr@backup-2019-11-24\tversion\t5\t-",
        "z/usr@backup-2019-11-24\tvolmode\tdefault\tdefault",
        "z/usr@backup-2019-11-24\twritten\t0\t-",
        "z/usr@backup-2019-11-24\txattr\ton\tdefault",
    ]
    .join("\n");
    let result = properties_from_stdout(name, &stdout).unwrap();
    match result {
        Properties::Snapshot(p) => {
            assert_eq!(name, p.name);
            assert_eq!(CaseSensitivity::Sensitive, p.case_sensitivity);
            assert_eq!(None, p.clones);
            assert_eq!("1.00", p.compression_ratio);
            assert_eq!(1.0, p.compression_ratio.parse::<f64>().unwrap());
            assert_eq!(Some(3_034_392), p.create_txg);
            assert_eq!(1_574_590_597, p.creation);
            assert!(!p.defer_destroy);
            assert!(p.devices);
            assert!(p.executable);
            assert_eq!(Some(6_033_436_932_844_487_115), p.guid);
            assert_eq!(37376, p.logically_referenced);
            assert_eq!(None, p.mls_label);
            assert!(!p.nbmand);
            assert_eq!(Normalization::Disabled, p.normalization);
            assert_eq!(CacheMode::All, p.primary_cache);
            assert_eq!("1.00", p.ref_compression_ratio);
            assert_eq!(90210, p.referenced);
            assert_eq!(CacheMode::All, p.secondary_cache);
            assert!(p.setuid);
            assert_eq!(0, p.used);
            assert_eq!(0, p.user_refs);
            assert_eq!(Some(false), p.utf8_only);
            assert_eq!(5, p.version);
            assert_eq!(Some(VolumeMode::Default), p.volume_mode);
            assert_eq!(0, p.written);
            assert!(p.xattr);
            assert_eq!(StringMap::new(), p.unknown_properties);
        },
        other => panic!("not a snapshot: {:?}", other),
    }
}

#[test]
fn bookmark_properties_from_stdout() {
    let name = "z/var/tmp#backup-2019-08-08";
    let stdout = "z/var/tmp#backup-2019-08-08\ttype\tbookmark\t-\n\
                  z/var/tmp#backup-2019-08-08\tcreatetxg\t2967653\t-\n\
                  z/var/tmp#backup-2019-08-08\tcreation\t1565321370\t-\n\
                  z/var/tmp#backup-2019-08-08\tguid\t12396914211240477066\t-\n\
                  z/var/tmp#backup-2019-08-08\tcom.example:tag\tweekly\tlocal\n";
    match properties_from_stdout(name, stdout).unwrap() {
        Properties::Bookmark(p) => {
            assert_eq!(name, p.name);
            assert_eq!(Some(2_967_653), p.create_txg);
            assert_eq!(1_565_321_370, p.creation);
            assert_eq!(Some(12_396_914_211_240_477_066), p.guid);
            let mut unknown = StringMap::new();
            unknown.insert("com.example:tag".to_string(), "weekly".to_string());
            assert_eq!(unknown, p.unknown_properties);
        },
        other => panic!("not a bookmark: {:?}", other),
    }
}

#[test]
fn bookmark_without_creation_does_not_read() {
    let stdout = "z#b\ttype\tbookmark\t-\nz#b\tguid\t1\t-\n";
    assert!(properties_from_stdout("z#b", stdout).is_none());
    let stdout = "z#b\ttype\tbookmark\t-\nz#b\tcreation\tsoon\t-\n";
    assert!(properties_from_stdout("z#b", stdout).is_none());
}

#[test]
fn unknown_kind_keeps_text() {
    let stdout = "z/x\ttype\tweird\t-\nz/x\tfoo\tbar\t-\nz/x\tfoo\tbaz\t-\n";
    match properties_from_stdout("z/x", stdout).unwrap() {
        Properties::Unknown(m) => {
            assert_eq!(1, m.len());
            assert_eq!(Some(&"baz".to_string()), m.get("foo"));
        },
        other => panic!("not unknown: {:?}", other),
    }
    assert!(properties_from_stdout("z/x", "").is_none());
    assert!(properties_from_stdout("z/x", "z/x\ttype\n").is_none());
}

#[test]
fn create_properties_of_filesystem() {
    let mut user = StringMap::new();
    user.insert("com.example:owner".to_string(), "ops".to_string());
    let request = CreateDatasetRequest::builder()
        .name("z/fs")
        .kind(DatasetKind::Filesystem)
        .atime(true)
        .checksum(Checksum::SHA256)
        .compression(Compression::LZ4)
        .quota(1024)
        .user_properties(user)
        .build()
        .unwrap();
    let props = create_properties(&request).unwrap();
    let keys: Vec<&str> = props.iter().map(|(k, _)| k.as_str()).collect();
    assert_eq!(vec!["atime", "checksum", "compression", "quota", "com.example:owner"], keys);
    assert!(matches!(props[0].1, NvValue::Number(1)));
    assert!(matches!(props[3].1, NvValue::Number(1024)));
    assert!(matches!(&props[4].1, NvValue::Text(t) if t == "ops"));
}

#[test]
fn create_properties_rejects_bad_sizes() {
    let request = CreateDatasetRequest::builder()
        .name("z/fs")
        .kind(DatasetKind::Filesystem)
        .volume_size(1024)
        .build()
        .unwrap();
    assert_eq!(ErrorKind::Io, create_properties(&request).unwrap_err().kind());
    let request = CreateDatasetRequest::builder().name("z/vol").kind(DatasetKind::Volume).build().unwrap();
    assert_eq!(ErrorKind::Io, create_properties(&request).unwrap_err().kind());
    let request = CreateDatasetRequest::builder()
        .name("z/vol")
        .kind(DatasetKind::Volume)
        .volume_size(4096)
        .build()
        .unwrap();
    let props = create_properties(&request).unwrap();
    assert_eq!(1, props.len());
    assert_eq!("volsize", props[0].0);
}

#[test]
fn create_request_builder_needs_name_and_kind() {
    assert!(CreateDatasetRequest::builder().name("z/a").build().is_err());
    assert!(CreateDatasetRequest::builder().kind(DatasetKind::Filesystem).build().is_err());
    let r = CreateDatasetRequest::builder().name("z/a").kind(DatasetKind::Filesystem).build().unwrap();
    assert_eq!("z/a", r.name);
    assert_eq!(None, r.quota);
    assert!(r.validate().is_ok());
}

#[test]
fn lzc_numbers() {
    assert_eq!(1, bool_to_u64(true));
    assert_eq!(0, bool_to_u64(false));
    assert!(create_result(0).is_ok());
    assert_eq!(ErrorKind::Io, create_result(22).unwrap_err().kind());
    match create_result(2).unwrap_err() {
        Error::Io(e) => assert_eq!(Some(2), e.raw_os_error()),
        other => panic!("not an I/O error: {:?}", other),
    }
    assert_eq!(1, DestroyTiming::Defer.as_c_uint());
    assert_eq!(0, DestroyTiming::RightNow.as_c_uint());
}

#[test]
fn send_flags_sets() {
    let all = SendFlags::all();
    assert_eq!(31, all.bits());
    assert!(SendFlags::empty().is_empty());
    assert!(SendFlags::from_bits(32).is_none());
    assert_eq!(31, SendFlags::from_bits_truncate(0xff).bits());
    let mut f = SendFlags::from_bits(1).unwrap();
    f.insert(SendFlags::from_bits(4).unwrap());
    assert_eq!(5, f.bits());
    assert!(all.contains(f));
    assert!(!f.contains(all));
    f.remove(SendFlags::from_bits(1).unwrap());
    assert_eq!(4, f.bits());
    assert_eq!(7, f.union(SendFlags::from_bits(3).unwrap()).bits());
    assert_eq!(0, SendFlags::default().bits());
}

#[test]
fn bookmark_request_holds_names() {
    let r = BookmarkRequest::new("z/a@s".to_string(), "z/a#b".to_string());
    assert_eq!("z/a@s", r.snapshot);
    assert_eq!("z/a#b", r.bookmark);
}

#[test]
fn dataset_kind_names() {
    for k in [DatasetKind::Filesystem, DatasetKind::Volume, DatasetKind::Snapshot] {
        assert_eq!(Some(k), DatasetKind::from_name(k.as_str()));
    }
    assert_eq!(None, DatasetKind::from_name("pool"));
    assert_eq!(DatasetKind::Filesystem, DatasetKind::default());
}

#[test]
fn property_value_names() {
    for c in [CacheMode::All, CacheMode::Metadata, CacheMode::Disabled] {
        assert_eq!(Some(c), CacheMode::from_name(c.as_str()));
    }
    assert_eq!("none", CacheMode::Disabled.as_str());
    assert_eq!(Some(Compression::LZ4), Compression::from_name("lz4"));
    assert_eq!(None, Checksum::from_name("md5"));
}

#[test]
fn property_builders() {
    let mut b = BookmarkProperties::builder("z/var/tmp#backup-2019-08-08");
    b.create_txg(Some(2_967_653)).creation(1_565_321_370).guid(Some(12_396_914_211_240_477_066));
    b.insert_unknown_property("a".to_string(), "1".to_string());
    b.insert_unknown_property("a".to_string(), "2".to_string());
    let p = b.build().unwrap();
    assert_eq!("z/var/tmp#backup-2019-08-08", p.name);
    assert_eq!(Some(2_967_653), p.create_txg);
    assert_eq!(1, p.unknown_properties.len());
    assert_eq!(Some(&"2".to_string()), p.unknown_properties.get("a"));

    let mut b = BookmarkProperties::builder("z#b");
    b.creation(1);
    assert!(b.build().is_err());

    let b = SnapshotProperties::builder("z@s");
    assert!(b.build().is_err());
}

#[test]
fn zero_length_encoding_is_zle() {
    assert_eq!(Some(Compression::ZLE), Compression::from_name("zle"));
    assert_eq!(None, Compression::from_name("lze"));
    assert_eq!("zle", Compression::ZLE.as_str());
    assert_eq!(14, Compression::ZLE.as_nv_value());
}

#[test]
fn properties_from_command_output() {
    let stdout = b"z#b\ttype\tbookmark\t-\nz#b\tcreation\t7\t-\n";
    match properties_from_output(true, "z#b", stdout, b"").unwrap() {
        Properties::Bookmark(p) => assert_eq!(7, p.creation),
        other => panic!("not a bookmark: {:?}", other),
    }
    let bad = b"z#b\ttype\tbookmark\t-\nz#b\tcreation\tsoon\t-\n";
    assert!(matches!(properties_from_output(true, "z#b", bad, b""), Err(Error::UnknownSoFar(_))));
    let err = properties_from_output(false, "z/x", b"", b"cannot open 'z/x': dataset does not exist").unwrap_err();
    assert!(matches!(err, Error::DatasetNotFound(n) if n == "z/x"));
}

#[test]
fn nv_numbers() {
    for f in [NvFlag::NoOptions, NvFlag::IgnoreCase, NvFlag::NoUnique, NvFlag::Both] {
        assert_eq!(f, NvFlag::from(f.number()));
    }
    assert_eq!(NvFlag::NoUnique, NvFlag::from(2));
    assert_eq!(0, NvType::Empty.number());
    assert_eq!(12, NvType::DescriptorArray.number());
}
