use std::path::PathBuf;

use libzetta::zpool::{CacheType, FailMode, Health, PropPair, ZpoolProperties,
                      ZpoolPropertiesWrite, ZpoolPropertiesWriteBuilder};

#[test]
fn test_defaults() {
    let built = ZpoolPropertiesWriteBuilder::default().build().unwrap();
    let handmade = ZpoolPropertiesWrite {
        read_only: false,
        auto_expand: false,
        auto_replace: false,
        boot_fs: None,
        cache_file: CacheType::Default,
        comment: String::new(),
        delegation: false,
        fail_mode: FailMode::Wait,
    };

    assert_eq!(handmade, built);
}

#[test]
fn test_create_props() {
    let built = ZpoolPropertiesWriteBuilder::default()
        .boot_fs(Some("bootpool".into()))
        .build()
        .unwrap();
    let args = built.into_args();
    assert_eq!(7, args.len());
}

#[test]
fn parsing_health() {
    let online = Some("ONLINE");
    let degraded = Some("DEGRADED");
    let faulted = Some("FAULTED");
    let offline = Some("OFFLINE");
    let unavailable = Some("UNAVAIL");
    let removed = Some("REMOVED");
    let bad = Some("wat");

    assert_eq!(Health::Online, Health::try_from_str(online).unwrap());
    assert_eq!(Health::Degraded, Health::try_from_str(degraded).unwrap());
    assert_eq!(Health::Faulted, Health::try_from_str(faulted).unwrap());
    assert_eq!(Health::Offline, Health::try_from_str(offline).unwrap());
    assert_eq!(Health::Unavailable, Health::try_from_str(unavailable).unwrap());
    assert_eq!(Health::Removed, Health::try_from_str(removed).unwrap());

    let err = Health::try_from_str(bad);
    assert!(err.is_err());

    let err = Health::try_from_str(None);

    assert!(err.is_err());
}

#[test]
fn parsing_fail_mode() {
    let wait = Some("wait");
    let cont = Some("continue");
    let panic = Some("panic");
    let bad = Some("wat");

    assert_eq!(FailMode::Wait, FailMode::try_from_str(wait).unwrap());
    assert_eq!(FailMode::Continue, FailMode::try_from_str(cont).unwrap());
    assert_eq!(FailMode::Panic, FailMode::try_from_str(panic).unwrap());

    let err = FailMode::try_from_str(bad);
    assert!(err.is_err());

    let err = FailMode::try_from_str(None);
    assert!(err.is_err());
}

#[test]
fn parsing_cache_file() {
    assert_eq!(CacheType::Default, CacheType::try_from_str(Some("-")).unwrap());
    assert_eq!(CacheType::Default, CacheType::try_from_str(Some("")).unwrap());
    assert_eq!(CacheType::Disabled, CacheType::try_from_str(Some("none")).unwrap());
    assert_eq!(CacheType::Custom("/wat".into()), CacheType::try_from_str(Some("/wat")).unwrap());

    let err = CacheType::try_from_str(None);
    assert!(err.is_err());
}

#[test]
fn parsing_props_u64_guid() {
    let line = b"69120\t0\t-\t1.00x\t-\t1%\t67039744\t0\t15867762423891129245\tONLINE\t67108864\t0\t-\toff\toff\toff\t-\t-\t0\ton\twait\n";
    let props = ZpoolProperties::try_from_stdout(line);
    assert!(props.is_ok());
}

#[test]
fn parsing_on_zol() {
    let line = b"99840\t0\t-\t1.00\t-\t1\t67009024\t0\t5667188105885376774\tONLINE\t67108864\t0\t-\toff\toff\toff\t-\t-\t0\ton\twait\n";
    let props = ZpoolProperties::try_from_stdout(line);
    assert!(props.is_ok());
}

#[test]
fn parsing_props() {
    let line = b"69120\t0\t-\t1.50x\t-\t22%\t67039744\t0\t4957928072935098740\tONLINE\t67108864\t0\t-\toff\toff\toff\t-\t-\t0\ton\twait\n";
    let props = ZpoolProperties::try_from_stdout(line);
    assert!(props.is_ok());

    let line = b"69120\t0\ttouch it\t1.50x\t-\t22%\t67039744\t0\t4957928072935098740\tONLINE\t67108864\t0\t-\toff\toff\toff\t-\t-\t0\ton\tpanic\n";
    let props = ZpoolProperties::try_from_stdout(line).unwrap();
    assert_eq!(Some(String::from("touch it")), props.comment);
    assert_eq!(FailMode::Panic, props.fail_mode);

    let line = b"69120\t0\ttouch it\t1.50x\t-\t22%\t67039744\t0\t4957928072935098740\tOFFLINE\t67108864\t0\t/mnt/\toff\toff\toff\t-\t-\t0\ton\twait\n";
    let props = ZpoolProperties::try_from_stdout(line).unwrap();
    assert_eq!(Health::Offline, props.health);
    assert_eq!(Some(PathBuf::from("/mnt")), props.alt_root.map(PathBuf::from));

    let line = b"waf\tasd";
    let props = ZpoolProperties::try_from_stdout(line);
    assert!(props.is_err());

    let line = b"69120\t0\ttouch it\t1.50x\t1\t22%\t67039744\t0\t4957928072935098740\tOFFLINE\t67108864\t0\t/mnt/\toff\toff\toff\tz/ROOT/default\t-\t0\ton\twait\n";
    let props = ZpoolProperties::try_from_stdout(line).unwrap();
    assert_eq!(Some(String::from("z/ROOT/default")), props.boot_fs);
    assert_eq!(Some(1), props.expand_size);

    let line = b"69120\t0\t-\t1.50x\t-\t22%\t67039744\t0\t4957928072935098740\tONLINE\t67108864\t0\t-\toff\toff\toff\t-\t-\t0\tomn\twait\n";
    let props = ZpoolProperties::try_from_stdout(line);
    assert!(props.is_err());
}

#[test]
fn to_arg() {
    let props = ZpoolPropertiesWriteBuilder::default().build().unwrap();
    let expected: Vec<String> = vec![
        "autoexpand=off",
        "autoreplace=off",
        "cachefile=",
        "comment=",
        "delegation=off",
        "failmode=wait",
    ]
    .into_iter()
    .map(String::from)
    .collect();
    let result = props.into_args();
    assert_eq!(expected, result);

    let props = ZpoolPropertiesWriteBuilder::default()
        .auto_expand(true)
        .cache_file(CacheType::Disabled)
        .fail_mode(FailMode::Panic)
        .build()
        .unwrap();
    let expected: Vec<String> = vec![
        "autoexpand=on",
        "autoreplace=off",
        "cachefile=none",
        "comment=",
        "delegation=off",
        "failmode=panic",
    ]
    .into_iter()
    .map(String::from)
    .collect();
    let result = props.into_args();
    assert_eq!(expected, result);

    let props = ZpoolPropertiesWriteBuilder::default()
        .fail_mode(FailMode::Continue)
        .cache_file(CacheType::Custom("wat".into()))
        .build()
        .unwrap();
    let expected: Vec<String> = vec![
        "autoexpand=off",
        "autoreplace=off",
        "cachefile=wat",
        "comment=",
        "delegation=off",
        "failmode=continue",
    ]
    .into_iter()
    .map(String::from)
    .collect();
    let result = props.into_args();
    assert_eq!(expected, result);

    let props = ZpoolPropertiesWriteBuilder::default()
        .auto_replace(true)
        .comment("a test")
        .build()
        .unwrap();
    let expected: Vec<String> = vec![
        "autoexpand=off",
        "autoreplace=on",
        "cachefile=",
        "comment=a test",
        "delegation=off",
        "failmode=wait",
    ]
    .into_iter()
    .map(String::from)
    .collect();
    let result = props.into_args();
    assert_eq!(expected, result);
}

#[test]
fn parsed_values_are_exact() {
    let line = b"69120\t7\tnote\t1.50x\t-\t22%\t67039744\t3\t4957928072935098740\tDEGRADED\t67108864\t5\t-\ton\ton\toff\t-\tnone\t2\toff\tcontinue\n";
    let props = ZpoolProperties::try_from_stdout(line).unwrap();
    assert_eq!(69120, props.alloc);
    assert_eq!(7, props.capacity);
    assert_eq!("1.50", props.dedup_ratio);
    assert_eq!(None, props.expand_size);
    assert_eq!(22, props.fragmentation);
    assert_eq!(67039744, props.free);
    assert_eq!(3, props.freeing);
    assert_eq!(4957928072935098740, props.guid);
    assert_eq!(Health::Degraded, props.health);
    assert_eq!(67108864, props.size);
    assert_eq!(5, props.leaked);
    assert_eq!(None, props.alt_root);
    assert!(props.read_only);
    assert!(props.auto_expand);
    assert!(!props.auto_replace);
    assert_eq!(None, props.boot_fs);
    assert_eq!(CacheType::Disabled, props.cache_file);
    assert_eq!(2, props.dedup_ditto);
    assert!(!props.delegation);
    assert_eq!(FailMode::Continue, props.fail_mode);
}

#[test]
fn props_round_trip_through_builder() {
    let line = b"69120\t0\tnote\t1.00x\t-\t1%\t67039744\t0\t1\tONLINE\t67108864\t0\t-\toff\ton\toff\tz/ROOT\t/etc/zpool.cache\t0\ton\tpanic\n";
    let props = ZpoolProperties::try_from_stdout(line).unwrap();
    let write = ZpoolPropertiesWriteBuilder::from_props(&props).build().unwrap();
    assert!(write.auto_expand);
    assert!(!write.auto_replace);
    assert_eq!(Some(String::from("z/ROOT")), write.boot_fs);
    assert_eq!(CacheType::Custom("/etc/zpool.cache".into()), write.cache_file);
    assert_eq!("note", write.comment);
    assert!(write.delegation);
    assert_eq!(FailMode::Panic, write.fail_mode);
}

#[test]
fn cache_type_text_round_trip() {
    assert_eq!("", CacheType::Default.as_str());
    assert_eq!("none", CacheType::Disabled.as_str());
    assert_eq!("/a", CacheType::Custom("/a".into()).as_str());
    for c in [CacheType::Default, CacheType::Disabled, CacheType::Custom("/a".into())] {
        assert_eq!(c.clone(), CacheType::try_from_str(Some(c.as_str())).unwrap());
    }
}

#[test]
fn fail_mode_text_round_trip() {
    for m in [FailMode::Wait, FailMode::Continue, FailMode::Panic] {
        assert_eq!(m, FailMode::try_from_str(Some(m.as_str())).unwrap());
    }
}

#[test]
fn pairs_of_values() {
    assert_eq!("autoexpand=on", true.to_pair("autoexpand"));
    assert_eq!("failmode=wait", FailMode::Wait.to_pair("failmode"));
    assert_eq!("comment=hi", String::from("hi").to_pair("comment"));
    assert_eq!("cachefile=none", CacheType::Disabled.to_pair("cachefile"));
}
