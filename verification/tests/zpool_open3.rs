use libzetta::zpool::update::{PropertyUpdate, UpdateAction, UpdateEvent};
use libzetta::zpool::open3::{
    add_args, add_vdev_args, bring_online_args, command_result, create_args, destroy_args, device_args,
    exists_args, export_args, import_args, pool_presence, properties_from_output, property_updates, set_pair_args, read_properties_args, scrub_args, status_args,
    take_offline_args, zpools_from_import, AddKind, ScrubAction, StatusOptions,
};
use libzetta::zpool::{
    CacheType, CreateMode, CreateVdevRequest, CreateZpoolRequest, DestroyMode, ExportMode, FailMode, OfflineMode,
    OnlineMode, ZpoolErrorKind, ZpoolProperties, ZpoolPropertiesWriteBuilder,
};

fn current() -> ZpoolProperties {
    let line = b"69120\t0\ttouch it\t1.50x\t-\t22%\t67039744\t0\t4957928072935098740\tONLINE\t67108864\t0\t-\toff\toff\toff\t-\t-\t0\ton\twait\n";
    ZpoolProperties::try_from_stdout(line).unwrap()
}

#[test]
fn no_update_for_current_properties() {
    let cur = current();
    let props = ZpoolPropertiesWriteBuilder::from_props(&cur).build().unwrap();
    assert!(property_updates(&cur, &props).is_empty());
}

#[test]
fn updates_only_what_differs() {
    let cur = current();
    let props = ZpoolPropertiesWriteBuilder::from_props(&cur)
        .auto_expand(true)
        .fail_mode(FailMode::Panic)
        .comment("")
        .cache_file(CacheType::Disabled)
        .build()
        .unwrap();
    assert_eq!(
        vec!["autoexpand=on", "cachefile=none", "comment=", "failmode=panic"],
        property_updates(&cur, &props)
    );
}

#[test]
fn create_arguments() {
    let request = CreateZpoolRequest::builder()
        .name("tank")
        .vdev(CreateVdevRequest::Mirror(vec!["/a".to_string(), "/b".to_string()]))
        .create_mode(CreateMode::Force)
        .build()
        .unwrap();
    assert_eq!(vec!["create", "-f", "tank", "mirror", "/a", "/b"], create_args(request).unwrap());

    let request = CreateZpoolRequest::builder().name("tank").build().unwrap();
    assert_eq!(ZpoolErrorKind::InvalidTopology, create_args(request).unwrap_err().kind());

    let request = CreateZpoolRequest::builder()
        .name("tank")
        .vdev(CreateVdevRequest::Mirror(vec!["/a".to_string()]))
        .build()
        .unwrap();
    assert_eq!(ZpoolErrorKind::InvalidTopology, create_args(request).unwrap_err().kind());
}

#[test]
fn command_arguments() {
    assert_eq!(vec!["list", "tank"], exists_args("tank"));
    assert_eq!(vec!["destroy", "-f", "tank"], destroy_args("tank", DestroyMode::Force));
    assert_eq!(vec!["destroy", "tank"], destroy_args("tank", DestroyMode::Gentle));
    assert_eq!(vec!["export", "-f", "tank"], export_args("tank", ExportMode::Force));
    assert_eq!(vec!["import"], import_args(None, None));
    assert_eq!(vec!["import", "-d", "/dir", "tank"], import_args(Some("tank"), Some("/dir")));
    let opts = StatusOptions::builder().full_paths(true).build().unwrap();
    assert_eq!(vec!["status", "-P", "tank"], status_args(Some("tank"), opts));
    assert_eq!(vec!["scrub", "-p", "tank"], scrub_args("tank", ScrubAction::Pause));
    assert_eq!(vec!["scrub", "-s", "tank"], scrub_args("tank", ScrubAction::Stop));
    assert_eq!(vec!["scrub", "tank"], scrub_args("tank", ScrubAction::Start));
    assert_eq!(vec!["offline", "-t", "tank", "/a"], take_offline_args("tank", "/a", OfflineMode::UntilReboot));
    assert_eq!(vec!["online", "-e", "tank", "/a"], bring_online_args("tank", "/a", OnlineMode::Expand));
    assert_eq!(vec!["attach", "tank", "/a", "/b"], device_args("attach", "tank", &vec!["/a".to_string(), "/b".to_string()]));
    assert_eq!(vec!["add", "-f", "tank", "cache", "/c"], add_args("tank", AddKind::Cache, &vec!["/c".to_string()], CreateMode::Force));
    assert_eq!(
        vec!["add", "tank", "log", "mirror", "/a", "/b"],
        add_vdev_args("tank", AddKind::Log, CreateVdevRequest::Mirror(vec!["/a".to_string(), "/b".to_string()]), CreateMode::Gentle)
    );
    assert!(read_properties_args("tank").ends_with(&["tank".to_string()]));
}

#[test]
fn command_results() {
    assert!(command_result(true, b"").is_ok());
    assert_eq!(
        ZpoolErrorKind::PoolNotFound,
        command_result(false, b"cannot open 'x': no such pool\n").unwrap_err().kind()
    );
    assert!(zpools_from_import(false, b"", b"").unwrap().is_empty());
    assert_eq!(ZpoolErrorKind::Other, zpools_from_import(false, b"", b"wat").unwrap_err().kind());
}

#[test]
fn update_runs_sets_then_rereads() {
    let cur = current();
    let props = ZpoolPropertiesWriteBuilder::from_props(&cur).auto_expand(true).fail_mode(FailMode::Panic).build().unwrap();
    let (mut u, a) = PropertyUpdate::start(props);
    assert!(matches!(a, UpdateAction::CheckExists));
    assert!(matches!(u.step(UpdateEvent::Exists(true)), UpdateAction::ReadProperties));
    assert!(matches!(u.step(UpdateEvent::Properties(current())), UpdateAction::SetProperty(p) if p == "autoexpand=on"));
    assert!(matches!(u.step(UpdateEvent::PropertySet), UpdateAction::SetProperty(p) if p == "failmode=panic"));
    assert!(matches!(u.step(UpdateEvent::PropertySet), UpdateAction::ReadProperties));
    assert!(!u.accepts(&UpdateEvent::PropertySet));
    match u.step(UpdateEvent::Properties(current())) {
        UpdateAction::Finish(Ok(p)) => assert_eq!(Some(String::from("touch it")), p.comment),
        other => panic!("not finished: {:?}", other),
    }
}

#[test]
fn update_of_missing_pool() {
    let props = ZpoolPropertiesWriteBuilder::default().build().unwrap();
    let (mut u, _) = PropertyUpdate::start(props);
    match u.step(UpdateEvent::Exists(false)) {
        UpdateAction::Finish(Err(e)) => assert_eq!(ZpoolErrorKind::PoolNotFound, e.kind()),
        other => panic!("not finished: {:?}", other),
    }
}

#[test]
fn small_decisions() {
    assert_eq!(vec!["set", "comment=hi", "tank"], set_pair_args("tank", "comment=hi"));
    assert!(pool_presence(true).is_ok());
    assert_eq!(ZpoolErrorKind::PoolNotFound, pool_presence(false).unwrap_err().kind());
    let line = b"69120\t0\t-\t1.00x\t-\t1%\t67039744\t0\t158677624\tONLINE\t67108864\t0\t-\toff\toff\toff\t-\t-\t0\ton\twait\n";
    assert_eq!(158677624, properties_from_output(true, line, b"").unwrap().guid);
    assert_eq!(ZpoolErrorKind::ParseError, properties_from_output(true, b"x\n", b"").unwrap_err().kind());
    assert_eq!(
        ZpoolErrorKind::PoolNotFound,
        properties_from_output(false, b"", b"cannot open 'x': no such pool\n").unwrap_err().kind()
    );
}

#[test]
fn alternate_roots_compare_as_paths() {
    let a = b"69120\t0\t-\t1.00x\t-\t1%\t67039744\t0\t1\tONLINE\t67108864\t0\t/mnt/\toff\toff\toff\t-\t-\t0\ton\twait\n";
    let b = b"69120\t0\t-\t1.00x\t-\t1%\t67039744\t0\t1\tONLINE\t67108864\t0\t/mnt\toff\toff\toff\t-\t-\t0\ton\twait\n";
    let c = b"69120\t0\t-\t1.00x\t-\t1%\t67039744\t0\t1\tONLINE\t67108864\t0\t/opt\toff\toff\toff\t-\t-\t0\ton\twait\n";
    let pa = ZpoolProperties::try_from_stdout(a).unwrap();
    let pb = ZpoolProperties::try_from_stdout(b).unwrap();
    let pc = ZpoolProperties::try_from_stdout(c).unwrap();
    assert_eq!(pa, pb);
    assert_ne!(pa, pc);
}
