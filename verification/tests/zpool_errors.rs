use libzetta::zpool::{ZpoolError, ZpoolErrorKind};

#[test]
fn error_parsing() {
    let vdev_reuse_text = b"invalid vdev specification\nuse '-f' to override the following errors:\n/vdevs/vdev0 is part of active pool 'tank'";
    let unknown_text = b"wat";

    let err = ZpoolError::from_stderr(vdev_reuse_text);

    assert_eq!(ZpoolErrorKind::VdevReuse, err.kind());
    if let ZpoolError::VdevReuse(vdev, pool) = err {
        assert_eq!("/vdevs/vdev0", vdev);
        assert_eq!("tank", pool);
    }

    let err = ZpoolError::from_stderr(unknown_text);
    assert_eq!(ZpoolErrorKind::Other, err.kind());
    if let ZpoolError::Other(text) = err {
        assert_eq!("wat", text);
    }

    let vdev_reuse_text = b"cannot create \'tests-8804202574521870666\': one or more vdevs refer to the same device, or one of\nthe devices is part of an active md or lvm device\n";
    let err = ZpoolError::from_stderr(vdev_reuse_text);
    assert_eq!(ZpoolErrorKind::VdevReuse, err.kind());

    let vdev_reuse_text = b"invalid vdev specification\nuse '-f' to override the following errors:\n/vdevs/vdev0 is part of potentially active pool 'tests-9706865472708603696'\n";
    let err = ZpoolError::from_stderr(vdev_reuse_text);
    assert_eq!(ZpoolErrorKind::VdevReuse, err.kind());
}

#[test]
fn io_error_from() {
    let cmd_not_found = std::io::Error::new(std::io::ErrorKind::NotFound, "oh no");
    let err = ZpoolError::from(cmd_not_found);
    assert_eq!(ZpoolErrorKind::CmdNotFound, err.kind());

    let other = std::io::Error::new(std::io::ErrorKind::Other, "oh now");
    let err = ZpoolError::from(other);
    assert_eq!(ZpoolErrorKind::Io, err.kind());
}

#[test]
fn num_error_from() {
    let int_err = "as".parse::<i8>().unwrap_err();
    let float_err = "as".parse::<f32>().unwrap_err();

    let err = ZpoolError::from(int_err);
    assert_eq!(ZpoolErrorKind::ParseError, err.kind());

    let err = ZpoolError::from(float_err);
    assert_eq!(ZpoolErrorKind::ParseError, err.kind());
}

#[test]
fn too_small() {
    let text = b"cannot create \'tests-5825559772339520034\': one or more devices is less than the minimum size (64M)\n";
    let err = ZpoolError::from_stderr(text);

    assert_eq!(ZpoolErrorKind::DeviceTooSmall, err.kind());
}

#[test]
fn permission_denied() {
    let text = b"cannot create \'tests-10742509212158788460\': permission denied\n";
    let err = ZpoolError::from_stderr(text);

    assert_eq!(ZpoolErrorKind::PermissionDenied, err.kind());
}

#[test]
fn no_active_scrubs() {
    let text = b"cannot pause scrubbing hell: there is no active scrub\n";
    let err = ZpoolError::from_stderr(text);
    assert_eq!(ZpoolErrorKind::NoActiveScrubs, err.kind());

    let text = b"cannot cancel scrubbing hell: there is no active scrub\n";
    let err = ZpoolError::from_stderr(text);
    assert_eq!(ZpoolErrorKind::NoActiveScrubs, err.kind());
}

#[test]
fn no_such_pool() {
    let text = b"cannot open 'hellasd': no such pool\n";
    let err = ZpoolError::from_stderr(text);
    assert_eq!(ZpoolErrorKind::PoolNotFound, err.kind());
}

#[test]
fn no_valid_replicas() {
    let text = b"cannot offline /vdevs/vdev0: no valid replicas\n";
    let err = ZpoolError::from_stderr(text);
    assert_eq!(ZpoolErrorKind::NoValidReplicas, err.kind());
}

#[test]
fn vdev_reuse_names_device_and_pool() {
    let text = b"invalid vdev specification\nuse '-f' to override the following errors:\n/vdevs/vdev0 is part of potentially active pool 'tank'\n";
    match ZpoolError::from_stderr(text) {
        ZpoolError::VdevReuse(vdev, pool) => {
            assert_eq!("/vdevs/vdev0", vdev);
            assert_eq!("tank", pool);
        },
        other => panic!("unexpected error {:?}", other),
    }
}

#[test]
fn md_lvm_reuse_has_empty_names() {
    let text = b"cannot create 'x': one or more vdevs refer to the same device, or one of\nthe devices is part of an active md or lvm device\n";
    match ZpoolError::from_stderr(text) {
        ZpoolError::VdevReuse(vdev, pool) => {
            assert_eq!("", vdev);
            assert_eq!("", pool);
        },
        other => panic!("unexpected error {:?}", other),
    }
}

#[test]
fn unknown_stderr_is_kept_lossily() {
    let err = ZpoolError::from_stderr(b"bad \xff byte");
    match err {
        ZpoolError::Other(text) => assert_eq!("bad \u{FFFD} byte", text),
        other => panic!("unexpected error {:?}", other),
    }
}
