use libzetta::zpool::{CreateVdevRequest, CreateZpoolRequest, CreateZpoolRequestBuilder};

const FILE_PATH: &str = "/tmp/zpool-tests/block-device";

fn get_disks(num: usize, path: &str) -> Vec<String> {
    (0..num).map(|_| path.to_string()).collect()
}

fn args_from_slice(args: &[&str]) -> Vec<String> {
    args.iter().map(|s| s.to_string()).collect()
}

#[test]
fn test_validators() {
    // Zpool with one valid mirror
    let topo = CreateZpoolRequestBuilder::default()
        .name("tank")
        .vdevs(vec![CreateVdevRequest::Mirror(get_disks(2, FILE_PATH))])
        .build()
        .unwrap();

    assert!(topo.is_suitable_for_create());

    // Zpool with invalid mirror
    let topo = CreateZpoolRequestBuilder::default()
        .name("tank")
        .vdevs(vec![CreateVdevRequest::Mirror(get_disks(1, FILE_PATH))])
        .build()
        .unwrap();

    assert!(!topo.is_suitable_for_create());

    // Zpool with valid cache and valid vdev
    let topo = CreateZpoolRequestBuilder::default()
        .name("tank")
        .vdevs(vec![CreateVdevRequest::Mirror(get_disks(2, FILE_PATH))])
        .caches(get_disks(2, FILE_PATH))
        .build()
        .unwrap();

    assert!(topo.is_suitable_for_create());

    // Just add L2ARC to zpool
    let topo = CreateZpoolRequestBuilder::default().name("tank").cache(FILE_PATH).build().unwrap();

    assert!(topo.is_suitable_for_update());
    assert!(!topo.is_suitable_for_create());
}

#[test]
fn test_builder() {
    let result = CreateZpoolRequest::builder().build();
    assert!(result.is_err());
}

#[test]
fn test_args() {
    let path = FILE_PATH;
    let naked_vdev = CreateVdevRequest::SingleDisk(path.to_string());

    // Just add L2ARC to zpool
    let topo = CreateZpoolRequestBuilder::default().name("tank").cache(path).build().unwrap();

    let result: Vec<String> = topo.into_args();
    let expected = args_from_slice(&["cache", path]);

    assert_eq!(expected, result);

    // Zpool with mirror as ZIL and two vdevs
    let topo = CreateZpoolRequestBuilder::default()
        .name("tank")
        .vdev(naked_vdev.clone())
        .vdev(naked_vdev.clone())
        .zil(CreateVdevRequest::Mirror(get_disks(2, path)))
        .build()
        .unwrap();

    let result = topo.into_args();
    let expected = args_from_slice(&[path, path, "log", "mirror", path, path]);
    assert_eq!(expected, result);

    // Zraid
    let topo = CreateZpoolRequestBuilder::default()
        .name("tank")
        .vdev(CreateVdevRequest::RaidZ(get_disks(3, path)))
        .build()
        .unwrap();

    let result = topo.into_args();
    let expected = args_from_slice(&["raidz", path, path, path]);
    assert_eq!(expected, result);

    // Zraid 2
    let topo = CreateZpoolRequestBuilder::default()
        .name("tank")
        .vdev(CreateVdevRequest::RaidZ2(get_disks(5, path)))
        .build()
        .unwrap();

    let result = topo.into_args();
    let expected = args_from_slice(&["raidz2", path, path, path, path, path]);
    assert_eq!(expected, result);

    // Zraid 3
    let topo = CreateZpoolRequestBuilder::default()
        .name("tank")
        .vdev(CreateVdevRequest::RaidZ3(get_disks(8, path)))
        .build()
        .unwrap();

    let result = topo.into_args();
    let expected = args_from_slice(&["raidz3", path, path, path, path, path, path, path, path]);
    assert_eq!(expected, result);
}

#[test]
fn spares_and_all_groups_in_order() {
    let topo = CreateZpoolRequest::builder()
        .name("tank")
        .vdev(CreateVdevRequest::Mirror(vec!["a".into(), "b".into()]))
        .zil(CreateVdevRequest::disk("l"))
        .cache("c")
        .spare("s1")
        .spare("s2")
        .build()
        .unwrap();
    let expected = args_from_slice(&["mirror", "a", "b", "log", "l", "cache", "c", "spare", "s1", "s2"]);
    assert_eq!(expected, topo.into_args());
}

#[test]
fn suitable_for_create_needs_a_vdev() {
    let topo = CreateZpoolRequest::builder().name("tank").build().unwrap();
    assert!(topo.is_suitable_for_update());
    assert!(!topo.is_suitable_for_create());

    let topo = CreateZpoolRequest::builder()
        .name("tank")
        .vdev(CreateVdevRequest::disk("a"))
        .zil(CreateVdevRequest::Mirror(vec!["b".into()]))
        .build()
        .unwrap();
    assert!(!topo.is_suitable_for_update());
    assert!(!topo.is_suitable_for_create());
}

#[test]
fn requests_compare_paths_as_paths() {
    let a = CreateZpoolRequest::builder().name("t").vdev(CreateVdevRequest::disk("/a/b/")).build().unwrap();
    let b = CreateZpoolRequest::builder().name("t").vdev(CreateVdevRequest::disk("/a//b")).build().unwrap();
    assert_eq!(a, b);
    let c = CreateZpoolRequest::builder().name("t").vdev(CreateVdevRequest::disk("/a/c")).build().unwrap();
    assert_ne!(a, c);
}
