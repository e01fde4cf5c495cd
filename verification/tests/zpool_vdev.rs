use libzetta::zpool::{CreateVdevRequest, Disk, ErrorStatistics, Health, Vdev, VdevType};

const FILE_PATH: &str = "/tmp/zpool-tests/block-device";

fn get_disks(num: usize, path: &str) -> Vec<String> {
    (0..num).map(|_| path.to_string()).collect()
}

#[test]
fn test_raid_validation_naked() {
    let vdev = CreateVdevRequest::SingleDisk(FILE_PATH.to_string());
    assert!(vdev.is_valid());
}

#[test]
fn test_raid_validation_mirror() {
    let vdev = CreateVdevRequest::Mirror(get_disks(2, FILE_PATH));
    assert!(vdev.is_valid());

    let bad = CreateVdevRequest::Mirror(get_disks(1, FILE_PATH));
    assert!(!bad.is_valid());

    let also_bad = CreateVdevRequest::Mirror(get_disks(0, FILE_PATH));
    assert!(!also_bad.is_valid());
}

#[test]
fn test_raid_validation_raidz() {
    let vdev = CreateVdevRequest::RaidZ(get_disks(3, FILE_PATH));
    assert!(vdev.is_valid());

    let also_vdev = CreateVdevRequest::RaidZ(get_disks(5, FILE_PATH));
    assert!(also_vdev.is_valid());

    let bad = CreateVdevRequest::RaidZ(get_disks(2, FILE_PATH));
    assert!(!bad.is_valid());

    let also_bad = CreateVdevRequest::RaidZ(get_disks(1, FILE_PATH));
    assert!(!also_bad.is_valid());
}

#[test]
fn test_raid_validation_raidz2() {
    let vdev = CreateVdevRequest::RaidZ2(get_disks(5, FILE_PATH));
    assert!(vdev.is_valid());

    let also_vdev = CreateVdevRequest::RaidZ2(get_disks(8, FILE_PATH));
    assert!(also_vdev.is_valid());

    let bad = CreateVdevRequest::RaidZ2(get_disks(3, FILE_PATH));
    assert!(!bad.is_valid());

    let also_bad = CreateVdevRequest::RaidZ2(get_disks(1, FILE_PATH));
    assert!(!also_bad.is_valid());
}

#[test]
fn test_raid_validation_raidz3() {
    let vdev = CreateVdevRequest::RaidZ3(get_disks(8, FILE_PATH));
    assert!(vdev.is_valid());

    let also_vdev = CreateVdevRequest::RaidZ3(get_disks(10, FILE_PATH));
    assert!(also_vdev.is_valid());

    let bad = CreateVdevRequest::RaidZ3(get_disks(3, FILE_PATH));
    assert!(!bad.is_valid());

    let also_bad = CreateVdevRequest::RaidZ3(get_disks(0, FILE_PATH));
    assert!(!also_bad.is_valid());
}

#[test]
fn test_vdev_to_arg_naked() {
    let vdev = CreateVdevRequest::SingleDisk(FILE_PATH.to_string());

    let args = vdev.into_args();
    assert_eq!(vec![FILE_PATH.to_string()], args);
}

#[test]
fn test_vdev_to_arg_mirror() {
    let vdev = CreateVdevRequest::Mirror(get_disks(2, FILE_PATH));

    let args = vdev.into_args();
    let expected: Vec<String> = vec!["mirror".into(), FILE_PATH.into(), FILE_PATH.into()];
    assert_eq!(expected, args);
}

#[test]
fn test_vdev_to_arg_raidz() {
    let vdev = CreateVdevRequest::RaidZ(get_disks(3, FILE_PATH));

    let args = vdev.into_args();
    assert_eq!(4, args.len());
    assert_eq!("raidz", args[0]);
}

#[test]
fn test_vdev_to_arg_raidz2() {
    let vdev = CreateVdevRequest::RaidZ2(get_disks(5, FILE_PATH));

    let args = vdev.into_args();
    assert_eq!(6, args.len());
    assert_eq!("raidz2", args[0]);
}

#[test]
fn test_vdev_to_arg_raidz3() {
    let vdev = CreateVdevRequest::RaidZ3(get_disks(8, FILE_PATH));

    let args = vdev.into_args();
    assert_eq!(9, args.len());
    assert_eq!("raidz3", args[0]);
}

#[test]
fn short_versions_disk() {
    let name = "wat";
    let disk = CreateVdevRequest::SingleDisk(name.to_string());
    let disk_left = CreateVdevRequest::SingleDisk(name.to_string());

    assert_eq!(disk_left, disk);

    assert_eq!(disk_left, CreateVdevRequest::disk(name));
}

#[test]
fn test_path_eq_disk() {
    let path = "wat";
    let disk = Disk::builder().path("wat").health(Health::Online).build().unwrap();
    assert!(disk.has_path(path));
    assert_eq!(disk, Disk::builder().path(path).health(Health::Offline).build().unwrap());
}

#[test]
fn test_path_ne_disk() {
    let path = "wat";
    let disk = Disk::builder().path("notwat").health(Health::Online).build().unwrap();
    assert!(!disk.has_path(path));
    assert_ne!(disk, Disk::builder().path(path).health(Health::Online).build().unwrap());
}

#[test]
fn test_vdev_eq_vdev() {
    let disk = Disk::builder().path("notwat").health(Health::Online).build().unwrap();

    let left = Vdev::builder()
        .kind(VdevType::SingleDisk)
        .health(Health::Online)
        .disks(vec![disk.clone()])
        .build()
        .unwrap();
    assert_eq!(left, left.clone());
}

#[test]
fn test_vdev_ne_vdev() {
    let disk = Disk::builder().path("notwat").health(Health::Online).build().unwrap();

    let left = Vdev::builder()
        .kind(VdevType::SingleDisk)
        .health(Health::Online)
        .disks(vec![disk.clone()])
        .build()
        .unwrap();

    let right = Vdev::builder()
        .kind(VdevType::RaidZ)
        .health(Health::Online)
        .disks(vec![disk.clone()])
        .build()
        .unwrap();

    assert_ne!(left, right);

    let disk2 = Disk::builder().path("wat").health(Health::Online).build().unwrap();
    let right = Vdev::builder()
        .kind(VdevType::RaidZ)
        .health(Health::Online)
        .disks(vec![disk2])
        .build()
        .unwrap();

    assert_ne!(left, right);
}

#[test]
fn disk_builder_needs_path_and_health() {
    assert!(Disk::builder().path("a").build().is_err());
    assert!(Disk::builder().health(Health::Online).build().is_err());
    let disk = Disk::builder().path("a").health(Health::Faulted).build().unwrap();
    assert_eq!(&ErrorStatistics::default(), disk.error_statistics());
    assert!(disk.reason().is_none());
}

#[test]
fn disks_are_the_same_path_component_wise() {
    let a = Disk::builder().path("/dev/ada0/").health(Health::Online).build().unwrap();
    assert!(a.has_path("/dev//ada0"));
    assert!(a.has_path("/dev/./ada0"));
    assert!(!a.has_path("dev/ada0"));
}

#[test]
fn vdev_matches_request() {
    let disk = |p: &str| Disk::builder().path(p).health(Health::Online).build().unwrap();
    let mirror = Vdev::builder()
        .kind(VdevType::Mirror)
        .health(Health::Online)
        .disks(vec![disk("a"), disk("b")])
        .build()
        .unwrap();
    assert_eq!(mirror, CreateVdevRequest::Mirror(vec!["a".into(), "b".into()]));
    assert_ne!(mirror, CreateVdevRequest::Mirror(vec!["a".into()]));
    assert_ne!(mirror, CreateVdevRequest::RaidZ(vec!["a".into(), "b".into()]));
    let single = Vdev::builder()
        .kind(VdevType::SingleDisk)
        .health(Health::Online)
        .disks(vec![disk("a")])
        .build()
        .unwrap();
    assert_eq!(CreateVdevRequest::disk("a"), single);
}

#[test]
fn raid_type_names() {
    assert_eq!(VdevType::Mirror, VdevType::parse("mirror").unwrap());
    assert_eq!(VdevType::RaidZ, "raidz1".parse::<VdevType>().unwrap());
    assert_eq!(VdevType::RaidZ2, VdevType::parse("raidz2").unwrap());
    assert_eq!(VdevType::RaidZ3, VdevType::parse("raidz3").unwrap());
    assert!(VdevType::parse("raidz").is_err());
}
