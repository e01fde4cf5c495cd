use libzetta::zpool::{CreateVdevRequest, CreateZpoolRequest, Disk, Health, Vdev, VdevType, Zpool};

#[test]
fn test_eq_zpool() {
    let request = CreateZpoolRequest::builder()
        .name("wat")
        .zil(CreateVdevRequest::SingleDisk("hd0".into()))
        .cache("hd1")
        .build()
        .unwrap();
    let zpool = Zpool::builder()
        .name("wat")
        .health(Health::Online)
        .caches(vec![Disk::builder().path("hd1").health(Health::Online).build().unwrap()])
        .logs(vec![Vdev::builder()
            .kind(VdevType::SingleDisk)
            .health(Health::Online)
            .disks(vec![Disk::builder().path("hd0").health(Health::Online).build().unwrap()])
            .build()
            .unwrap()])
        .vdevs(vec![])
        .build()
        .unwrap();

    assert_eq!(request, zpool);
}

#[test]
fn test_ne_zpool() {
    let request = CreateZpoolRequest::builder()
        .name("wat")
        .zil(CreateVdevRequest::SingleDisk("hd0".into()))
        .build()
        .unwrap();
    let zpool = Zpool::builder().name("wat").health(Health::Online).vdevs(vec![]).build().unwrap();
    assert_ne!(request, zpool);
}

#[test]
fn zpool_builder_needs_name_health_and_vdevs() {
    assert!(Zpool::builder().name("a").health(Health::Online).build().is_err());
    assert!(Zpool::builder().name("a").vdevs(vec![]).build().is_err());
    assert!(Zpool::builder().health(Health::Online).vdevs(vec![]).build().is_err());
    let z = Zpool::builder().name("a").health(Health::Online).vdevs(vec![]).build().unwrap();
    assert_eq!(&None, z.id());
    assert!(z.caches().is_empty());
    assert_eq!(z, z.clone());
}
