use libzetta::zfs::DatasetKind;
use libzetta::parsers::{StdoutParser, ZfsParser};
use libzetta::zpool::{CreateVdevRequest, CreateZpoolRequestBuilder, ErrorStatistics, Health, Reason};

#[test]
fn test_issue_78_minimal() {
    let line = "  scan: resilver in progress since Tue Aug 13 23:03:11 2019\n\t42.5K scanned at 42.5K/s, 80K issued at 80K/s, 83K total\n\t512 resilvered, 96.39% done, no estimated completion time\n";
    let span = StdoutParser::parse_scan_line(line).unwrap_or_else(|| panic!("no scan line"));
    let expected = "resilver in progress since Tue Aug 13 23:03:11 2019\n\t42.5K scanned at 42.5K/s, 80K issued at 80K/s, 83K total\n\t512 resilvered, 96.39% done, no estimated completion time\n";
    assert_eq!(expected, span);
}

#[test]
fn test_naked_good() {
    let stdout_valid_two_disks = r#"pool: naked_test
     id: 3364973538352047455
  state: ONLINE
 action: The pool can be imported using its name or numeric identifier.
 config:

        naked_test             ONLINE
          /vdevs/import/vdev0  ONLINE
          /vdevs/import/vdev1  ONLINE
          "#;
    let zpool = StdoutParser::parse_zpool(stdout_valid_two_disks).unwrap();
    assert_eq!("naked_test", zpool.name());
    assert_eq!(&Some(3364973538352047455), zpool.id());
    assert_eq!(&Health::Online, zpool.health());
    assert_eq!(
        &Some(String::from("The pool can be imported using its name or numeric identifier.\n")),
        zpool.action()
    );
    assert_eq!(2, zpool.vdevs().len());
    assert!(zpool.vdevs()[1].disks()[0].has_path("/vdevs/import/vdev1"));
}

#[test]
fn test_naked_bad() {
    let stdout_invalid_two_disks = r#"pool: naked_test
     id: 3364973538352047455
  state: UNAVAIL
 status: One or more devices are missing from the system.
 action: The pool cannot be imported. Attach the missing
        devices and try again.
   see: http://illumos.org/msg/ZFS-8000-6X
 config:

        naked_test             UNAVAIL  missing device
          /vdevs/import/vdev0  ONLINE

        Additional devices are known to be part of this pool, though their
        exact configuration cannot be determined.
        "#;

    let zpool = StdoutParser::parse_zpool(stdout_invalid_two_disks).unwrap();

    assert_eq!(&Health::Unavailable, zpool.health());

    assert_eq!(
        &Some(String::from(
            "The pool cannot be imported. Attach the missing
        devices and try again.\n"
        )),
        zpool.action()
    );

    assert_eq!(&Some(Reason::Other(String::from("missing device"))), zpool.reason());

    let vdev = &zpool.vdevs()[0];

    let disk = &vdev.disks()[0];
    assert_eq!(&Health::Online, vdev.health());
    assert!(disk.has_path("/vdevs/import/vdev0"));
    assert!(disk.reason().is_none());
    assert_eq!(&ErrorStatistics::default(), disk.error_statistics());
}

#[test]
fn test_multiple_import() {
    let stdout = r#"pool: naked_test
     id: 3364973538352047455
  state: ONLINE
 action: The pool can be imported using its name or numeric identifier.
 config:

        naked_test             ONLINE
          /vdevs/import/vdev0  ONLINE
          /vdevs/import/vdev1  ONLINE

     pool: naked_test2
     id: 3364973538352047455
  state: ONLINE
 action: The pool can be imported using its name or numeric identifier.
 config:

        naked_test             ONLINE
          /vdevs/import/vdev0  ONLINE
          /vdevs/import/vdev1  ONLINE
          "#;

    let zpools = StdoutParser::parse_zpools(stdout).unwrap();
    let mut zpools = zpools.into_iter();

    let first = zpools.next().unwrap();
    assert_eq!(first.name(), &String::from("naked_test"));

    let second = zpools.next().unwrap();
    assert_eq!(second.name(), &String::from("naked_test2"));

    let none = zpools.next();
    assert!(none.is_none());
}

#[test]
fn test_status_scrub() {
    let stdout = r#"  pool: bootpool
 state: ONLINE
status: Some supported features are not enabled on the pool. The pool can
        still be used, but some features are unavailable.
action: Enable all features using 'zpool upgrade'. Once this is done,
        the pool may no longer be accessible by software that does not support
        the features. See zpool-features(7) for details.
  scan: scrub repaired 0 in 0 days 00:00:00 with 0 errors on Tue Nov 28 02:04:11 2017
config:

        NAME        STATE     READ WRITE CKSUM
        bootpool    ONLINE       0     0     0
          nvd0p2    ONLINE       0     0     0

errors: No known data errors

  pool: z
 state: ONLINE
status: Some supported features are not enabled on the pool. The pool can
        still be used, but some features are unavailable.
action: Enable all features using 'zpool upgrade'. Once this is done,
        the pool may no longer be accessible by software that does not support
        the features. See zpool-features(7) for details.
  scan: scrub repaired 0 in 0 days 00:01:54 with 0 errors on Tue Nov 28 11:32:55 2017
config:

        NAME          STATE     READ WRITE CKSUM
        z             ONLINE       0     0     0
          nvd0p4.eli  ONLINE       0     0     0

errors: Pretend this is actual error
"#;

    let zpools = StdoutParser::parse_zpools(stdout).unwrap();
    let mut zpools = zpools.into_iter();
    let first = zpools.next().unwrap();
    assert_eq!(first.name(), &String::from("bootpool"));
    assert!(first.errors().is_none());
    let vdev = &first.vdevs()[0];
    let vdev_expected = CreateVdevRequest::SingleDisk(String::from("nvd0p2"));
    assert_eq!(vdev, &vdev_expected);

    let second = zpools.next().unwrap();
    assert_eq!(second.name(), &String::from("z"));

    assert!(second.errors().is_some());

    let none = zpools.next();
    assert!(none.is_none());
}

#[test]
fn test_no_status_line_in_status() {
    let stdout = r#"  pool: tests-12167169401705616934
 state: ONLINE
  scan: none requested
config:

        NAME                   STATE     READ WRITE CKSUM
        tests-12167169401705616934  ONLINE       0     0     0
          /vdevs/import/vdev0  ONLINE       0     0     0

errors: No known data errors
"#;

    let zpools = StdoutParser::parse_zpools(stdout).unwrap();
    let first = &zpools[0];
    assert_eq!(first.name(), &String::from("tests-12167169401705616934"));

    let vdev = &first.vdevs()[0];
    let vdev_expected = CreateVdevRequest::SingleDisk(String::from("/vdevs/import/vdev0"));
    assert_eq!(&vdev_expected, vdev);
}

#[test]
fn test_raided_vdev_status() {
    let stdout = r#"  pool: eden
 state: ONLINE
  scan: scrub repaired 0 in 0 days 07:28:14 with 0 errors on Thu Dec 20 07:28:14 2018
config:

        NAME                                            STATE     READ WRITE CKSUM
        eden                                            ONLINE       0     0     0
          mirror-0                                      ONLINE       0     0     0
            gptid/d27f8063-d17d-11e4-9eed-10c37b9d936f  ONLINE       0     0     0
            gptid/d2fd0492-d17d-11e4-9eed-10c37b9d936f  ONLINE       0     0     0
          raidz1-1                                      ONLINE       0     0     0
            gptid/d27f8063-d17d-11e4-9eed-10c37b9d936f  ONLINE       0     0     0
            gptid/d2fd0492-d17d-11e4-9eed-10c37b9d936f  ONLINE       0     0     0
            gptid/d37ba27f-d17d-11e4-9eed-10c37b9d936f  ONLINE       0     0     0
            gptid/d3fccc31-d17d-11e4-9eed-10c37b9d936f  ONLINE       0     0     0
            gptid/d47c7a14-d17d-11e4-9eed-10c37b9d936f  ONLINE       0     0     0
          raidz2-2                                      ONLINE       0     0     0
            gptid/d27f8063-d17d-11e4-9eed-10c37b9d936f  ONLINE       0     0     0
            gptid/d2fd0492-d17d-11e4-9eed-10c37b9d936f  ONLINE       0     0     0
            gptid/d37ba27f-d17d-11e4-9eed-10c37b9d936f  ONLINE       0     0     0
            gptid/d3fccc31-d17d-11e4-9eed-10c37b9d936f  ONLINE       0     0     0
            gptid/d47c7a14-d17d-11e4-9eed-10c37b9d936f  ONLINE       0     0     0
          raidz3-3                                      ONLINE       0     0     0
            gptid/d27f8063-d17d-11e4-9eed-10c37b9d936f  ONLINE       0     0     0
            gptid/d2fd0492-d17d-11e4-9eed-10c37b9d936f  ONLINE       0     0     0
            gptid/d37ba27f-d17d-11e4-9eed-10c37b9d936f  ONLINE       0     0     0
            gptid/d3fccc31-d17d-11e4-9eed-10c37b9d936f  ONLINE       0     0     0
            gptid/d47c7a14-d17d-11e4-9eed-10c37b9d936f  ONLINE       0     0     0

errors: No known data errors
"#;
    let zpool = StdoutParser::parse_zpool(stdout).unwrap();

    let mirror_drives = vec![
        String::from("gptid/d27f8063-d17d-11e4-9eed-10c37b9d936f"),
        String::from("gptid/d2fd0492-d17d-11e4-9eed-10c37b9d936f"),
    ];
    let drives = vec![
        String::from("gptid/d27f8063-d17d-11e4-9eed-10c37b9d936f"),
        String::from("gptid/d2fd0492-d17d-11e4-9eed-10c37b9d936f"),
        String::from("gptid/d37ba27f-d17d-11e4-9eed-10c37b9d936f"),
        String::from("gptid/d3fccc31-d17d-11e4-9eed-10c37b9d936f"),
        String::from("gptid/d47c7a14-d17d-11e4-9eed-10c37b9d936f"),
    ];
    let topo = CreateZpoolRequestBuilder::default()
        .name("eden")
        .vdevs(vec![
            CreateVdevRequest::Mirror(mirror_drives.clone()),
            CreateVdevRequest::RaidZ(drives.clone()),
            CreateVdevRequest::RaidZ2(drives.clone()),
            CreateVdevRequest::RaidZ3(drives.clone()),
        ])
        .build()
        .unwrap();
    assert_eq!(&topo, &zpool);
}

#[test]
fn test_degraded_mirror() {
    let stdout = r#"  pool: test
 state: DEGRADED
status: One or more devices has been taken offline by the administrator.
        Sufficient replicas exist for the pool to continue functioning in a
        degraded state.
action: Online the device using 'zpool online' or replace the device with
        'zpool replace'.
  scan: none requested
config:

        NAME                      STATE     READ WRITE CKSUM
        test                      DEGRADED     1     2     3
          mirror-0                DEGRADED     1     2     3
            14808325297596192025  OFFLINE      0     0     0  was /vdevs/vdev0
            /vdevs/vdev1          ONLINE       1     2     3

errors: No known data errors
"#;
    let expected_errors = ErrorStatistics { read: 1, write: 2, checksum: 3 };
    let zpool = StdoutParser::parse_zpool(stdout).unwrap();
    assert_eq!(&Health::Degraded, zpool.health());
    assert_eq!(&expected_errors, zpool.error_statistics());

    let mirror = &zpool.vdevs()[0];
    assert_eq!(&Health::Degraded, mirror.health());
    assert_eq!(&expected_errors, mirror.error_statistics());

    let first_disk = &mirror.disks()[0];

    assert_eq!(&Health::Offline, first_disk.health());
    assert_eq!(&ErrorStatistics::default(), first_disk.error_statistics());
    assert_eq!(&Some(Reason::Other(String::from("was /vdevs/vdev0"))), first_disk.reason());

    let second_disk = &mirror.disks()[1];
    assert_eq!(&Health::Online, second_disk.health());
    assert_eq!(&expected_errors, second_disk.error_statistics());
}

#[test]
fn test_zpools_on_single_zpool() {
    let stdout = r#"  pool: test
 state: DEGRADED
status: One or more devices has been taken offline by the administrator.
        Sufficient replicas exist for the pool to continue functioning in a
        degraded state.
action: Online the device using 'zpool online' or replace the device with
        'zpool replace'.
  scan: none requested
config:

        NAME                      STATE     READ WRITE CKSUM
        test                      DEGRADED     0     0     0
          mirror-0                DEGRADED     0     0     0
            14808325297596192025  OFFLINE      0     0     0  was /vdevs/vdev0
            /vdevs/vdev1          ONLINE       0     0     0

errors: No known data errors
"#;
    let zpools = StdoutParser::parse_zpools(stdout).unwrap();
    let zpool = &zpools[0];
    assert_eq!(&Health::Degraded, zpool.health());
}

#[test]
fn test_tabs_instead_of_8_spaces() {
    let stdout = "  pool: tests-5810578167377116542\n state: DEGRADED\nstatus: One or more devices has been taken offline by the administrator.\n\tSufficient replicas exist for the pool to continue functioning in a\n\tdegraded state.\naction: Online the device using \'zpool online\' or replace the device with\n\t\'zpool replace\'.\n  scan: none requested\nconfig:\n\n\tNAME                      STATE     READ WRITE CKSUM\n\ttests-5810578167377116542  DEGRADED     0     0     0\n\t  mirror-0                DEGRADED     0     0     0\n\t    15825580777360392022  OFFLINE      0     0     0  was /vdevs/vdev3\n\t    /vdevs/vdev4          ONLINE       0     0     0\n\nerrors: No known data errors\n";
    let zpool = StdoutParser::parse_zpool(stdout).unwrap();
    assert_eq!(&Health::Degraded, zpool.health());
}

#[test]
fn test_zpool_with_cache_and_log() {
    let stdout = r#"  pool: hell
 state: ONLINE
  scan: none requested
config:

        NAME              STATE     READ WRITE CKSUM
        test-123          ONLINE       0     0     0
          /vdevs/vdev0    ONLINE       0     0     0
        logs
          mirror-1        ONLINE       0     0     0
            /vdevs/vdev1  ONLINE       0     0     0
            /vdevs/vdev2  ONLINE       0     0     0
        cache
          md1             ONLINE       0     0     0


errors: No known data errors
        "#;

    let zpools = StdoutParser::parse_zpools(stdout).unwrap();
    let zpool = &zpools[0];
    let topo = CreateZpoolRequestBuilder::default()
        .name("hell")
        .vdev(CreateVdevRequest::SingleDisk(String::from("/vdevs/vdev0")))
        .cache("md1")
        .zil(CreateVdevRequest::Mirror(vec![String::from("/vdevs/vdev1"), String::from("/vdevs/vdev2")]))
        .build()
        .unwrap();

    assert_eq!(&topo, zpool);
}

#[test]
fn correctly_parses_vdevs() {
    let stdout = "  pool: z\n state: ONLINE\n  scan: scrub repaired 0 in 0 days 02:27:20 with 0 errors on Sat Oct 19 05:27:21 2019\nconfig:\n\n\tNAME                           STATE     READ WRITE CKSUM\n\tz                              ONLINE       0     0     0\n\t  mirror-0                     ONLINE       0     0     0\n\t    /dev/diskid/DISK-ZCT2K2R6  ONLINE       0     0     0\n\t    /dev/diskid/DISK-ZCT2QVET  ONLINE       0     0     0\n\t  mirror-1                     ONLINE       0     0     0\n\t    /dev/diskid/DISK-WSD6B5L6  ONLINE       0     0     0\n\t    /dev/diskid/DISK-ZCT2QWL9  ONLINE       0     0     0\n\t  mirror-2                     ONLINE       0     0     0\n\t    /dev/diskid/DISK-ZCT2QXEL  ONLINE       0     0     0\n\t    /dev/diskid/DISK-ZCT2RH0W  ONLINE       0     0     0\n\nerrors: No known data errors\n";
    let zpools = StdoutParser::parse_zpools(stdout).unwrap();
    let drives = &zpools[0]
        .vdevs()
        .iter()
        .flat_map(|vdev| vdev.disks().iter())
        .map(|drive| drive.path().to_string())
        .collect::<Vec<String>>();

    let expected: Vec<String> = [
        "/dev/diskid/DISK-ZCT2K2R6",
        "/dev/diskid/DISK-ZCT2QVET",
        "/dev/diskid/DISK-WSD6B5L6",
        "/dev/diskid/DISK-ZCT2QWL9",
        "/dev/diskid/DISK-ZCT2QXEL",
        "/dev/diskid/DISK-ZCT2RH0W",
    ]
    .iter()
    .map(|d| d.to_string())
    .collect();
    assert_eq!(&expected, drives);
}

#[test]
fn malformed_reports_are_parse_errors() {
    assert!(StdoutParser::parse_zpools("garbage before any pool\n").is_err());
    assert!(StdoutParser::parse_zpools("  pool: a\n state: ONLINE\n").is_err());
    assert!(StdoutParser::parse_zpools("  pool: a\n state: SLEEPY\nconfig:\n\n\ta ONLINE\n").is_err());
    assert!(StdoutParser::parse_zpools("  pool: a\n state: ONLINE\nconfig:\n\n\ta ONLINE\n\t  b WHAT\n").is_err());
    assert!(StdoutParser::parse_zpool("").is_err());
    assert_eq!(0, StdoutParser::parse_zpools("\n\n").unwrap().len());
}

#[test]
fn counts_that_are_not_numbers_saturate() {
    let stdout = "  pool: a\n state: ONLINE\nconfig:\n\n\ta ONLINE 1.2K 0 3\n\t  b ONLINE 0 0 0\n";
    let zpool = StdoutParser::parse_zpool(stdout).unwrap();
    assert_eq!(&ErrorStatistics { read: u64::MAX, write: 0, checksum: 3 }, zpool.error_statistics());
}

#[test]
fn spares_section() {
    let stdout = "  pool: a\n state: ONLINE\nconfig:\n\n\ta ONLINE\n\t  b ONLINE\n\tspares\n\t  c ONLINE\n\t  d ONLINE\n";
    let zpool = StdoutParser::parse_zpool(stdout).unwrap();
    assert_eq!(2, zpool.spares().len());
    assert!(zpool.spares()[1].has_path("d"));
}

#[test]
fn test_parse_dataset_not_found() {
    let line = "cannot open 's/asd/asd': dataset does not exist";
    let name = ZfsParser::parse_dataset_not_found(line);
    assert!(name.is_some());
    assert_eq!("s/asd/asd", name.unwrap());
}

#[test]
fn test_parse_datasets() {
    let lines = "s\ns/s/s/s\ns/d@test";
    let expected = ["s", "s/s/s/s", "s/d@test"];

    let datasets = ZfsParser::parse_datasets(lines).unwrap();
    assert_eq!(3, datasets.len());

    for (idx, name) in datasets.iter().enumerate() {
        assert_eq!(expected[idx], name);
    }
}

#[test]
fn test_parse_filesystem_name_root() {
    assert_eq!("z", ZfsParser::parse_dataset_name("z").unwrap());
}

#[test]
fn test_parse_filesystem_name_nested() {
    assert_eq!("z/foo/bar", ZfsParser::parse_dataset_name("z/foo/bar").unwrap());
}

#[test]
fn test_parse_filesystem_name_root_snapshot() {
    let name = ZfsParser::parse_dataset_name("z@backup-20190707").unwrap();
    assert_eq!(17, name.len());
    assert_eq!("z@backup-20190707", name);
}

#[test]
fn test_parse_filesystem_name_nexted_snapshot() {
    let name = ZfsParser::parse_dataset_name("z/foo/bar@backup-20190707").unwrap();
    assert_eq!(25, name.len());
    assert_eq!("z/foo/bar@backup-20190707", name);
}

#[test]
fn datasets_with_their_kinds() {
    let list = ZfsParser::parse_datasets_with_type("filesystem\tz\nvolume\tz/vol\nsnapshot\tz@a\n").unwrap();
    assert_eq!(
        vec![
            (DatasetKind::Filesystem, String::from("z")),
            (DatasetKind::Volume, String::from("z/vol")),
            (DatasetKind::Snapshot, String::from("z@a")),
        ],
        list
    );
    assert!(ZfsParser::parse_datasets_with_type("bookmark\tz#a\n").is_none());
    assert!(ZfsParser::parse_datasets("a\n\nb\n").is_none());
}
