use rusty_robot::scan::{ScanEntry, ScanResults, MAX_SCAN_RESULTS};

#[test]
fn replaces_lowest_rssi_entry() {
    // setup
    let mut scan_results = ScanResults::new();
    // act
    for i in 0..(MAX_SCAN_RESULTS + 1) {
        scan_results.push(ScanEntry {
            bssid: Default::default(),
            rssi: i as i8,
        });
    }
    // assert that lowest rssi entry was replaced
    assert_eq!(
        scan_results.get(0).rssi,
        (MAX_SCAN_RESULTS as i8),
        "didn't replace lower rssi"
    );
}

#[test]
fn eviction_keeps_top_strengths() {
    let mut cache = ScanResults::new();
    for i in 0..5u8 {
        cache.push(ScanEntry {
            bssid: [i; 6],
            rssi: i as i8,
        });
    }
    assert_eq!(cache.len(), 4);
    let strongest_first: Vec<i8> = (0..cache.len()).map(|k| cache.get(k).rssi).collect();
    assert_eq!(strongest_first, vec![4, 3, 2, 1]);
    for k in 0..cache.len() {
        assert_ne!(cache.get(k).rssi, 0, "the weakest record was not evicted");
        assert_eq!(cache.get(k).bssid, [cache.get(k).rssi as u8; 6]);
    }
}

#[test]
fn weaker_record_into_full_cache_is_dropped() {
    let mut cache = ScanResults::new();
    for rssi in [-40i8, -50, -60, -70] {
        cache.push(ScanEntry {
            bssid: [rssi as u8; 6],
            rssi,
        });
    }
    let before: Vec<(
        [u8; 6],
        i8,
    )> = (0..cache.len()).map(|k| (cache.get(k).bssid, cache.get(k).rssi)).collect();
    cache.push(ScanEntry {
        bssid: [9; 6],
        rssi: -90,
    });
    let after: Vec<(
        [u8; 6],
        i8,
    )> = (0..cache.len()).map(|k| (cache.get(k).bssid, cache.get(k).rssi)).collect();
    assert_eq!(before, after, "a too-weak record changed a full cache");
}

#[test]
fn ordering_holds_after_each_insert() {
    let mut cache = ScanResults::new();
    for rssi in [-55i8, -40, -70, -40, -63, -20, -81, 0] {
        cache.push(ScanEntry {
            bssid: [0; 6],
            rssi,
        });
        assert!(cache.len() <= MAX_SCAN_RESULTS);
        for k in 1..cache.len() {
            assert!(
                cache.get(k - 1).rssi >= cache.get(k).rssi,
                "cache not sorted descending"
            );
        }
    }
}

#[test]
fn equal_strength_appends_until_full() {
    let mut cache = ScanResults::new();
    for i in 0..3u8 {
        cache.push(ScanEntry {
            bssid: [i; 6],
            rssi: -50,
        });
    }
    assert_eq!(cache.len(), 3);
    // equal strength does not displace earlier records of the same strength
    assert_eq!(cache.get(0).bssid, [0; 6]);
    assert_eq!(cache.get(1).bssid, [1; 6]);
    assert_eq!(cache.get(2).bssid, [2; 6]);
}

#[test]
fn from_scan_of_nothing_is_empty() {
    let cache = ScanResults::from_scan(&Vec::new());
    assert_eq!(cache.len(), 0);
}

#[test]
fn from_scan_ranks_like_repeated_push() {
    let peers = vec![
        ScanEntry {
            bssid: [1; 6],
            rssi: -70,
        },
        ScanEntry {
            bssid: [2; 6],
            rssi: -40,
        },
        ScanEntry {
            bssid: [3; 6],
            rssi: -55,
        },
    ];
    let drained = ScanResults::from_scan(&peers);
    let mut pushed = ScanResults::new();
    for p in &peers {
        pushed.push(*p);
    }
    assert_eq!(drained.len(), pushed.len());
    for k in 0..drained.len() {
        assert_eq!(drained.get(k).bssid, pushed.get(k).bssid);
        assert_eq!(drained.get(k).rssi, pushed.get(k).rssi);
    }
    assert_eq!(drained.get(0).rssi, -40);
    assert_eq!(drained.get(1).rssi, -55);
    assert_eq!(drained.get(2).rssi, -70);
}
