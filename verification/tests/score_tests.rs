use bench_agent::score::{detect_disk_tier, disk_baselines, DiskTier};

#[test]
fn hdd_laptop_readings_use_hdd_tier() {
    // 130 MB/s sequential, 230 IOPS random: a 5400 RPM laptop drive.
    assert_eq!(detect_disk_tier(130, 230), DiskTier::Hdd);
}

#[test]
fn mainstream_ssd_readings_use_ssd_tier() {
    assert_eq!(detect_disk_tier(1500, 12000), DiskTier::Ssd);
}

#[test]
fn tier_thresholds_are_inclusive() {
    assert_eq!(detect_disk_tier(349, 2499), DiskTier::Hdd);
    assert_eq!(detect_disk_tier(350, 0), DiskTier::Ssd);
    assert_eq!(detect_disk_tier(0, 2500), DiskTier::Ssd);
    assert_eq!(detect_disk_tier(0, 0), DiskTier::Hdd);
}

#[test]
fn faster_readings_keep_ssd_tier() {
    assert_eq!(detect_disk_tier(350, 10), DiskTier::Ssd);
    assert_eq!(detect_disk_tier(5000, 50000), DiskTier::Ssd);
}

#[test]
fn tier_names_and_labels() {
    assert_eq!(DiskTier::Hdd.as_str(), "hdd");
    assert_eq!(DiskTier::Ssd.as_str(), "ssd");
    assert_eq!(DiskTier::Hdd.label(), "机械硬盘 (HDD)");
    assert_eq!(DiskTier::Ssd.label(), "固态硬盘 (SSD)");
    assert_ne!(DiskTier::Hdd.as_str(), DiskTier::Ssd.as_str());
}

#[test]
fn tier_baselines() {
    assert_eq!(disk_baselines(DiskTier::Ssd), (1500, 12000));
    assert_eq!(disk_baselines(DiskTier::Hdd), (180, 270));
}
