use vstd::prelude::*;

verus! {

/// Disk tier detected from raw throughput. HDD and SSD are scored on separate
/// baselines so a 5400 RPM laptop HDD is not compared against NVMe constants.
#[derive(Debug, Clone, Copy, PartialEq, Eq, Structural)]
pub enum DiskTier {
    Hdd,
    Ssd,
}

/// Sequential throughput (MB/s) from which a device counts as solid state.
pub const SSD_MIN_SEQ_MBS: u64 = 350;

/// Random 4K read rate (IOPS) from which a device counts as solid state.
pub const SSD_MIN_RAND_IOPS: u64 = 2500;

/// Classification rule of the disk tier, over whole-number measurements.
pub open spec fn tier_of(seq_mbs: u64, rand_iops: u64) -> DiskTier {
    if seq_mbs >= SSD_MIN_SEQ_MBS || rand_iops >= SSD_MIN_RAND_IOPS {
        DiskTier::Ssd
    } else {
        DiskTier::Hdd
    }
}

/// Machine-readable name of a tier.
pub open spec fn tier_name(tier: DiskTier) -> Seq<char> {
    match tier {
        DiskTier::Hdd => "hdd"@,
        DiskTier::Ssd => "ssd"@,
    }
}

impl DiskTier {
    /// Machine-readable tier name, as written into the result document.
    pub fn as_str(self) -> (s: &'static str)
        ensures
            s@ == tier_name(self),
    {
        match self {
            DiskTier::Hdd => "hdd",
            DiskTier::Ssd => "ssd",
        }
    }

    /// Human-readable tier label shown in the UI.
    pub fn label(self) -> (s: &'static str)
        ensures
            self == DiskTier::Hdd ==> s@ == "机械硬盘 (HDD)"@,
            self == DiskTier::Ssd ==> s@ == "固态硬盘 (SSD)"@,
    {
        match self {
            DiskTier::Hdd => "机械硬盘 (HDD)",
            DiskTier::Ssd => "固态硬盘 (SSD)",
        }
    }
}

/// Classify the tested storage from unbuffered benchmark numbers.
///
/// The measurements are taken as whole numbers (the integer part of the
/// measured MB/s and IOPS): for a non-negative reading `x`, `x >= 350.0`
/// holds exactly when its integer part is at least 350, so the rule is the
/// same as on the raw readings.
pub fn detect_disk_tier(seq_mbs: u64, rand_iops: u64) -> (tier: DiskTier)
    ensures
        tier == tier_of(seq_mbs, rand_iops),
{
    if seq_mbs >= SSD_MIN_SEQ_MBS || rand_iops >= SSD_MIN_RAND_IOPS {
        DiskTier::Ssd
    } else {
        DiskTier::Hdd
    }
}

/// Sequential (MB/s) and random (IOPS) baselines that score 1000 for a tier.
pub open spec fn baselines_of(tier: DiskTier) -> (u64, u64) {
    match tier {
        DiskTier::Ssd => (1500, 12000),
        DiskTier::Hdd => (180, 270),
    }
}

/// The disk baselines used for a tier: mainstream SATA/NVMe for SSDs,
/// a 5400 RPM laptop drive for HDDs.
pub fn disk_baselines(tier: DiskTier) -> (b: (u64, u64))
    ensures
        b == baselines_of(tier),
{
    match tier {
        DiskTier::Ssd => (1500, 12000),
        DiskTier::Hdd => (180, 270),
    }
}

/// Faster measurements never demote a device from the SSD tier.
pub proof fn lemma_tier_monotone(seq_a: u64, rand_a: u64, seq_b: u64, rand_b: u64)
    requires
        seq_a <= seq_b,
        rand_a <= rand_b,
        tier_of(seq_a, rand_a) == DiskTier::Ssd,
    ensures
        tier_of(seq_b, rand_b) == DiskTier::Ssd,
{
}

/// Distinct tiers are written under distinct names, so the tier recorded in a
/// result document identifies the baseline that was used.
pub proof fn lemma_tier_names_distinct(a: DiskTier, b: DiskTier)
    requires
        a != b,
    ensures
        tier_name(a) != tier_name(b),
{
    reveal_strlit("hdd");
    reveal_strlit("ssd");
    assert("hdd"@[0] != "ssd"@[0]);
}

/// A device counts as solid state exactly when it reads at least 350 MB/s
/// sequentially or at least 2500 random IOPS.
pub proof fn lemma_tier_thresholds(seq_mbs: u64, rand_iops: u64)
    ensures
        tier_of(seq_mbs, rand_iops) == DiskTier::Ssd <==> (seq_mbs >= 350 || rand_iops >= 2500),
        tier_of(seq_mbs, rand_iops) == DiskTier::Hdd <==> (seq_mbs < 350 && rand_iops < 2500),
{
}

/// Hard disks are scored against lower baselines than solid-state drives,
/// so the same throughput scores higher on an HDD: 180 MB/s and 270 IOPS
/// against 1500 MB/s and 12000 IOPS.
pub proof fn lemma_baselines()
    ensures
        baselines_of(DiskTier::Hdd).0 < baselines_of(DiskTier::Ssd).0,
        baselines_of(DiskTier::Hdd).1 < baselines_of(DiskTier::Ssd).1,
        baselines_of(DiskTier::Hdd) == (180u64, 270u64),
        baselines_of(DiskTier::Ssd) == (1500u64, 12000u64),
{
}

} // verus!
