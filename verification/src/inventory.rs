use vstd::prelude::*;
use crate::hardware::{
    clean_field_text, field_value_of, pick_primary_gpu, primary_gpu_of, DmiOverrides, Motherboard,
    SystemInfo,
};
use crate::text::{decimal_text, has_substring, int_text, occurs_at, parse_u64, u64_of_text};

verus! {

/// A JSON member that PowerShell's `ConvertTo-Json` writes as an array, as a
/// single object when the collection has one element, or as null/absent
/// when it is empty.
pub enum JsonList<T> {
    Many(Vec<T>),
    One(T),
    Absent,
}

/// The elements a `JsonList` stands for.
pub open spec fn list_items<T>(l: JsonList<T>) -> Seq<T> {
    match l {
        JsonList::Many(v) => v@,
        JsonList::One(x) => seq![x],
        JsonList::Absent => Seq::empty(),
    }
}

/// Normalize the three shapes of a collection into a list.
pub fn as_array<T>(l: JsonList<T>) -> (v: Vec<T>)
    ensures
        v@ == list_items(l),
{
    match l {
        JsonList::Many(v) => v,
        JsonList::One(x) => {
            let mut v: Vec<T> = Vec::new();
            v.push(x);
            v
        },
        JsonList::Absent => Vec::new(),
    }
}

// Raw inventory as read from the platform: each text member is `Some` when
// the JSON member is a string, each number member when it is an integer.
// Byte-count members are read from their text as a floating-point number of
// bytes and given here in tenths of a GB, rounded half away from zero; they
// are `None` when the text is absent or is not a number.

pub struct SystemRecord {
    pub manufacturer: Option<String>,
    pub model: Option<String>,
    pub family: Option<String>,
    /// Installed physical memory, in tenths of a GB.
    pub total_memory: Option<i64>,
}

pub struct CpuRecord {
    pub name: Option<String>,
    pub max_clock: Option<i64>,
    pub cores: Option<i64>,
    pub threads: Option<i64>,
}

pub struct BoardRecord {
    pub manufacturer: Option<String>,
    pub product: Option<String>,
    pub version: Option<String>,
    pub serial: Option<String>,
}

pub struct MemoryRecord {
    pub slot: Option<String>,
    pub manufacturer: Option<String>,
    pub part_number: Option<String>,
    /// Module size, in tenths of a GB.
    pub capacity: Option<i64>,
    pub speed: Option<String>,
    pub serial: Option<String>,
}

pub struct GpuRecord {
    pub name: Option<String>,
    /// Adapter memory, in tenths of a GB.
    pub vram: Option<i64>,
    pub driver: Option<String>,
}

pub struct DiskRecord {
    pub model: Option<String>,
    pub serial: Option<String>,
    /// Drive size, in tenths of a GB.
    pub size: Option<i64>,
    pub media: Option<String>,
    pub iface: Option<String>,
}

/// The platform's hardware inventory document.
pub struct InventoryRecord {
    pub bios_release_date: Option<String>,
    pub system_year: Option<i64>,
    pub os: Option<String>,
    pub system: Option<SystemRecord>,
    pub cpu: Option<CpuRecord>,
    pub motherboard: Option<BoardRecord>,
    pub memory: JsonList<MemoryRecord>,
    pub gpus: JsonList<GpuRecord>,
    pub disks: JsonList<DiskRecord>,
}

/// One installed memory module. Sizes are in tenths of a GB.
pub struct ModuleInfo {
    pub slot: String,
    pub manufacturer: String,
    pub part_number: String,
    pub capacity_tenths_gb: i64,
    pub speed_mhz: u64,
    pub serial: String,
}

/// One display adapter.
pub struct GpuInfo {
    pub name: String,
    pub vram_tenths_gb: i64,
    pub driver_version: String,
}

/// One disk drive.
pub struct DiskInfo {
    pub model: String,
    pub serial: String,
    pub size_tenths_gb: i64,
    pub media_type: String,
    pub interface_type: String,
}

/// Detailed hardware identity of a result.
pub struct HwInventory {
    pub system: Option<SystemInfo>,
    pub motherboard: Option<Motherboard>,
    pub bios_release_date: Option<String>,
    pub memory_modules: Vec<ModuleInfo>,
    pub gpus: Vec<GpuInfo>,
    pub disks: Vec<DiskInfo>,
    pub system_est_production_year: Option<i32>,
    /// Human-readable notes explaining how each estimate was derived.
    pub notes: Vec<String>,
}

/// Note on what cannot be read from user space.
pub const SPD_NOTE: &'static str = "内存/磁盘的精确生产周年存于 SPD/SMART，用户态无法直接读取；上方展示的是真实批次标识（厂商/料号/序列号）。";

/// The view of an optional text.
pub open spec fn opt_text(o: Option<String>) -> Option<Seq<char>> {
    match o {
        Some(s) => Some(s@),
        None => None,
    }
}

/// A text member after cleaning: trimmed, absent when blank.
pub open spec fn cleaned(raw: Option<String>) -> Option<Seq<char>> {
    match raw {
        Some(s) => field_value_of(s@),
        None => None,
    }
}

/// A cleaned text member, or the empty text.
pub open spec fn cleaned_or_empty(raw: Option<String>) -> Seq<char> {
    match cleaned(raw) {
        Some(t) => t,
        None => Seq::empty(),
    }
}

/// A cleaned text member read as an unsigned number.
pub open spec fn count_of(raw: Option<String>) -> Option<u64> {
    match cleaned(raw) {
        Some(t) => u64_of_text(t),
        None => None,
    }
}

/// A size member in tenths of a GB; 0 when the size was not a number.
pub open spec fn tenths_or_zero(t: Option<i64>) -> i64 {
    match t {
        Some(v) => v,
        None => 0,
    }
}

pub open spec fn module_of(r: MemoryRecord, m: ModuleInfo) -> bool {
    &&& m.slot@ == cleaned_or_empty(r.slot)
    &&& m.manufacturer@ == cleaned_or_empty(r.manufacturer)
    &&& m.part_number@ == cleaned_or_empty(r.part_number)
    &&& m.capacity_tenths_gb == tenths_or_zero(r.capacity)
    &&& m.speed_mhz == (match count_of(r.speed) {
        Some(v) => v,
        None => 0,
    })
    &&& m.serial@ == cleaned_or_empty(r.serial)
}

pub open spec fn gpu_of(r: GpuRecord, g: GpuInfo) -> bool {
    &&& g.name@ == cleaned_or_empty(r.name)
    &&& g.vram_tenths_gb == tenths_or_zero(r.vram)
    &&& g.driver_version@ == cleaned_or_empty(r.driver)
}

pub open spec fn disk_of(r: DiskRecord, d: DiskInfo) -> bool {
    &&& d.model@ == cleaned_or_empty(r.model)
    &&& d.serial@ == cleaned_or_empty(r.serial)
    &&& d.size_tenths_gb == tenths_or_zero(r.size)
    &&& d.media_type@ == cleaned_or_empty(r.media)
    &&& d.interface_type@ == cleaned_or_empty(r.iface)
}

pub open spec fn system_of(r: SystemRecord, s: SystemInfo) -> bool {
    &&& s.manufacturer@ == cleaned_or_empty(r.manufacturer)
    &&& s.model@ == cleaned_or_empty(r.model)
    &&& s.family@ == cleaned_or_empty(r.family)
}

pub open spec fn board_of(r: BoardRecord, b: Motherboard) -> bool {
    &&& b.manufacturer@ == cleaned_or_empty(r.manufacturer)
    &&& b.product@ == cleaned_or_empty(r.product)
    &&& b.version@ == cleaned_or_empty(r.version)
    &&& b.serial@ == cleaned_or_empty(r.serial)
}

/// Sum of the capacities of the first `n` modules, in tenths of a GB.
pub open spec fn modules_tenths_sum(items: Seq<MemoryRecord>, n: nat) -> int
    decreases n,
{
    if n == 0 || n > items.len() {
        0
    } else {
        modules_tenths_sum(items, (n - 1) as nat) + tenths_or_zero(items[n - 1].capacity)
    }
}

/// The OS-reported physical memory in tenths of a GB.
pub open spec fn physical_tenths_of(rec: InventoryRecord) -> Option<i128> {
    match rec.system {
        Some(s) => match s.total_memory {
            Some(t) => Some(t as i128),
            None => None,
        },
        None => None,
    }
}

/// Installed memory: the sum of the modules when positive, else the
/// OS-reported total.
pub open spec fn total_memory_of(rec: InventoryRecord) -> Option<i128> {
    let items = list_items(rec.memory);
    let sum = modules_tenths_sum(items, items.len());
    if sum > 0 {
        Some(sum as i128)
    } else {
        physical_tenths_of(rec)
    }
}

/// Cleaned names of the display adapters.
pub open spec fn gpu_names_of(rec: InventoryRecord) -> Seq<Seq<char>> {
    let items = list_items(rec.gpus);
    Seq::new(items.len(), |i: int| cleaned_or_empty(items[i].name))
}

/// The production year estimated from the BIOS date.
pub open spec fn year_of(rec: InventoryRecord) -> Option<i32> {
    match rec.system_year {
        Some(y) => Some(y as i32),
        None => None,
    }
}

/// Note on the production year estimated from the BIOS release date.
pub open spec fn year_note_of(year: i32, bios: Option<Seq<char>>) -> Seq<char> {
    "整机生产年份约为 "@ + decimal_text(year as int) + " 年（依据 BIOS 发布日期 "@ + (match bios {
        Some(d) => d,
        None => "未知"@,
    }) + "，为估算值）。"@
}

pub open spec fn opt_u64_of(o: Option<i64>) -> Option<u64> {
    match o {
        Some(x) => Some(x as u64),
        None => None,
    }
}

pub open spec fn opt_usize_of(o: Option<i64>) -> Option<usize> {
    match o {
        Some(x) => Some(x as usize),
        None => None,
    }
}

/// The authoritative values of an inventory.
pub open spec fn overrides_of(rec: InventoryRecord, ov: DmiOverrides) -> bool {
    &&& opt_text(ov.os) == cleaned(rec.os)
    &&& ov.total_mem_tenths_gb == total_memory_of(rec)
    &&& opt_text(ov.gpu_name) == primary_gpu_of(gpu_names_of(rec))
    &&& match rec.cpu {
        Some(c) => {
            &&& opt_text(ov.cpu_name) == cleaned(c.name)
            &&& ov.cpu_max_clock_mhz == opt_u64_of(c.max_clock)
            &&& ov.cpu_cores == opt_usize_of(c.cores)
            &&& ov.cpu_threads == opt_usize_of(c.threads)
        },
        None => {
            &&& ov.cpu_name is None
            &&& ov.cpu_max_clock_mhz is None
            &&& ov.cpu_cores is None
            &&& ov.cpu_threads is None
        },
    }
}

/// The detailed identity of an inventory.
pub open spec fn detail_of(rec: InventoryRecord, hw: HwInventory) -> bool {
    &&& match rec.system {
        Some(r) => hw.system matches Some(s) && system_of(r, s),
        None => hw.system is None,
    }
    &&& match rec.motherboard {
        Some(r) => hw.motherboard matches Some(b) && board_of(r, b),
        None => hw.motherboard is None,
    }
    &&& opt_text(hw.bios_release_date) == cleaned(rec.bios_release_date)
    &&& hw.memory_modules@.len() == list_items(rec.memory).len()
    &&& forall|i: int|
        0 <= i < hw.memory_modules@.len() ==> module_of(
            list_items(rec.memory)[i],
            #[trigger] hw.memory_modules@[i],
        )
    &&& hw.gpus@.len() == list_items(rec.gpus).len()
    &&& forall|i: int|
        0 <= i < hw.gpus@.len() ==> gpu_of(list_items(rec.gpus)[i], #[trigger] hw.gpus@[i])
    &&& hw.disks@.len() == list_items(rec.disks).len()
    &&& forall|i: int|
        0 <= i < hw.disks@.len() ==> disk_of(list_items(rec.disks)[i], #[trigger] hw.disks@[i])
    &&& hw.system_est_production_year == year_of(rec)
    &&& match year_of(rec) {
        Some(y) => {
            &&& hw.notes@.len() == 2
            &&& hw.notes@[0]@ == year_note_of(y, cleaned(rec.bios_release_date))
            &&& hw.notes@[1]@ == SPD_NOTE@
        },
        None => {
            &&& hw.notes@.len() == 1
            &&& hw.notes@[0]@ == SPD_NOTE@
        },
    }
}

/// A text member after cleaning.
pub fn str_field(raw: &Option<String>) -> (v: Option<String>)
    ensures
        opt_text(v) == cleaned(*raw),
{
    match raw {
        Some(s) => clean_field_text(s.as_str()),
        None => None,
    }
}

fn text_or_empty(raw: &Option<String>) -> (s: String)
    ensures
        s@ == cleaned_or_empty(*raw),
{
    match str_field(raw) {
        Some(s) => s,
        None => String::new(),
    }
}

fn count_field(raw: &Option<String>) -> (v: Option<u64>)
    ensures
        v == count_of(*raw),
{
    match str_field(raw) {
        Some(s) => parse_u64(s.as_str()),
        None => None,
    }
}

fn tenths_field(t: &Option<i64>) -> (v: i64)
    ensures
        v == tenths_or_zero(*t),
{
    match t {
        Some(v) => *v,
        None => 0,
    }
}

fn module_info(r: &MemoryRecord) -> (m: ModuleInfo)
    ensures
        module_of(*r, m),
{
    ModuleInfo {
        slot: text_or_empty(&r.slot),
        manufacturer: text_or_empty(&r.manufacturer),
        part_number: text_or_empty(&r.part_number),
        capacity_tenths_gb: tenths_field(&r.capacity),
        speed_mhz: match count_field(&r.speed) {
            Some(v) => v,
            None => 0,
        },
        serial: text_or_empty(&r.serial),
    }
}

fn gpu_info(r: &GpuRecord) -> (g: GpuInfo)
    ensures
        gpu_of(*r, g),
{
    GpuInfo {
        name: text_or_empty(&r.name),
        vram_tenths_gb: tenths_field(&r.vram),
        driver_version: text_or_empty(&r.driver),
    }
}

fn disk_info(r: &DiskRecord) -> (d: DiskInfo)
    ensures
        disk_of(*r, d),
{
    DiskInfo {
        model: text_or_empty(&r.model),
        serial: text_or_empty(&r.serial),
        size_tenths_gb: tenths_field(&r.size),
        media_type: text_or_empty(&r.media),
        interface_type: text_or_empty(&r.iface),
    }
}

/// The production-year note for `year`, citing the BIOS date when known.
pub fn year_note(year: i32, bios: &Option<String>) -> (note: String)
    ensures
        note@ == year_note_of(year, opt_text(*bios)),
{
    let mut note = String::from_str("整机生产年份约为 ");
    let y = int_text(year as i64);
    note.append(y.as_str());
    note.append(" 年（依据 BIOS 发布日期 ");
    match bios {
        Some(d) => note.append(d.as_str()),
        None => note.append("未知"),
    }
    note.append("，为估算值）。");
    note
}

/// Turn the platform's inventory into the detailed hardware identity and the
/// authoritative values that override the generic summary.
pub fn summarize_inventory(rec: InventoryRecord) -> (r: (HwInventory, DmiOverrides))
    ensures
        detail_of(rec, r.0),
        overrides_of(rec, r.1),
{
    let ghost rec0 = rec;
    let bios_release_date = str_field(&rec.bios_release_date);
    let system_est_production_year: Option<i32> = match rec.system_year {
        Some(y) => Some(y as i32),
        None => None,
    };
    let os = str_field(&rec.os);

    let system = match &rec.system {
        Some(s) => Some(
            SystemInfo {
                manufacturer: text_or_empty(&s.manufacturer),
                model: text_or_empty(&s.model),
                family: text_or_empty(&s.family),
            },
        ),
        None => None,
    };
    let total_physical: Option<i128> = match &rec.system {
        Some(s) => match s.total_memory {
            Some(t) => Some(t as i128),
            None => None,
        },
        None => None,
    };

    let (cpu_name, cpu_max_clock_mhz, cpu_cores, cpu_threads) = match &rec.cpu {
        Some(c) => (
            str_field(&c.name),
            match c.max_clock {
                Some(x) => Some(x as u64),
                None => None,
            },
            match c.cores {
                Some(x) => Some(x as usize),
                None => None,
            },
            match c.threads {
                Some(x) => Some(x as usize),
                None => None,
            },
        ),
        None => (None, None, None, None),
    };

    let motherboard = match &rec.motherboard {
        Some(m) => Some(
            Motherboard {
                manufacturer: text_or_empty(&m.manufacturer),
                product: text_or_empty(&m.product),
                version: text_or_empty(&m.version),
                serial: text_or_empty(&m.serial),
            },
        ),
        None => None,
    };

    let InventoryRecord { memory, gpus, disks, .. } = rec;

    let mem_items = as_array(memory);
    let mut memory_modules: Vec<ModuleInfo> = Vec::new();
    let mut sum: i128 = 0;
    let mut i: usize = 0;
    while i < mem_items.len()
        invariant
            mem_items@ == list_items(rec0.memory),
            i <= mem_items@.len(),
            memory_modules@.len() == i,
            forall|k: int|
                0 <= k < i ==> module_of(mem_items@[k], #[trigger] memory_modules@[k]),
            sum == modules_tenths_sum(mem_items@, i as nat),
            -(i * 9223372036854775808) <= sum <= i * 9223372036854775808,
        decreases mem_items@.len() - i,
    {
        let m = module_info(&mem_items[i]);
        sum = sum + m.capacity_tenths_gb as i128;
        memory_modules.push(m);
        i = i + 1;
    }
    let total_mem_tenths_gb = if sum > 0 {
        Some(sum)
    } else {
        total_physical
    };

    let gpu_items = as_array(gpus);
    let mut gpu_list: Vec<GpuInfo> = Vec::new();
    let mut names: Vec<String> = Vec::new();
    let mut i: usize = 0;
    while i < gpu_items.len()
        invariant
            gpu_items@ == list_items(rec0.gpus),
            i <= gpu_items@.len(),
            gpu_list@.len() == i,
            names@.len() == i,
            forall|k: int| 0 <= k < i ==> gpu_of(gpu_items@[k], #[trigger] gpu_list@[k]),
            forall|k: int|
                0 <= k < i ==> (#[trigger] names@[k])@ == cleaned_or_empty(gpu_items@[k].name),
        decreases gpu_items@.len() - i,
    {
        let g = gpu_info(&gpu_items[i]);
        names.push(g.name.clone());
        gpu_list.push(g);
        i = i + 1;
    }
    let gpu_name = pick_primary_gpu(names.as_slice());
    assert(crate::hardware::name_views(names@) =~= gpu_names_of(rec0));

    let disk_items = as_array(disks);
    let mut disk_list: Vec<DiskInfo> = Vec::new();
    let mut i: usize = 0;
    while i < disk_items.len()
        invariant
            disk_items@ == list_items(rec0.disks),
            i <= disk_items@.len(),
            disk_list@.len() == i,
            forall|k: int| 0 <= k < i ==> disk_of(disk_items@[k], #[trigger] disk_list@[k]),
        decreases disk_items@.len() - i,
    {
        disk_list.push(disk_info(&disk_items[i]));
        i = i + 1;
    }

    let mut notes: Vec<String> = Vec::new();
    match system_est_production_year {
        Some(year) => {
            notes.push(year_note(year, &bios_release_date));
        },
        None => {},
    }
    notes.push(String::from_str(SPD_NOTE));

    let detail = HwInventory {
        system,
        motherboard,
        bios_release_date,
        memory_modules,
        gpus: gpu_list,
        disks: disk_list,
        system_est_production_year,
        notes,
    };
    let ov = DmiOverrides {
        total_mem_tenths_gb,
        cpu_name,
        cpu_max_clock_mhz,
        cpu_cores,
        cpu_threads,
        gpu_name,
        os,
    };
    (detail, ov)
}

/// Each member of the summary comes from the member of the same name in
/// the inventory, cleaned: a disk's model from its Model and its serial from
/// its SerialNumber, a module's part number from its PartNumber and its
/// serial from its SerialNumber, and so on for every field; lists keep the
/// length and order of the inventory's collections.
pub proof fn lemma_inventory_fields(rec: InventoryRecord, hw: HwInventory, ov: DmiOverrides)
    requires
        detail_of(rec, hw),
        overrides_of(rec, ov),
    ensures
        hw.disks@.len() == list_items(rec.disks).len(),
        forall|i: int|
            0 <= i < hw.disks@.len() ==> {
                let r = list_items(rec.disks)[i];
                let d = #[trigger] hw.disks@[i];
                &&& cleaned_or_empty(r.model) == d.model@
                &&& cleaned_or_empty(r.serial) == d.serial@
                &&& tenths_or_zero(r.size) == d.size_tenths_gb
                &&& cleaned_or_empty(r.media) == d.media_type@
                &&& cleaned_or_empty(r.iface) == d.interface_type@
            },
        hw.memory_modules@.len() == list_items(rec.memory).len(),
        forall|i: int|
            0 <= i < hw.memory_modules@.len() ==> {
                let r = list_items(rec.memory)[i];
                let m = #[trigger] hw.memory_modules@[i];
                &&& cleaned_or_empty(r.slot) == m.slot@
                &&& cleaned_or_empty(r.manufacturer) == m.manufacturer@
                &&& cleaned_or_empty(r.part_number) == m.part_number@
                &&& tenths_or_zero(r.capacity) == m.capacity_tenths_gb
                &&& (match count_of(r.speed) {
                    Some(v) => v,
                    None => 0,
                }) == m.speed_mhz
                &&& cleaned_or_empty(r.serial) == m.serial@
            },
        hw.gpus@.len() == list_items(rec.gpus).len(),
        forall|i: int|
            0 <= i < hw.gpus@.len() ==> {
                let r = list_items(rec.gpus)[i];
                let g = #[trigger] hw.gpus@[i];
                &&& cleaned_or_empty(r.name) == g.name@
                &&& tenths_or_zero(r.vram) == g.vram_tenths_gb
                &&& cleaned_or_empty(r.driver) == g.driver_version@
            },
        rec.system matches Some(r) ==> (hw.system matches Some(s) && s.manufacturer@
            == cleaned_or_empty(r.manufacturer) && s.model@ == cleaned_or_empty(r.model)
            && s.family@ == cleaned_or_empty(r.family)),
        rec.system is None ==> hw.system is None,
        rec.motherboard matches Some(r) ==> (hw.motherboard matches Some(b) && b.manufacturer@
            == cleaned_or_empty(r.manufacturer) && b.product@ == cleaned_or_empty(r.product)
            && b.version@ == cleaned_or_empty(r.version) && b.serial@ == cleaned_or_empty(
            r.serial,
        )),
        rec.motherboard is None ==> hw.motherboard is None,
        opt_text(hw.bios_release_date) == cleaned(rec.bios_release_date),
        hw.system_est_production_year == (match rec.system_year {
            Some(y) => Some(y as i32),
            None => None::<i32>,
        }),
        opt_text(ov.os) == cleaned(rec.os),
        opt_text(ov.gpu_name) == primary_gpu_of(
            Seq::new(list_items(rec.gpus).len(), |i: int| cleaned_or_empty(list_items(rec.gpus)[i].name)),
        ),
        rec.system_year matches Some(y) ==> hw.notes@.len() == 2 && hw.notes@[0]@ == year_note_of(
            y as i32,
            cleaned(rec.bios_release_date),
        ) && hw.notes@[1]@ == SPD_NOTE@,
        rec.system_year is None ==> hw.notes@.len() == 1 && hw.notes@[0]@ == SPD_NOTE@,
        rec.cpu is None ==> ov.cpu_name is None && ov.cpu_cores is None && ov.cpu_threads is None
            && ov.cpu_max_clock_mhz is None,
        rec.cpu matches Some(c) ==> opt_text(ov.cpu_name) == cleaned(c.name) && ov.cpu_cores == (
        match c.cores {
            Some(x) => Some(x as usize),
            None => None::<usize>,
        }) && ov.cpu_threads == (match c.threads {
            Some(x) => Some(x as usize),
            None => None::<usize>,
        }) && ov.cpu_max_clock_mhz == (match c.max_clock {
            Some(x) => Some(x as u64),
            None => None::<u64>,
        }),
{
}

/// Installed memory is the sum of the module sizes whenever that sum is
/// positive; otherwise it is the OS-reported total. In particular a single
/// module of positive size is the whole installed memory.
pub proof fn lemma_memory_total(rec: InventoryRecord, ov: DmiOverrides)
    requires
        overrides_of(rec, ov),
    ensures
        list_items(rec.memory).len() == 1 && tenths_or_zero(list_items(rec.memory)[0].capacity) > 0
            ==> ov.total_mem_tenths_gb == Some(
            tenths_or_zero(list_items(rec.memory)[0].capacity) as i128,
        ),
        list_items(rec.memory).len() == 2 && tenths_or_zero(list_items(rec.memory)[0].capacity)
            + tenths_or_zero(list_items(rec.memory)[1].capacity) > 0 ==> ov.total_mem_tenths_gb
            == Some(
            (tenths_or_zero(list_items(rec.memory)[0].capacity) + tenths_or_zero(
                list_items(rec.memory)[1].capacity,
            )) as i128,
        ),
        list_items(rec.memory).len() == 0 ==> ov.total_mem_tenths_gb == (match rec.system {
            Some(s) => match s.total_memory {
                Some(t) => Some(t as i128),
                None => None::<i128>,
            },
            None => None::<i128>,
        }),
{
    let items = list_items(rec.memory);
    if items.len() >= 1 {
        assert(modules_tenths_sum(items, 1) == modules_tenths_sum(items, 0) + tenths_or_zero(
            items[0].capacity,
        ));
    }
    if items.len() == 2 {
        assert(modules_tenths_sum(items, 2) == modules_tenths_sum(items, 1) + tenths_or_zero(
            items[1].capacity,
        ));
    }
}

/// The production-year note cites both the estimated year and the BIOS
/// release date it was derived from.
pub proof fn lemma_year_note_cites_sources(year: i32, bios: Seq<char>)
    ensures
        has_substring(year_note_of(year, Some(bios)), decimal_text(year as int)),
        has_substring(year_note_of(year, Some(bios)), bios),
{
    let a = "整机生产年份约为 "@;
    let y = decimal_text(year as int);
    let b = " 年（依据 BIOS 发布日期 "@;
    let c = "，为估算值）。"@;
    let note = year_note_of(year, Some(bios));
    assert(note == a + y + b + bios + c);
    assert(note.subrange(a.len() as int, (a.len() + y.len()) as int) =~= y);
    assert(occurs_at(note, y, a.len() as int));
    let at: int = (a.len() + y.len() + b.len()) as int;
    assert(note.subrange(at, at + bios.len()) =~= bios);
    assert(occurs_at(note, bios, at));
}

} // verus!
