use bench_agent::inventory::{
    as_array, str_field, summarize_inventory, year_note, BoardRecord, CpuRecord,
    DiskRecord, GpuRecord, InventoryRecord, JsonList, MemoryRecord, SystemRecord, SPD_NOTE,
};

fn s(x: &str) -> Option<String> {
    Some(x.to_string())
}

fn module(slot: &str, capacity: Option<i64>, speed: &str) -> MemoryRecord {
    MemoryRecord {
        slot: s(slot),
        manufacturer: s(" Samsung "),
        part_number: s("M471A1K43DB1-CWE   "),
        capacity,
        speed: s(speed),
        serial: s("12345678"),
    }
}

fn gpu(name: &str) -> GpuRecord {
    GpuRecord { name: s(name), vram: Some(40), driver: s("31.0.15.3623") }
}

fn laptop() -> InventoryRecord {
    InventoryRecord {
        bios_release_date: s("2019-05-20"),
        system_year: Some(2019),
        os: s("Microsoft Windows 10 家庭中文版 10.0.19045"),
        system: Some(SystemRecord {
            manufacturer: s("Dell Inc."),
            model: s("G3 3590"),
            family: s("  "),
            total_memory: Some(159),
        }),
        cpu: Some(CpuRecord {
            name: s("Intel(R) Core(TM) i7-9750H CPU @ 2.60GHz "),
            max_clock: Some(2592),
            cores: Some(6),
            threads: Some(12),
        }),
        motherboard: Some(BoardRecord {
            manufacturer: s("Dell Inc."),
            product: s("0GDG8Y"),
            version: s("A00"),
            serial: None,
        }),
        memory: JsonList::Many(vec![
            module("DIMM A", Some(80), "2667"),
            module("DIMM B", Some(80), "2667"),
        ]),
        gpus: JsonList::Many(vec![gpu("Intel(R) UHD Graphics 630"), gpu("NVIDIA GeForce GTX 1650")]),
        disks: JsonList::One(DiskRecord {
            model: s("KBG40ZNS512G NVMe KIOXIA 512GB"),
            serial: s("0000_0000"),
            size: Some(4769),
            media: s("Fixed hard disk media"),
            iface: s("SCSI"),
        }),
    }
}

#[test]
fn inventory_summary_of_a_laptop() {
    let (hw, ov) = summarize_inventory(laptop());
    let sys = hw.system.as_ref().unwrap();
    assert_eq!(sys.manufacturer, "Dell Inc.");
    assert_eq!(sys.model, "G3 3590");
    assert_eq!(sys.family, "");
    let mb = hw.motherboard.as_ref().unwrap();
    assert_eq!(mb.product, "0GDG8Y");
    assert_eq!(mb.serial, "");
    assert_eq!(hw.bios_release_date.as_deref(), Some("2019-05-20"));
    assert_eq!(hw.memory_modules.len(), 2);
    assert_eq!(hw.memory_modules[0].slot, "DIMM A");
    assert_eq!(hw.memory_modules[0].manufacturer, "Samsung");
    assert_eq!(hw.memory_modules[0].part_number, "M471A1K43DB1-CWE");
    assert_eq!(hw.memory_modules[0].capacity_tenths_gb, 80);
    assert_eq!(hw.memory_modules[0].speed_mhz, 2667);
    assert_eq!(hw.gpus.len(), 2);
    assert_eq!(hw.gpus[1].vram_tenths_gb, 40);
    assert_eq!(hw.disks.len(), 1);
    assert_eq!(hw.disks[0].size_tenths_gb, 4769);
    assert_eq!(hw.system_est_production_year, Some(2019));
    assert_eq!(
        hw.notes,
        vec![
            "整机生产年份约为 2019 年（依据 BIOS 发布日期 2019-05-20，为估算值）。".to_string(),
            SPD_NOTE.to_string()
        ]
    );
    assert_eq!(ov.os.as_deref(), Some("Microsoft Windows 10 家庭中文版 10.0.19045"));
    assert_eq!(ov.cpu_name.as_deref(), Some("Intel(R) Core(TM) i7-9750H CPU @ 2.60GHz"));
    assert_eq!(ov.cpu_max_clock_mhz, Some(2592));
    assert_eq!(ov.cpu_cores, Some(6));
    assert_eq!(ov.cpu_threads, Some(12));
    assert_eq!(ov.total_mem_tenths_gb, Some(160));
    assert_eq!(ov.gpu_name.as_deref(), Some("NVIDIA GeForce GTX 1650"));
}

#[test]
fn memory_total_falls_back_to_os_total() {
    let mut rec = laptop();
    rec.memory = JsonList::Absent;
    let (hw, ov) = summarize_inventory(rec);
    assert!(hw.memory_modules.is_empty());
    assert_eq!(ov.total_mem_tenths_gb, Some(159));
}

#[test]
fn unreadable_sizes_count_as_zero() {
    let mut rec = laptop();
    rec.memory = JsonList::One(module("DIMM A", None, "n/a"));
    rec.system = None;
    let (hw, ov) = summarize_inventory(rec);
    assert_eq!(hw.memory_modules[0].capacity_tenths_gb, 0);
    assert_eq!(hw.memory_modules[0].speed_mhz, 0);
    assert_eq!(ov.total_mem_tenths_gb, None);
    assert!(hw.system.is_none());
}

#[test]
fn no_year_gives_only_the_batch_note() {
    let mut rec = laptop();
    rec.system_year = None;
    rec.cpu = None;
    let (hw, ov) = summarize_inventory(rec);
    assert_eq!(hw.notes, vec![SPD_NOTE.to_string()]);
    assert_eq!(hw.system_est_production_year, None);
    assert!(ov.cpu_name.is_none());
    assert!(ov.cpu_cores.is_none());
}

#[test]
fn year_note_without_bios_date() {
    assert_eq!(
        year_note(2021, &None),
        "整机生产年份约为 2021 年（依据 BIOS 发布日期 未知，为估算值）。"
    );
    assert_eq!(
        year_note(-5, &Some("x".to_string())),
        "整机生产年份约为 -5 年（依据 BIOS 发布日期 x，为估算值）。"
    );
}

#[test]
fn collection_shapes() {
    assert_eq!(as_array(JsonList::Many(vec![1, 2, 3])), vec![1, 2, 3]);
    assert_eq!(as_array(JsonList::One(7)), vec![7]);
    assert_eq!(as_array::<u8>(JsonList::Absent), Vec::<u8>::new());
}

#[test]
fn text_fields_are_cleaned() {
    assert_eq!(str_field(&s("  Dell  ")), s("Dell"));
    assert_eq!(str_field(&s(" \u{3000} ")), None);
    assert_eq!(str_field(&None), None);
}

#[test]
fn memory_total_is_the_signed_sum_of_modules() {
    let mut rec = laptop();
    rec.memory = JsonList::Many(vec![
        module("A", Some(80), "0"),
        module("B", None, "0"),
        module("C", Some(-5), "0"),
    ]);
    let (_, ov) = summarize_inventory(rec);
    assert_eq!(ov.total_mem_tenths_gb, Some(75));
    let mut rec = laptop();
    rec.memory = JsonList::Many(vec![module("A", Some(5), "0"), module("B", Some(-5), "0")]);
    let (_, ov) = summarize_inventory(rec);
    assert_eq!(ov.total_mem_tenths_gb, Some(159));
}
