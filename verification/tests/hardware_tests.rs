use bench_agent::browser::{
    after_failed_attempt, fallback_after, keep_waiting, powershell_open_command, AfterFailure,
    Launcher,
};
use bench_agent::hardware::{
    clean_field_text, hardware_from, is_discrete_lower, is_virtual_lower, pick_primary_gpu,
    DmiOverrides,
};

fn names(v: &[&str]) -> Vec<String> {
    v.iter().map(|s| s.to_string()).collect()
}

#[test]
fn discrete_gpu_preferred_over_integrated() {
    let g = names(&["Intel(R) UHD Graphics 630", "NVIDIA GeForce GTX 1650"]);
    assert_eq!(pick_primary_gpu(&g), Some("NVIDIA GeForce GTX 1650".to_string()));
    let g = names(&["AMD Radeon(TM) Graphics"]);
    assert_eq!(pick_primary_gpu(&g), Some("AMD Radeon(TM) Graphics".to_string()));
}

#[test]
fn virtual_adapters_skipped() {
    let g = names(&[
        "Microsoft Basic Display Adapter",
        "Parsec Virtual Display Adapter",
        "Intel(R) Iris(R) Xe Graphics",
    ]);
    assert_eq!(pick_primary_gpu(&g), Some("Intel(R) Iris(R) Xe Graphics".to_string()));
    let g = names(&["ToDesk Virtual Display", "Oray IddDriver Device", "NVIDIA RTX A2000"]);
    assert_eq!(pick_primary_gpu(&g), Some("NVIDIA RTX A2000".to_string()));
}

#[test]
fn only_virtual_adapters_fall_back_to_first_named() {
    let g = names(&["", "Microsoft Remote Display Adapter", "Spacedesk Graphics"]);
    assert_eq!(pick_primary_gpu(&g), Some("Microsoft Remote Display Adapter".to_string()));
}

#[test]
fn no_named_adapter_gives_none() {
    assert_eq!(pick_primary_gpu(&names(&[])), None);
    assert_eq!(pick_primary_gpu(&names(&["", ""])), None);
}

#[test]
fn field_text_is_trimmed() {
    assert_eq!(clean_field_text("  Dell Inc.  "), Some("Dell Inc.".to_string()));
    assert_eq!(clean_field_text("\tG3 3590\n"), Some("G3 3590".to_string()));
    assert_eq!(clean_field_text("   "), None);
    assert_eq!(clean_field_text(""), None);
}

#[test]
fn hardware_summary_fallbacks() {
    let hw = hardware_from(&DmiOverrides::default(), 8);
    assert_eq!(hw.cpu_brand, "Unknown CPU");
    assert_eq!(hw.cpu_cores, 8);
    assert_eq!(hw.cpu_threads, 8);
    assert_eq!(hw.cpu_max_clock_mhz, 0);
    assert_eq!(hw.mem_total_tenths_gb, 0);
    assert_eq!(hw.gpu_name, "Unknown GPU");
    assert_eq!(hw.os, "Unknown OS");
}

#[test]
fn hardware_summary_prefers_inventory() {
    let mut ov = DmiOverrides::default();
    ov.cpu_name = Some("Intel(R) Core(TM) i7-9750H".to_string());
    ov.cpu_cores = Some(6);
    ov.cpu_threads = Some(12);
    ov.cpu_max_clock_mhz = Some(2592);
    ov.total_mem_tenths_gb = Some(160);
    ov.gpu_name = Some(String::new());
    ov.os = Some("Microsoft Windows 11 专业版 10.0.22631".to_string());
    let hw = hardware_from(&ov, 4);
    assert_eq!(hw.cpu_brand, "Intel(R) Core(TM) i7-9750H");
    assert_eq!(hw.cpu_cores, 6);
    assert_eq!(hw.cpu_threads, 12);
    assert_eq!(hw.cpu_max_clock_mhz, 2592);
    assert_eq!(hw.mem_total_tenths_gb, 160);
    assert_eq!(hw.gpu_name, "Unknown GPU");
    assert_eq!(hw.os, "Microsoft Windows 11 专业版 10.0.22631");
}

#[test]
fn powershell_command_quotes_url() {
    assert_eq!(
        powershell_open_command("http://127.0.0.1:38291"),
        "Start-Process -WindowStyle Normal 'http://127.0.0.1:38291'"
    );
    assert_eq!(
        powershell_open_command("http://x/?q='a'"),
        "Start-Process -WindowStyle Normal 'http://x/?q=''a'''"
    );
}

#[test]
fn adapter_name_rules_on_lowercase_names() {
    assert!(is_virtual_lower("microsoft basic render driver"));
    assert!(is_virtual_lower("parsec virtual display adapter"));
    assert!(!is_virtual_lower("intel(r) uhd graphics 630"));
    assert!(is_discrete_lower("amd radeon rx 6600"));
    assert!(is_discrete_lower("nvidia geforce rtx 3060"));
    assert!(!is_discrete_lower("intel(r) iris(r) xe graphics"));
    // Upper-case names do not match: the choice lowercases first.
    assert!(!is_discrete_lower("NVIDIA GEFORCE"));
}

#[test]
fn browser_retry_decisions() {
    assert_eq!(after_failed_attempt(0), AfterFailure::PauseAndRetry);
    assert_eq!(after_failed_attempt(2), AfterFailure::PauseAndRetry);
    assert_eq!(after_failed_attempt(3), AfterFailure::GiveUp);
    assert_eq!(fallback_after(Launcher::ShellHandler), Some(Launcher::PowerShell));
    assert_eq!(fallback_after(Launcher::PowerShell), Some(Launcher::Cmd));
    assert_eq!(fallback_after(Launcher::Cmd), None);
    assert!(keep_waiting(0, 10000));
    assert!(!keep_waiting(10000, 10000));
}
