use bench_agent::state::{phase_entry, request_rerun, AppState, Phase, Progress};

#[test]
fn default_progress_is_starting() {
    let p = Progress::default();
    assert_eq!(p.phase, "starting");
    assert_eq!(p.label, "准备中…");
    assert_eq!(p.progress_pct, 0);
    assert!(!p.done);
}

#[test]
fn default_state_is_idle() {
    let s: AppState<u32> = AppState::default();
    assert!(!s.running);
    assert!(s.result.is_none());
    assert!(!s.progress.done);
}

#[test]
fn set_phase_reports_progress_only() {
    let mut s: AppState<u32> = AppState::default();
    s.begin_run();
    s.set_phase("cpu", "CPU 跑分", 15);
    assert_eq!(s.progress.phase, "cpu");
    assert_eq!(s.progress.label, "CPU 跑分");
    assert_eq!(s.progress.progress_pct, 15);
    assert!(s.running);
    assert!(!s.progress.done);
    assert!(s.result.is_none());
}

#[test]
fn rerun_refused_while_running() {
    let mut s: AppState<u32> = AppState::default();
    s.begin_run();
    s.set_phase("disk", "磁盘", 80);
    assert!(!request_rerun(&mut s));
    assert!(s.running);
    assert_eq!(s.progress.phase, "disk");
    assert_eq!(s.progress.progress_pct, 80);
}

#[test]
fn finished_run_serves_result_then_rerun_clears_it() {
    let mut s: AppState<u32> = AppState::default();
    s.begin_run();
    s.finish_run(777);
    assert_eq!(s.result, Some(777));
    assert!(s.progress.done);
    assert!(!s.running);
    assert_eq!(s.progress.phase, "done");
    assert_eq!(s.progress.label, "完成");
    assert_eq!(s.progress.progress_pct, 100);
    assert!(request_rerun(&mut s));
    assert!(s.result.is_none());
    assert!(!s.progress.done);
    assert!(s.running);
    assert_eq!(s.progress.phase, "starting");
    assert_eq!(s.progress.label, "正在重新开始检测…");
    assert_eq!(s.progress.progress_pct, 0);
}

#[test]
fn failed_run_reports_reason_and_allows_retry() {
    let mut s: AppState<u32> = AppState::default();
    s.begin_run();
    s.set_phase("memory", "内存", 60);
    s.fail_run("disk full");
    assert!(!s.running);
    assert_eq!(s.progress.phase, "error");
    assert_eq!(s.progress.label, "检测失败: disk full");
    assert!(!s.progress.done);
    assert!(s.result.is_none());
    assert!(request_rerun(&mut s));
}

#[test]
fn second_rerun_refused_before_run_starts() {
    let mut s: AppState<u32> = AppState::default();
    assert!(request_rerun(&mut s));
    assert!(s.running);
    assert!(!request_rerun(&mut s));
    s.begin_run();
    s.set_phase("cpu", "CPU", 15);
    s.set_phase("memory", "内存", 60);
    assert!(!request_rerun(&mut s));
    s.finish_run(3);
    assert!(!s.running);
    assert!(request_rerun(&mut s));
}

#[test]
fn phase_schedule_moves_forward() {
    let table = [
        (Phase::Hardware, "hardware", 5),
        (Phase::Cpu, "cpu", 15),
        (Phase::Memory, "memory", 60),
        (Phase::Disk, "disk", 80),
        (Phase::Scoring, "scoring", 95),
    ];
    let mut s: AppState<u32> = AppState::default();
    s.begin_run();
    let mut last = 0;
    for (p, id, pct) in table {
        let e = phase_entry(p);
        assert_eq!(e.0, id);
        assert_eq!(e.2, pct);
        s.enter_phase(p);
        assert_eq!(s.progress.phase, id);
        assert_eq!(s.progress.progress_pct, pct);
        assert!(s.progress.progress_pct > last && s.progress.progress_pct < 100);
        last = s.progress.progress_pct;
        assert!(s.running);
        assert!(!request_rerun(&mut s));
    }
    assert_eq!(phase_entry(Phase::Scoring).1, "计算综合评分…");
}
