use vstd::prelude::*;
use crate::text::{has_substring, occurs_at};

verus! {

/// Live progress of a benchmark run, as polled by the web page.
pub struct Progress {
    /// Current phase id: hardware | cpu | memory | disk | scoring | done
    pub phase: String,
    /// Human-readable label for the current phase.
    pub label: String,
    /// Completed share of the run in percent; 100 means finished.
    pub progress_pct: u32,
    pub done: bool,
}

impl Default for Progress {
    fn default() -> (p: Progress)
        ensures
            p.phase@ == "starting"@,
            p.label@ == "准备中…"@,
            p.progress_pct == 0,
            !p.done,
    {
        Progress {
            phase: String::from_str("starting"),
            label: String::from_str("准备中…"),
            progress_pct: 0,
            done: false,
        }
    }
}

/// State shared between the benchmark worker and the HTTP server. `R` is the
/// finished result document of a run.
pub struct AppState<R> {
    pub progress: Progress,
    pub result: Option<R>,
    /// True while a benchmark run is scheduled or active.
    pub running: bool,
}

/// What every reachable state satisfies: a page that sees `done` can fetch a
/// result, and while a run is active no stale result is served and the run
/// is not reported finished.
pub open spec fn state_wf<R>(s: AppState<R>) -> bool {
    &&& s.progress.done ==> s.result is Some
    &&& s.running ==> !s.progress.done && s.result is None
}

/// `post` is `pre` with a new phase, label and progress, everything else kept.
pub open spec fn phase_set<R>(
    pre: AppState<R>,
    post: AppState<R>,
    phase: Seq<char>,
    label: Seq<char>,
    progress_pct: u32,
) -> bool {
    &&& post.progress.phase@ == phase
    &&& post.progress.label@ == label
    &&& post.progress.progress_pct == progress_pct
    &&& post.progress.done == pre.progress.done
    &&& post.result == pre.result
    &&& post.running == pre.running
}

/// `post` is `pre` once a run has started.
pub open spec fn run_begun<R>(pre: AppState<R>, post: AppState<R>) -> bool {
    &&& post.running
    &&& post.result is None
    &&& !post.progress.done
    &&& post.progress.phase == pre.progress.phase
    &&& post.progress.label == pre.progress.label
    &&& post.progress.progress_pct == pre.progress.progress_pct
}

/// `post` is `pre` once a run has failed with `reason`.
pub open spec fn run_failed<R>(pre: AppState<R>, post: AppState<R>, reason: Seq<char>) -> bool {
    &&& !post.running
    &&& post.progress.phase@ == "error"@
    &&& post.progress.label@ == "检测失败: "@ + reason
    &&& !post.progress.done
    &&& post.progress.progress_pct == pre.progress.progress_pct
    &&& post.result == pre.result
}

/// `post` is `pre` once a run has finished with `result`.
pub open spec fn run_finished<R>(pre: AppState<R>, post: AppState<R>, result: R) -> bool {
    &&& post.progress.phase@ == "done"@
    &&& post.progress.label@ == "完成"@
    &&& post.progress.progress_pct == 100
    &&& post.progress.done
    &&& post.result == Some(result)
    &&& !post.running
}

/// `post` is `pre` after a rerun request that was answered `scheduled`. A
/// scheduled rerun reserves the state for the new run at once, so that no
/// second run can be scheduled before it starts.
pub open spec fn rerun_answered<R>(pre: AppState<R>, post: AppState<R>, scheduled: bool) -> bool {
    &&& scheduled == !pre.running
    &&& scheduled ==> {
        &&& post.result is None
        &&& post.progress.phase@ == "starting"@
        &&& post.progress.label@ == "正在重新开始检测…"@
        &&& post.progress.progress_pct == 0
        &&& !post.progress.done
        &&& post.running
    }
    &&& !scheduled ==> post == pre
}

impl<R> Default for AppState<R> {
    fn default() -> (s: AppState<R>)
        ensures
            s.progress.phase@ == "starting"@,
            s.progress.label@ == "准备中…"@,
            s.progress.progress_pct == 0,
            !s.progress.done,
            s.result is None,
            !s.running,
            state_wf(s),
    {
        AppState { progress: Progress::default(), result: None, running: false }
    }
}

impl<R> AppState<R> {
    /// Report that the run entered `phase`.
    pub fn set_phase(&mut self, phase: &str, label: &str, progress_pct: u32)
        ensures
            phase_set(*old(self), *final(self), phase@, label@, progress_pct),
    {
        self.progress.phase = String::from_str(phase);
        self.progress.label = String::from_str(label);
        self.progress.progress_pct = progress_pct;
    }

    /// Mark a run as started: the previous result is withdrawn.
    pub fn begin_run(&mut self)
        ensures
            run_begun(*old(self), *final(self)),
    {
        self.running = true;
        self.result = None;
        self.progress.done = false;
    }

    /// Mark the active run as failed with `reason`.
    pub fn fail_run(&mut self, reason: &str)
        ensures
            run_failed(*old(self), *final(self), reason@),
    {
        let mut label = String::from_str("检测失败: ");
        label.append(reason);
        self.running = false;
        self.progress.phase = String::from_str("error");
        self.progress.label = label;
        self.progress.done = false;
    }

    /// Publish the result of the active run and mark it finished.
    pub fn finish_run(&mut self, result: R)
        ensures
            run_finished(*old(self), *final(self), result),
    {
        self.progress.phase = String::from_str("done");
        self.progress.label = String::from_str("完成");
        self.progress.progress_pct = 100;
        self.progress.done = true;
        self.result = Some(result);
        self.running = false;
    }
}

/// Returns true if a new run was scheduled (the caller then starts the run).
/// Scheduling marks the state running at once, so a second request made
/// before the new run starts is refused; a request made while a run is
/// scheduled or active is refused and changes nothing.
pub fn request_rerun<R>(state: &mut AppState<R>) -> (scheduled: bool)
    ensures
        rerun_answered(*old(state), *final(state), scheduled),
{
    if state.running {
        return false;
    }
    state.result = None;
    state.progress.phase = String::from_str("starting");
    state.progress.label = String::from_str("正在重新开始检测…");
    state.progress.progress_pct = 0;
    state.progress.done = false;
    state.running = true;
    true
}

/// Every operation on the shared state keeps it well formed.
pub proof fn lemma_operations_keep_wf<R>(
    pre: AppState<R>,
    post: AppState<R>,
    phase: Seq<char>,
    label: Seq<char>,
    progress_pct: u32,
    reason: Seq<char>,
    result: R,
    scheduled: bool,
)
    requires
        state_wf(pre),
    ensures
        phase_set(pre, post, phase, label, progress_pct) ==> state_wf(post),
        run_begun(pre, post) ==> state_wf(post),
        run_failed(pre, post, reason) ==> state_wf(post),
        run_finished(pre, post, result) ==> state_wf(post),
        rerun_answered(pre, post, scheduled) ==> state_wf(post),
{
}

/// `post` only differs from `pre` in the reported phase, label and progress,
/// as after any number of `set_phase` calls.
pub open spec fn progress_only<R>(pre: AppState<R>, post: AppState<R>) -> bool {
    &&& post.running == pre.running
    &&& post.result == pre.result
    &&& post.progress.done == pre.progress.done
}

/// A phase report changes nothing but the reported progress.
pub proof fn lemma_phase_set_is_progress_only<R>(
    pre: AppState<R>,
    post: AppState<R>,
    phase: Seq<char>,
    label: Seq<char>,
    progress_pct: u32,
)
    requires
        phase_set(pre, post, phase, label, progress_pct),
    ensures
        progress_only(pre, post),
{
}

/// Concurrent runs are prevented. From the moment a run is started, or a
/// rerun is scheduled, and through any number of progress reports, the state
/// stays running with no result, and every rerun request is refused and
/// leaves the state as it was.
pub proof fn lemma_no_rerun_while_running<R>(start: AppState<R>, states: Seq<AppState<R>>)
    requires
        states.len() > 0,
        run_begun(start, states[0]) || rerun_answered(start, states[0], true),
        forall|i: int| 0 <= i < states.len() - 1 ==> progress_only(#[trigger] states[i], states[i + 1]),
    ensures
        forall|i: int|
            0 <= i < states.len() ==> (#[trigger] states[i]).running && states[i].result is None
                && !states[i].progress.done,
        forall|i: int, post: AppState<R>, scheduled: bool|
            0 <= i < states.len() && #[trigger] rerun_answered(states[i], post, scheduled) ==> !scheduled
                && post == states[i],
{
    assert forall|i: int| 0 <= i < states.len() implies (#[trigger] states[i]).running
        && states[i].result is None && !states[i].progress.done by {
        lemma_run_active_prefix(states, i);
    }
    assert forall|i: int, post: AppState<R>, scheduled: bool|
        0 <= i < states.len() && #[trigger] rerun_answered(states[i], post, scheduled) implies !scheduled
        && post == states[i] by {
        lemma_run_active_prefix(states, i);
    }
}

proof fn lemma_run_active_prefix<R>(states: Seq<AppState<R>>, i: int)
    requires
        0 <= i < states.len(),
        states[0].running && states[0].result is None && !states[0].progress.done,
        forall|k: int| 0 <= k < states.len() - 1 ==> progress_only(#[trigger] states[k], states[k + 1]),
    ensures
        states[i].running && states[i].result is None && !states[i].progress.done,
    decreases i,
{
    if i > 0 {
        lemma_run_active_prefix(states, i - 1);
        assert(progress_only(states[i - 1], states[i]));
    }
}

/// A run ends inactive, whether it finished or failed.
pub proof fn lemma_run_ends_inactive<R>(
    pre: AppState<R>,
    post: AppState<R>,
    result: R,
    reason: Seq<char>,
)
    ensures
        run_finished(pre, post, result) ==> !post.running,
        run_failed(pre, post, reason) ==> !post.running,
{
}

/// After a run finishes, its result is what the state serves, and a rerun
/// request is accepted and withdraws it.
pub proof fn lemma_finished_then_rerun<R>(
    s0: AppState<R>,
    s1: AppState<R>,
    s2: AppState<R>,
    result: R,
    scheduled: bool,
)
    requires
        run_finished(s0, s1, result),
        rerun_answered(s1, s2, scheduled),
    ensures
        s1.result == Some(result),
        scheduled,
        s2.result is None,
        s2.running,
        !s2.progress.done,
{
}

/// A failed run can be retried.
pub proof fn lemma_failed_then_rerun<R>(
    s0: AppState<R>,
    s1: AppState<R>,
    s2: AppState<R>,
    reason: Seq<char>,
    scheduled: bool,
)
    requires
        run_failed(s0, s1, reason),
        rerun_answered(s1, s2, scheduled),
    ensures
        scheduled,
{
}

/// The measured phases of a benchmark run, in the order they run.
#[derive(Debug, Clone, Copy, PartialEq, Eq, Structural)]
pub enum Phase {
    Hardware,
    Cpu,
    Memory,
    Disk,
    Scoring,
}

/// Position of a phase in the run.
pub open spec fn phase_rank(p: Phase) -> nat {
    match p {
        Phase::Hardware => 0,
        Phase::Cpu => 1,
        Phase::Memory => 2,
        Phase::Disk => 3,
        Phase::Scoring => 4,
    }
}

/// Progress reported when a phase starts, in percent.
pub open spec fn phase_pct_of(p: Phase) -> u32 {
    match p {
        Phase::Hardware => 5,
        Phase::Cpu => 15,
        Phase::Memory => 60,
        Phase::Disk => 80,
        Phase::Scoring => 95,
    }
}

/// Phase id reported to the page.
pub open spec fn phase_id_of(p: Phase) -> Seq<char> {
    match p {
        Phase::Hardware => "hardware"@,
        Phase::Cpu => "cpu"@,
        Phase::Memory => "memory"@,
        Phase::Disk => "disk"@,
        Phase::Scoring => "scoring"@,
    }
}

/// Human-readable label of a phase.
pub open spec fn phase_label_of(p: Phase) -> Seq<char> {
    match p {
        Phase::Hardware => "读取精准硬件信息…"@,
        Phase::Cpu => "CPU 跑分（预热 + 多轮取中位数）…"@,
        Phase::Memory => "内存带宽测试（多轮取中位数）…"@,
        Phase::Disk => "磁盘真实读写测试（绕过系统缓存）…"@,
        Phase::Scoring => "计算综合评分…"@,
    }
}

/// The schedule entry of a phase: its id, label and starting progress.
pub fn phase_entry(p: Phase) -> (e: (&'static str, &'static str, u32))
    ensures
        e.0@ == phase_id_of(p),
        e.1@ == phase_label_of(p),
        e.2 == phase_pct_of(p),
{
    match p {
        Phase::Hardware => ("hardware", "读取精准硬件信息…", 5),
        Phase::Cpu => ("cpu", "CPU 跑分（预热 + 多轮取中位数）…", 15),
        Phase::Memory => ("memory", "内存带宽测试（多轮取中位数）…", 60),
        Phase::Disk => ("disk", "磁盘真实读写测试（绕过系统缓存）…", 80),
        Phase::Scoring => ("scoring", "计算综合评分…", 95),
    }
}

impl<R> AppState<R> {
    /// Report that the run entered phase `p`.
    pub fn enter_phase(&mut self, p: Phase)
        ensures
            phase_set(*old(self), *final(self), phase_id_of(p), phase_label_of(p), phase_pct_of(p)),
    {
        let (id, label, pct) = phase_entry(p);
        self.set_phase(id, label, pct);
    }
}

/// Progress only moves forward through the phases, and no phase reports the
/// run as complete: only finishing the run reports 100.
pub proof fn lemma_phase_progress_increases(a: Phase, b: Phase)
    ensures
        phase_rank(a) < phase_rank(b) ==> phase_pct_of(a) < phase_pct_of(b),
        phase_pct_of(a) < 100,
{
}

/// The label reported on entering a phase names what that phase measures:
/// the hardware inventory, the CPU, memory, the disk, or the score.
pub proof fn lemma_phase_labels_describe_phase()
    ensures
        has_substring(phase_label_of(Phase::Hardware), "硬件"@),
        has_substring(phase_label_of(Phase::Cpu), "CPU"@),
        has_substring(phase_label_of(Phase::Memory), "内存"@),
        has_substring(phase_label_of(Phase::Disk), "磁盘"@),
        has_substring(phase_label_of(Phase::Scoring), "评分"@),
{
    reveal_strlit("读取精准硬件信息…");
    reveal_strlit("硬件");
    assert("读取精准硬件信息…"@[4] == '硬');
    assert("硬件"@[0] == '硬');
    assert("读取精准硬件信息…"@[5] == '件');
    assert("硬件"@[1] == '件');
    assert("硬件"@.len() == 2);
    assert("读取精准硬件信息…"@.len() == 9);
    assert("读取精准硬件信息…"@.subrange(4, 6) =~= "硬件"@);
    assert(occurs_at(phase_label_of(Phase::Hardware), "硬件"@, 4));
    reveal_strlit("CPU 跑分（预热 + 多轮取中位数）…");
    reveal_strlit("CPU");
    assert("CPU 跑分（预热 + 多轮取中位数）…"@[0] == 'C');
    assert("CPU"@[0] == 'C');
    assert("CPU 跑分（预热 + 多轮取中位数）…"@[1] == 'P');
    assert("CPU"@[1] == 'P');
    assert("CPU 跑分（预热 + 多轮取中位数）…"@[2] == 'U');
    assert("CPU"@[2] == 'U');
    assert("CPU"@.len() == 3);
    assert("CPU 跑分（预热 + 多轮取中位数）…"@.len() == 20);
    assert("CPU 跑分（预热 + 多轮取中位数）…"@.subrange(0, 3) =~= "CPU"@);
    assert(occurs_at(phase_label_of(Phase::Cpu), "CPU"@, 0));
    reveal_strlit("内存带宽测试（多轮取中位数）…");
    reveal_strlit("内存");
    assert("内存带宽测试（多轮取中位数）…"@[0] == '内');
    assert("内存"@[0] == '内');
    assert("内存带宽测试（多轮取中位数）…"@[1] == '存');
    assert("内存"@[1] == '存');
    assert("内存"@.len() == 2);
    assert("内存带宽测试（多轮取中位数）…"@.len() == 15);
    assert("内存带宽测试（多轮取中位数）…"@.subrange(0, 2) =~= "内存"@);
    assert(occurs_at(phase_label_of(Phase::Memory), "内存"@, 0));
    reveal_strlit("磁盘真实读写测试（绕过系统缓存）…");
    reveal_strlit("磁盘");
    assert("磁盘真实读写测试（绕过系统缓存）…"@[0] == '磁');
    assert("磁盘"@[0] == '磁');
    assert("磁盘真实读写测试（绕过系统缓存）…"@[1] == '盘');
    assert("磁盘"@[1] == '盘');
    assert("磁盘"@.len() == 2);
    assert("磁盘真实读写测试（绕过系统缓存）…"@.len() == 17);
    assert("磁盘真实读写测试（绕过系统缓存）…"@.subrange(0, 2) =~= "磁盘"@);
    assert(occurs_at(phase_label_of(Phase::Disk), "磁盘"@, 0));
    reveal_strlit("计算综合评分…");
    reveal_strlit("评分");
    assert("计算综合评分…"@[4] == '评');
    assert("评分"@[0] == '评');
    assert("计算综合评分…"@[5] == '分');
    assert("评分"@[1] == '分');
    assert("评分"@.len() == 2);
    assert("计算综合评分…"@.len() == 7);
    assert("计算综合评分…"@.subrange(4, 6) =~= "评分"@);
    assert(occurs_at(phase_label_of(Phase::Scoring), "评分"@, 4));
}

/// What the page sees at each end of a run: a finished run reports phase
/// "done", label "完成", 100 percent and its result; a failed run reports
/// phase "error" and a label naming the reason; a scheduled rerun reports
/// phase "starting" at 0 percent with no result.
pub proof fn lemma_lifecycle_reports<R>(
    pre: AppState<R>,
    post: AppState<R>,
    result: R,
    reason: Seq<char>,
)
    ensures
        run_finished(pre, post, result) ==> post.progress.phase@ == "done"@ && post.progress.label@
            == "完成"@ && post.progress.progress_pct == 100 && post.progress.done && post.result
            == Some(result) && !post.running,
        run_failed(pre, post, reason) ==> post.progress.phase@ == "error"@ && has_substring(
            post.progress.label@,
            reason,
        ) && !post.progress.done && !post.running,
        rerun_answered(pre, post, true) ==> post.progress.phase@ == "starting"@
            && post.progress.progress_pct == 0 && post.result is None && post.running,
{
    if run_failed(pre, post, reason) {
        let p = "检测失败: "@;
        assert(post.progress.label@.subrange(p.len() as int, (p.len() + reason.len()) as int) =~= reason);
        assert(occurs_at(post.progress.label@, reason, p.len() as int));
    }
}

} // verus!
