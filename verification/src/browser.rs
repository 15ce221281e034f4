use vstd::prelude::*;

verus! {

/// `s` with every single quote doubled, as PowerShell's single-quoted
/// strings require.
pub open spec fn quotes_doubled(s: Seq<char>) -> Seq<char>
    decreases s.len(),
{
    if s.len() == 0 {
        Seq::empty()
    } else {
        quotes_doubled(s.drop_last()) + (if s.last() == '\'' {
            seq!['\'', '\'']
        } else {
            seq![s.last()]
        })
    }
}

/// PowerShell command that opens `url` in the default browser.
pub open spec fn open_command_of(url: Seq<char>) -> Seq<char> {
    "Start-Process -WindowStyle Normal '"@ + quotes_doubled(url) + "'"@
}

/// Double every single quote of `s`.
pub fn double_quotes(s: &str) -> (out: String)
    ensures
        out@ == quotes_doubled(s@),
{
    let n = s.unicode_len();
    let mut out = String::new();
    let mut i: usize = 0;
    while i < n
        invariant
            n == s@.len(),
            i <= n,
            out@ == quotes_doubled(s@.subrange(0, i as int)),
        decreases n - i,
    {
        let c = s.get_char(i);
        let ghost before = out@;
        if c == '\'' {
            out.append("''");
            proof {
                reveal_strlit("''");
            }
        } else {
            out.append(s.substring_char(i, i + 1));
        }
        assert(s@.subrange(0, i + 1).drop_last() =~= s@.subrange(0, i as int));
        i = i + 1;
    }
    assert(s@.subrange(0, n as int) =~= s@);
    out
}

/// The PowerShell `Start-Process` command that opens `url`, with the URL
/// quoted so that no quote inside it can end the string.
pub fn powershell_open_command(url: &str) -> (cmd: String)
    ensures
        cmd@ == open_command_of(url@),
{
    let mut cmd = String::from_str("Start-Process -WindowStyle Normal '");
    let quoted = double_quotes(url);
    cmd.append(quoted.as_str());
    cmd.append("'");
    cmd
}

/// Number of times opening the browser is tried.
pub const OPEN_ATTEMPTS: u32 = 4;

/// What to do after an attempt to open the browser failed.
#[derive(Debug, Clone, Copy, PartialEq, Eq, Structural)]
pub enum AfterFailure {
    /// Pause, then try again.
    PauseAndRetry,
    /// Stop trying and tell the user to open the page by hand.
    GiveUp,
}

/// Decide what follows the failure of attempt number `attempt` (from 0):
/// another attempt after a pause while attempts are left, else giving up.
/// No pause follows the last attempt.
pub fn after_failed_attempt(attempt: u32) -> (a: AfterFailure)
    ensures
        a == (if attempt + 1 < OPEN_ATTEMPTS {
            AfterFailure::PauseAndRetry
        } else {
            AfterFailure::GiveUp
        }),
{
    if attempt < OPEN_ATTEMPTS - 1 {
        AfterFailure::PauseAndRetry
    } else {
        AfterFailure::GiveUp
    }
}

/// Ways to launch the default browser on Windows, in the order tried.
#[derive(Debug, Clone, Copy, PartialEq, Eq, Structural)]
pub enum Launcher {
    /// The shell protocol handler (`rundll32 url.dll,FileProtocolHandler`).
    ShellHandler,
    /// PowerShell `Start-Process`.
    PowerShell,
    /// `cmd /C start`.
    Cmd,
}

/// The launcher to try when `l` could not be started, if any is left.
pub fn fallback_after(l: Launcher) -> (next: Option<Launcher>)
    ensures
        l == Launcher::ShellHandler ==> next == Some(Launcher::PowerShell),
        l == Launcher::PowerShell ==> next == Some(Launcher::Cmd),
        l == Launcher::Cmd ==> next is None,
{
    match l {
        Launcher::ShellHandler => Some(Launcher::PowerShell),
        Launcher::PowerShell => Some(Launcher::Cmd),
        Launcher::Cmd => None,
    }
}

/// Whether to keep waiting for the local server, `elapsed_ms` into a wait
/// of at most `timeout_ms`.
pub fn keep_waiting(elapsed_ms: u64, timeout_ms: u64) -> (w: bool)
    ensures
        w == (elapsed_ms < timeout_ms),
{
    elapsed_ms < timeout_ms
}

} // verus!
