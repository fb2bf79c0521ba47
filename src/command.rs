//! The concrete commands each elevated step runs, and the files it needs.
use vstd::prelude::*;
use crate::outcome::Step;
use crate::platform::Platform;

verus! {

/// Wall-clock bound, in seconds, on one elevated subprocess.
pub const DEADLINE_SECS: u64 = 300;

/// What the elevated subprocess reads as standard input.
#[derive(Clone, Copy, Debug, PartialEq, Eq, Structural)]
pub enum StdinMode {
    /// Closed: no interactive prompt is expected on the terminal.
    Null,
    /// The invoking terminal, for a typed password.
    Inherit,
}

/// A subprocess to run with elevated rights under the deadline. Its
/// standard error is captured; its standard output is captured where
/// `capture_stdout` says so and discarded otherwise.
#[derive(Clone, Debug, PartialEq, Eq)]
pub struct Invocation {
    pub program: String,
    pub args: Vec<String>,
    pub stdin: StdinMode,
    /// The askpass helper to name in `SUDO_ASKPASS`, where one is used.
    pub askpass: Option<String>,
    /// Whether standard output is kept for diagnostics (the relaunch reports
    /// its errors there).
    pub capture_stdout: bool,
    pub deadline_secs: u64,
}

/// The mathematical value of an `Invocation`.
pub struct InvocationView {
    pub program: Seq<char>,
    pub args: Seq<Seq<char>>,
    pub stdin: StdinMode,
    pub askpass: Option<Seq<char>>,
    pub capture_stdout: bool,
    pub deadline_secs: u64,
}

impl View for Invocation {
    type V = InvocationView;

    open spec fn view(&self) -> InvocationView {
        InvocationView {
            program: self.program@,
            args: self.args@.map_values(|a: String| a@),
            stdin: self.stdin,
            askpass: match self.askpass {
                Some(a) => Some(a@),
                None => None,
            },
            capture_stdout: self.capture_stdout,
            deadline_secs: self.deadline_secs,
        }
    }
}

/// `s` as the body of a PowerShell single-quoted literal: every `'`
/// doubled, every other character (a backslash too) kept as it is.
pub open spec fn single_quoted(s: Seq<char>) -> Seq<char>
    decreases s.len(),
{
    if s.len() == 0 {
        seq![]
    } else {
        single_quoted(s.drop_last()) + if s.last() == '\'' {
            seq!['\'', '\'']
        } else {
            seq![s.last()]
        }
    }
}

/// Doubles every single quote of `s`, so that `'` + result + `'` is a
/// PowerShell literal whose value is `s`.
pub fn quote_for_powershell(s: &str) -> (r: String)
    ensures
        r@ == single_quoted(s@),
{
    let n = s.unicode_len();
    let mut r = String::new();
    let mut i: usize = 0;
    while i < n
        invariant
            n == s@.len(),
            i <= n,
            r@ == single_quoted(s@.subrange(0, i as int)),
        decreases n - i,
    {
        let c = s.get_char(i);
        if c == '\'' {
            r.append("''");
            proof { reveal_strlit("''"); }
        } else {
            r.append(s.substring_char(i, i + 1));
        }
        assert(s@.subrange(0, i + 1).drop_last() =~= s@.subrange(0, i as int));
        i = i + 1;
    }
    assert(s@.subrange(0, n as int) =~= s@);
    r
}

/// `c` ends a directory name on platform `p`.
pub open spec fn is_separator(p: Platform, c: char) -> bool {
    c == '/' || (p == Platform::Windows && c == '\\')
}

/// The separator that `p` puts between a directory and a name.
pub open spec fn separator(p: Platform) -> char {
    if p == Platform::Windows { '\\' } else { '/' }
}

/// `dir` and `name` joined with the separator of `p`, unless `dir` is empty
/// or ends in a separator already.
pub open spec fn joined(p: Platform, dir: Seq<char>, name: Seq<char>) -> Seq<char> {
    if dir.len() == 0 || is_separator(p, dir.last()) {
        dir + name
    } else {
        dir + seq![separator(p)] + name
    }
}

/// Name of the staged content in the temporary directory.
pub open spec fn staging_name() -> Seq<char> {
    "thosts_hosts.tmp"@
}

/// Name of the helper script in the temporary directory.
pub open spec fn script_name() -> Seq<char> {
    "thosts_write.ps1"@
}

/// `name` placed in directory `dir` on platform `p`.
pub fn join_path(p: Platform, dir: &str, name: &str) -> (r: String)
    ensures
        r@ == joined(p, dir@, name@),
{
    let n = dir.unicode_len();
    let mut r = String::from_str(dir);
    if n > 0 {
        let c = dir.get_char(n - 1);
        if c != '/' && !(p == Platform::Windows && c == '\\') {
            if p == Platform::Windows {
                r.append("\\");
                proof { reveal_strlit("\\"); }
            } else {
                r.append("/");
                proof { reveal_strlit("/"); }
            }
        }
    }
    r.append(name);
    r
}

/// Opening of the helper script, up to the staged path.
pub open spec fn script_head() -> Seq<char> {
    "\n$tempPath = '"@
}

/// Middle of the helper script, between the staged path and the target path.
pub open spec fn script_middle() -> Seq<char> {
    "'\n$hostsPath = '"@
}

/// Rest of the helper script: copy the staged bytes over the target
/// unchanged, remove the staged file, report by exit code.
pub open spec fn script_tail() -> Seq<char> {
    "'\ntry {\n    Copy-Item -LiteralPath $tempPath -Destination $hostsPath -Force -ErrorAction Stop\n    Remove-Item -LiteralPath $tempPath -Force -ErrorAction SilentlyContinue\n    exit 0\n} catch {\n    Write-Host $_.Exception.Message\n    Remove-Item -LiteralPath $tempPath -Force -ErrorAction SilentlyContinue\n    exit 1\n}\n"@
}

/// The PowerShell script that the elevated process runs on Windows: it
/// copies the staged file over the target. It is written to a file because
/// the relaunch cannot take a multi-line script as an argument.
pub open spec fn script_text(staged: Seq<char>, target: Seq<char>) -> Seq<char> {
    script_head() + single_quoted(staged) + script_middle() + single_quoted(target) + script_tail()
}

/// The helper script for copying `staged` over `target`.
pub fn helper_script(staged: &str, target: &str) -> (r: String)
    ensures
        r@ == script_text(staged@, target@),
{
    let mut r = String::from_str("\n$tempPath = '");
    let s = quote_for_powershell(staged);
    r.append(s.as_str());
    r.append("'\n$hostsPath = '");
    let t = quote_for_powershell(target);
    r.append(t.as_str());
    r.append(
        "'\ntry {\n    Copy-Item -LiteralPath $tempPath -Destination $hostsPath -Force -ErrorAction Stop\n    Remove-Item -LiteralPath $tempPath -Force -ErrorAction SilentlyContinue\n    exit 0\n} catch {\n    Write-Host $_.Exception.Message\n    Remove-Item -LiteralPath $tempPath -Force -ErrorAction SilentlyContinue\n    exit 1\n}\n",
    );
    r
}

/// The command that relaunches PowerShell elevated on `script`, waits for
/// it, and exits with its exit code. The argument list stands in a
/// single-quoted literal, so the script path has its quotes doubled.
pub open spec fn relaunch_command(script: Seq<char>) -> Seq<char> {
    "$proc = Start-Process powershell -ArgumentList '-ExecutionPolicy Bypass -NoProfile -File \""@
        + single_quoted(script) + "\"' -Verb RunAs -Wait -PassThru; exit $proc.ExitCode"@
}

/// The askpass helper tried before the terminal on Linux.
pub open spec fn askpass_helper() -> Seq<char> {
    "/usr/bin/ssh-askpass"@
}

/// What `step` runs to copy `staged` over `target`; `script` is the helper
/// script's path, used by the relaunch only.
pub open spec fn invocation_of(step: Step, staged: Seq<char>, target: Seq<char>, script: Seq<char>) -> InvocationView {
    match step {
        Step::NativeRelaunch => InvocationView {
            program: "powershell"@,
            args: seq!["-ExecutionPolicy"@, "Bypass"@, "-NoProfile"@, "-Command"@, relaunch_command(script)],
            stdin: StdinMode::Null,
            askpass: None,
            capture_stdout: true,
            deadline_secs: DEADLINE_SECS,
        },
        Step::PolicyAgent => InvocationView {
            program: "pkexec"@,
            args: seq!["cp"@, staged, target],
            stdin: StdinMode::Null,
            askpass: None,
            capture_stdout: false,
            deadline_secs: DEADLINE_SECS,
        },
        Step::SudoAskpass => InvocationView {
            program: "sudo"@,
            args: seq!["-A"@, "cp"@, staged, target],
            stdin: StdinMode::Null,
            askpass: Some(askpass_helper()),
            capture_stdout: false,
            deadline_secs: DEADLINE_SECS,
        },
        Step::SudoInteractive => InvocationView {
            program: "sudo"@,
            args: seq!["cp"@, staged, target],
            stdin: StdinMode::Inherit,
            askpass: None,
            capture_stdout: false,
            deadline_secs: DEADLINE_SECS,
        },
    }
}

/// Builds the subprocess that `step` runs to copy `staged` over `target`.
pub fn invocation(step: Step, staged: &str, target: &str, script: &str) -> (r: Invocation)
    ensures
        r@ == invocation_of(step, staged@, target@, script@),
{
    match step {
        Step::NativeRelaunch => {
            let mut cmd = String::from_str(
                "$proc = Start-Process powershell -ArgumentList '-ExecutionPolicy Bypass -NoProfile -File \"",
            );
            let e = quote_for_powershell(script);
            cmd.append(e.as_str());
            cmd.append("\"' -Verb RunAs -Wait -PassThru; exit $proc.ExitCode");
            let args = vec![
                String::from_str("-ExecutionPolicy"),
                String::from_str("Bypass"),
                String::from_str("-NoProfile"),
                String::from_str("-Command"),
                cmd,
            ];
            let r = Invocation {
                program: String::from_str("powershell"),
                args,
                stdin: StdinMode::Null,
                askpass: None,
                capture_stdout: true,
                deadline_secs: DEADLINE_SECS,
            };
            assert(r@.args =~= invocation_of(step, staged@, target@, script@).args);
            r
        },
        Step::PolicyAgent => {
            let args = vec![String::from_str("cp"), String::from_str(staged), String::from_str(target)];
            let r = Invocation {
                program: String::from_str("pkexec"),
                args,
                stdin: StdinMode::Null,
                askpass: None,
                capture_stdout: false,
                deadline_secs: DEADLINE_SECS,
            };
            assert(r@.args =~= invocation_of(step, staged@, target@, script@).args);
            r
        },
        Step::SudoAskpass => {
            let args = vec![
                String::from_str("-A"),
                String::from_str("cp"),
                String::from_str(staged),
                String::from_str(target),
            ];
            let r = Invocation {
                program: String::from_str("sudo"),
                args,
                stdin: StdinMode::Null,
                askpass: Some(String::from_str("/usr/bin/ssh-askpass")),
                capture_stdout: false,
                deadline_secs: DEADLINE_SECS,
            };
            assert(r@.args =~= invocation_of(step, staged@, target@, script@).args);
            r
        },
        Step::SudoInteractive => {
            let args = vec![String::from_str("cp"), String::from_str(staged), String::from_str(target)];
            let r = Invocation {
                program: String::from_str("sudo"),
                args,
                stdin: StdinMode::Inherit,
                askpass: None,
                capture_stdout: false,
                deadline_secs: DEADLINE_SECS,
            };
            assert(r@.args =~= invocation_of(step, staged@, target@, script@).args);
            r
        },
    }
}

} // verus!
