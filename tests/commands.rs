use thosts::command::{helper_script, invocation, join_path, quote_for_powershell, StdinMode, DEADLINE_SECS};
use thosts::outcome::Step;
use thosts::platform::{elevation_mechanisms, get_hosts_path, Mechanism, Platform};

#[test]
fn mechanisms_per_platform() {
    assert_eq!(elevation_mechanisms(Platform::Windows), vec![Mechanism::NativeElevatedRelaunch]);
    assert_eq!(
        elevation_mechanisms(Platform::Linux),
        vec![Mechanism::PolicyAgentPrompt, Mechanism::InteractiveSudo]
    );
    assert_eq!(elevation_mechanisms(Platform::MacOs), vec![Mechanism::InteractiveSudo]);
}

#[test]
fn hosts_paths() {
    assert_eq!(get_hosts_path(Platform::Windows), r"C:\Windows\System32\drivers\etc\hosts");
    assert_eq!(get_hosts_path(Platform::Linux), "/etc/hosts");
    assert_eq!(get_hosts_path(Platform::MacOs), "/etc/hosts");
}

#[test]
fn single_quotes_are_doubled() {
    assert_eq!(quote_for_powershell(r"C:\Temp\a"), r"C:\Temp\a");
    assert_eq!(quote_for_powershell(""), "");
    assert_eq!(quote_for_powershell(r"C:\O'Brien\hosts"), r"C:\O''Brien\hosts");
    assert_eq!(quote_for_powershell("''"), "''''");
    assert_eq!(quote_for_powershell("\u{62d2}'"), "\u{62d2}''");
}

#[test]
fn staging_paths() {
    assert_eq!(join_path(Platform::Windows, r"C:\Temp", "x.tmp"), r"C:\Temp\x.tmp");
    assert_eq!(join_path(Platform::Windows, r"C:\Temp\", "x.tmp"), r"C:\Temp\x.tmp");
    assert_eq!(join_path(Platform::Windows, "C:/Temp/", "x.tmp"), "C:/Temp/x.tmp");
    assert_eq!(join_path(Platform::Linux, "/tmp", "x.tmp"), "/tmp/x.tmp");
    assert_eq!(join_path(Platform::Linux, "/tmp/", "x.tmp"), "/tmp/x.tmp");
    assert_eq!(join_path(Platform::MacOs, r"/odd\", "x.tmp"), r"/odd\/x.tmp");
    assert_eq!(join_path(Platform::Linux, "", "x.tmp"), "x.tmp");
}

#[test]
fn helper_script_names_both_paths() {
    let s = helper_script(r"C:\T\a.tmp", r"C:\hosts");
    assert!(s.starts_with("\n$tempPath = 'C:\\T\\a.tmp'\n$hostsPath = 'C:\\hosts'\ntry {\n"));
    assert!(s.contains("Copy-Item -LiteralPath $tempPath -Destination $hostsPath -Force -ErrorAction Stop"));
    assert!(!s.contains("Out-File"));
    assert!(s.ends_with("    exit 1\n}\n"));
}

#[test]
fn helper_script_keeps_a_quote_inside_the_literal() {
    let s = helper_script(r"C:\T\a.tmp", r"C:\x'; Remove-Item C:\ -Recurse; '");
    assert!(s.contains("$hostsPath = 'C:\\x''; Remove-Item C:\\ -Recurse; '''\n"));
}

#[test]
fn policy_agent_invocation() {
    let inv = invocation(Step::PolicyAgent, "/tmp/thosts_hosts.tmp", "/etc/hosts", "");
    assert_eq!(inv.program, "pkexec");
    assert_eq!(inv.args, vec!["cp", "/tmp/thosts_hosts.tmp", "/etc/hosts"]);
    assert_eq!(inv.stdin, StdinMode::Null);
    assert_eq!(inv.askpass, None);
    assert!(!inv.capture_stdout);
    assert_eq!(inv.deadline_secs, DEADLINE_SECS);
    assert_eq!(DEADLINE_SECS, 300);
}

#[test]
fn sudo_invocations() {
    let a = invocation(Step::SudoAskpass, "/tmp/thosts_hosts.tmp", "/etc/hosts", "");
    assert_eq!(a.program, "sudo");
    assert_eq!(a.args, vec!["-A", "cp", "/tmp/thosts_hosts.tmp", "/etc/hosts"]);
    assert_eq!(a.stdin, StdinMode::Null);
    assert_eq!(a.askpass, Some("/usr/bin/ssh-askpass".to_string()));
    let i = invocation(Step::SudoInteractive, "/tmp/thosts_hosts.tmp", "/etc/hosts", "");
    assert_eq!(i.args, vec!["cp", "/tmp/thosts_hosts.tmp", "/etc/hosts"]);
    assert_eq!(i.stdin, StdinMode::Inherit);
    assert_eq!(i.askpass, None);
}

#[test]
fn relaunch_invocation() {
    let inv = invocation(Step::NativeRelaunch, r"C:\T\a.tmp", r"C:\hosts", r"C:\T\w.ps1");
    assert_eq!(inv.program, "powershell");
    assert_eq!(
        inv.args,
        vec![
            "-ExecutionPolicy",
            "Bypass",
            "-NoProfile",
            "-Command",
            r#"$proc = Start-Process powershell -ArgumentList '-ExecutionPolicy Bypass -NoProfile -File "C:\T\w.ps1"' -Verb RunAs -Wait -PassThru; exit $proc.ExitCode"#,
        ]
    );
    assert_eq!(inv.stdin, StdinMode::Null);
    assert!(inv.capture_stdout);
    let q = invocation(Step::NativeRelaunch, "a", "b", r"C:\it's\w.ps1");
    assert!(q.args[4].contains(r#"-File "C:\it''s\w.ps1"'"#));
}
