//! Host platforms, the elevation mechanisms each of them offers, and the
//! path of the file under management.
use vstd::prelude::*;

verus! {

/// The host operating system family.
#[derive(Clone, Copy, Debug, PartialEq, Eq, Structural)]
pub enum Platform {
    Windows,
    Linux,
    MacOs,
}

/// A channel through which a command can run with elevated rights.
#[derive(Clone, Copy, Debug, PartialEq, Eq, Structural)]
pub enum Mechanism {
    /// A secondary process relaunched through the elevation prompt (UAC).
    NativeElevatedRelaunch,
    /// The policy agent (pkexec), which shows its own graphical prompt.
    PolicyAgentPrompt,
    /// The privilege-elevation shell utility (sudo).
    InteractiveSudo,
}

/// The mechanisms to try on a platform, in the order in which they are tried.
pub open spec fn mechanisms_of(p: Platform) -> Seq<Mechanism> {
    match p {
        Platform::Windows => seq![Mechanism::NativeElevatedRelaunch],
        Platform::Linux => seq![Mechanism::PolicyAgentPrompt, Mechanism::InteractiveSudo],
        Platform::MacOs => seq![Mechanism::InteractiveSudo],
    }
}

/// The ordered, non-empty list of elevation mechanisms for `p`.
pub fn elevation_mechanisms(p: Platform) -> (r: Vec<Mechanism>)
    ensures
        r@ == mechanisms_of(p),
        r@.len() > 0,
{
    match p {
        Platform::Windows => vec![Mechanism::NativeElevatedRelaunch],
        Platform::Linux => vec![Mechanism::PolicyAgentPrompt, Mechanism::InteractiveSudo],
        Platform::MacOs => vec![Mechanism::InteractiveSudo],
    }
}

/// The platform-fixed path of the host-name resolution file.
pub open spec fn hosts_path_of(p: Platform) -> Seq<char> {
    match p {
        Platform::Windows => "C:\\Windows\\System32\\drivers\\etc\\hosts"@,
        _ => "/etc/hosts"@,
    }
}

/// The path of the managed file on platform `p`.
pub fn get_hosts_path(p: Platform) -> (r: String)
    ensures
        r@ == hosts_path_of(p),
{
    match p {
        Platform::Windows => String::from_str("C:\\Windows\\System32\\drivers\\etc\\hosts"),
        _ => String::from_str("/etc/hosts"),
    }
}

} // verus!
