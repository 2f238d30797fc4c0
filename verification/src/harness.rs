//! Names that trials of the monitor on a real host agree on: the actions that can be
//! asked of a running monitor, and where the guest images lie.
use vstd::prelude::*;

verus! {

/// An action that can be asked of a running monitor.
#[derive(Copy, Clone, Debug, PartialEq, Eq, Structural)]
pub enum ActionType {
    /// Write the metrics out now.
    FlushMetrics,
    /// Start the guest.
    InstanceStart,
    /// Press Ctrl, Alt and Delete in the guest.
    SendCtrlAltDel,
}

/// What is sent to ask for an action.
#[derive(Copy, Clone, Debug, PartialEq, Eq, Structural)]
pub struct ActionBody {
    /// The action that is asked for.
    pub action_type: ActionType,
}

/// The processor architecture of the host.
#[derive(Copy, Clone, Debug, PartialEq, Eq, Structural)]
pub enum HostArch {
    /// 64-bit x86.
    X86_64,
    /// 64-bit ARM.
    Aarch64,
}

/// The name by which an action is written.
pub fn action_name(action: ActionType) -> (name: &'static str)
    ensures
        name@ == (match action {
            ActionType::FlushMetrics => "FlushMetrics"@,
            ActionType::InstanceStart => "InstanceStart"@,
            ActionType::SendCtrlAltDel => "SendCtrlAltDel"@,
        }),
{
    match action {
        ActionType::FlushMetrics => "FlushMetrics",
        ActionType::InstanceStart => "InstanceStart",
        ActionType::SendCtrlAltDel => "SendCtrlAltDel",
    }
}

/// Where the guest images lie for an architecture: the two kernels, the root file
/// system and the key for logging in.
pub fn artifacts_paths(arch: HostArch) -> (paths: (&'static str, &'static str, &'static str, &'static str))
    ensures
        arch == HostArch::X86_64 ==> paths.0@ == "../../build/img/x86_64/vmlinux-5.10.210"@
            && paths.1@ == "../../build/img/x86_64/vmlinux-6.1.82"@ && paths.2@
            == "../../build/img/x86_64/ubuntu-22.04.ext4"@ && paths.3@
            == "../../build/img/x86_64/ubuntu-22.04.id_rsa"@,
        arch == HostArch::Aarch64 ==> paths.0@ == "../../build/img/aarch64/vmlinux-5.10.210"@
            && paths.1@ == "../../build/img/aarch64/vmlinux-6.1.82"@ && paths.2@
            == "../../build/img/aarch64/ubuntu-22.04.ext4"@ && paths.3@
            == "../../build/img/aarch64/ubuntu-22.04.id_rsa"@,
{
    match arch {
        HostArch::X86_64 => (
            "../../build/img/x86_64/vmlinux-5.10.210",
            "../../build/img/x86_64/vmlinux-6.1.82",
            "../../build/img/x86_64/ubuntu-22.04.ext4",
            "../../build/img/x86_64/ubuntu-22.04.id_rsa",
        ),
        HostArch::Aarch64 => (
            "../../build/img/aarch64/vmlinux-5.10.210",
            "../../build/img/aarch64/vmlinux-6.1.82",
            "../../build/img/aarch64/ubuntu-22.04.ext4",
            "../../build/img/aarch64/ubuntu-22.04.id_rsa",
        ),
    }
}

} // verus!
