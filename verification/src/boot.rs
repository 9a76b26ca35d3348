//! Boot/login state machine.
//!
//! One orchestration run drives the device from an unknown power state to a
//! ready shell and on through the test stages. The transition function is
//! pure: each loop iteration feeds it the current phase, whether the USB
//! tool is still detected, and the one observation the phase was waiting
//! for. Tool absence outranks everything: whatever was in progress, the
//! next phase is `Unconnected` until the tool returns. Only the terminal
//! phase is immune.
//!
//! The no-device counter policy is fixed here once: the counter advances on
//! every `ConnectedNoKVM` round and resets when that phase is entered from
//! any phase other than itself or the transient probe phase, so round trips
//! through the probe do not restart the escalation clock.

use vstd::prelude::*;
use crate::protocol::DetectOutcome;
use crate::status::AppStepStatus;

verus! {

/// Index of the login prompt in the probe pattern list.
pub const PROBE_LOGIN: usize = 0;

/// Index of the shell prompt in the probe pattern list.
pub const PROBE_SHELL: usize = 1;

/// Index of the bootloader prompt in the probe pattern list.
pub const PROBE_BOOTLOADER: usize = 2;

/// The one observation a phase was waiting for.
pub enum StepEvent {
    /// `ConnectedNoKVM`: whether the density over the window reads zero.
    DensityIsZero(bool),
    /// The operator chose to record a defect and stop waiting.
    OperatorAbort,
    /// `Uncertain`: outcome of probing for login, shell and bootloader
    /// prompts after a newline.
    Probe(DetectOutcome),
    /// `Booted`: the boot command has been sent.
    BootSent,
    /// `Booting`: outcome of the long wait for the login prompt.
    BootWait(DetectOutcome),
    /// `BootedLogin`: whether the whole login exchange (user name,
    /// password, newline to a shell prompt) succeeded.
    Login(bool),
    /// `LoggedIn`: whether identification and network setup succeeded.
    IpReady(bool),
    /// `DownloadFile`: whether the test payload transfer succeeded.
    DownloadDone(bool),
    /// `CheckingHardware`: whether hardware identification succeeded.
    HardwareChecked(bool),
    /// `CheckingEmmc`: outcome of the storage self-test round.
    Emmc(EmmcOutcome),
    /// `Printing`: whether a printer is available.
    PrinterReady(bool),
    /// `StartStep2`: every subsystem task has been joined.
    TasksJoined,
    /// `StartStep3`: the verdict has been recorded or the defect label
    /// printed.
    Finalized,
}

/// How one storage self-test round ended.
#[derive(Clone, Copy, Debug, PartialEq, Eq, Structural)]
pub enum EmmcOutcome {
    /// The self-test passed.
    Passed,
    /// It failed and the operator chose another attempt.
    RetryChosen,
    /// It failed and the operator chose to record the defect.
    AbortChosen,
}

/// The phase after one iteration: tool absence resets any non-terminal
/// phase; otherwise the observation decides, and an observation a phase
/// was not waiting for leaves it unchanged.
pub open spec fn next_status_spec(
    current: AppStepStatus,
    tool_detected: bool,
    event: StepEvent,
) -> AppStepStatus {
    if current == AppStepStatus::Finished {
        AppStepStatus::Finished
    } else if !tool_detected {
        AppStepStatus::Unconnected
    } else {
        match current {
            AppStepStatus::Unconnected => AppStepStatus::ConnectedNoKVM,
            AppStepStatus::ConnectedNoKVM => match event {
                StepEvent::OperatorAbort => AppStepStatus::Finished,
                StepEvent::DensityIsZero(zero) => if zero {
                    AppStepStatus::Uncertain
                } else {
                    AppStepStatus::Booting
                },
                _ => AppStepStatus::ConnectedNoKVM,
            },
            AppStepStatus::Uncertain => match event {
                StepEvent::Probe(outcome) => match outcome {
                    DetectOutcome::Matched(i) => if i == PROBE_LOGIN {
                        AppStepStatus::BootedLogin
                    } else if i == PROBE_SHELL {
                        AppStepStatus::LoggedIn
                    } else if i == PROBE_BOOTLOADER {
                        AppStepStatus::Booted
                    } else {
                        AppStepStatus::ConnectedNoKVM
                    },
                    DetectOutcome::Unmatched => AppStepStatus::Booting,
                    DetectOutcome::NoData => AppStepStatus::ConnectedNoKVM,
                    DetectOutcome::LowDensity => AppStepStatus::ConnectedNoKVM,
                },
                _ => AppStepStatus::Uncertain,
            },
            AppStepStatus::Booted => match event {
                StepEvent::BootSent => AppStepStatus::ConnectedNoKVM,
                _ => AppStepStatus::Booted,
            },
            AppStepStatus::Booting => match event {
                StepEvent::BootWait(outcome) => match outcome {
                    DetectOutcome::Matched(i) => if i == 0 {
                        AppStepStatus::BootedLogin
                    } else {
                        AppStepStatus::ConnectedNoKVM
                    },
                    DetectOutcome::Unmatched => AppStepStatus::Booting,
                    DetectOutcome::NoData => AppStepStatus::ConnectedNoKVM,
                    DetectOutcome::LowDensity => AppStepStatus::ConnectedNoKVM,
                },
                _ => AppStepStatus::Booting,
            },
            AppStepStatus::BootedLogin => match event {
                StepEvent::Login(ok) => if ok {
                    AppStepStatus::LoggedIn
                } else {
                    AppStepStatus::ConnectedNoKVM
                },
                _ => AppStepStatus::BootedLogin,
            },
            AppStepStatus::LoggedIn => match event {
                StepEvent::IpReady(ok) => if ok {
                    AppStepStatus::DownloadFile
                } else {
                    AppStepStatus::LoggedIn
                },
                StepEvent::OperatorAbort => AppStepStatus::Finished,
                _ => AppStepStatus::LoggedIn,
            },
            AppStepStatus::DownloadFile => match event {
                StepEvent::DownloadDone(ok) => if ok {
                    AppStepStatus::CheckingHardware
                } else {
                    AppStepStatus::LoggedIn
                },
                _ => AppStepStatus::DownloadFile,
            },
            AppStepStatus::CheckingHardware => match event {
                StepEvent::HardwareChecked(ok) => if ok {
                    AppStepStatus::CheckingEmmc
                } else {
                    AppStepStatus::CheckingHardware
                },
                _ => AppStepStatus::CheckingHardware,
            },
            AppStepStatus::CheckingEmmc => match event {
                StepEvent::Emmc(outcome) => match outcome {
                    EmmcOutcome::Passed => AppStepStatus::Printing,
                    EmmcOutcome::RetryChosen => AppStepStatus::CheckingEmmc,
                    EmmcOutcome::AbortChosen => AppStepStatus::Finished,
                },
                _ => AppStepStatus::CheckingEmmc,
            },
            AppStepStatus::Printing => match event {
                StepEvent::PrinterReady(ready) => if ready {
                    AppStepStatus::StartStep2
                } else {
                    AppStepStatus::Printing
                },
                _ => AppStepStatus::Printing,
            },
            AppStepStatus::StartStep2 => match event {
                StepEvent::TasksJoined => AppStepStatus::StartStep3,
                _ => AppStepStatus::StartStep2,
            },
            AppStepStatus::StartStep3 => match event {
                StepEvent::Finalized => AppStepStatus::Finished,
                _ => AppStepStatus::StartStep3,
            },
            AppStepStatus::Finished => AppStepStatus::Finished,
        }
    }
}

/// Computes the phase after one iteration of the orchestration loop.
pub fn next_status(current: &AppStepStatus, tool_detected: bool, event: &StepEvent) -> (r:
    AppStepStatus)
    ensures
        r == next_status_spec(*current, tool_detected, *event),
{
    if *current == AppStepStatus::Finished {
        return AppStepStatus::Finished;
    }
    if !tool_detected {
        return AppStepStatus::Unconnected;
    }
    match current {
        AppStepStatus::Unconnected => AppStepStatus::ConnectedNoKVM,
        AppStepStatus::ConnectedNoKVM => match event {
            StepEvent::OperatorAbort => AppStepStatus::Finished,
            StepEvent::DensityIsZero(zero) => if *zero {
                AppStepStatus::Uncertain
            } else {
                AppStepStatus::Booting
            },
            _ => AppStepStatus::ConnectedNoKVM,
        },
        AppStepStatus::Uncertain => match event {
            StepEvent::Probe(outcome) => match outcome {
                DetectOutcome::Matched(i) => if *i == PROBE_LOGIN {
                    AppStepStatus::BootedLogin
                } else if *i == PROBE_SHELL {
                    AppStepStatus::LoggedIn
                } else if *i == PROBE_BOOTLOADER {
                    AppStepStatus::Booted
                } else {
                    AppStepStatus::ConnectedNoKVM
                },
                DetectOutcome::Unmatched => AppStepStatus::Booting,
                DetectOutcome::NoData => AppStepStatus::ConnectedNoKVM,
                DetectOutcome::LowDensity => AppStepStatus::ConnectedNoKVM,
            },
            _ => AppStepStatus::Uncertain,
        },
        AppStepStatus::Booted => match event {
            StepEvent::BootSent => AppStepStatus::ConnectedNoKVM,
            _ => AppStepStatus::Booted,
        },
        AppStepStatus::Booting => match event {
            StepEvent::BootWait(outcome) => match outcome {
                DetectOutcome::Matched(i) => if *i == 0 {
                    AppStepStatus::BootedLogin
                } else {
                    AppStepStatus::ConnectedNoKVM
                },
                DetectOutcome::Unmatched => AppStepStatus::Booting,
                DetectOutcome::NoData => AppStepStatus::ConnectedNoKVM,
                DetectOutcome::LowDensity => AppStepStatus::ConnectedNoKVM,
            },
            _ => AppStepStatus::Booting,
        },
        AppStepStatus::BootedLogin => match event {
            StepEvent::Login(ok) => if *ok {
                AppStepStatus::LoggedIn
            } else {
                AppStepStatus::ConnectedNoKVM
            },
            _ => AppStepStatus::BootedLogin,
        },
        AppStepStatus::LoggedIn => match event {
            StepEvent::IpReady(ok) => if *ok {
                AppStepStatus::DownloadFile
            } else {
                AppStepStatus::LoggedIn
            },
            StepEvent::OperatorAbort => AppStepStatus::Finished,
            _ => AppStepStatus::LoggedIn,
        },
        AppStepStatus::DownloadFile => match event {
            StepEvent::DownloadDone(ok) => if *ok {
                AppStepStatus::CheckingHardware
            } else {
                AppStepStatus::LoggedIn
            },
            _ => AppStepStatus::DownloadFile,
        },
        AppStepStatus::CheckingHardware => match event {
            StepEvent::HardwareChecked(ok) => if *ok {
                AppStepStatus::CheckingEmmc
            } else {
                AppStepStatus::CheckingHardware
            },
            _ => AppStepStatus::CheckingHardware,
        },
        AppStepStatus::CheckingEmmc => match event {
            StepEvent::Emmc(outcome) => match outcome {
                EmmcOutcome::Passed => AppStepStatus::Printing,
                EmmcOutcome::RetryChosen => AppStepStatus::CheckingEmmc,
                EmmcOutcome::AbortChosen => AppStepStatus::Finished,
            },
            _ => AppStepStatus::CheckingEmmc,
        },
        AppStepStatus::Printing => match event {
            StepEvent::PrinterReady(ready) => if *ready {
                AppStepStatus::StartStep2
            } else {
                AppStepStatus::Printing
            },
            _ => AppStepStatus::Printing,
        },
        AppStepStatus::StartStep2 => match event {
            StepEvent::TasksJoined => AppStepStatus::StartStep3,
            _ => AppStepStatus::StartStep2,
        },
        AppStepStatus::StartStep3 => match event {
            StepEvent::Finalized => AppStepStatus::Finished,
            _ => AppStepStatus::StartStep3,
        },
        AppStepStatus::Finished => AppStepStatus::Finished,
    }
}

/// Tool absence has priority: from any non-terminal phase, whatever
/// observation was pending, the next phase is `Unconnected` when the tool
/// is not detected.
pub proof fn lemma_disconnect_priority(current: AppStepStatus, event: StepEvent)
    requires
        current != AppStepStatus::Finished,
    ensures
        next_status_spec(current, false, event) == AppStepStatus::Unconnected,
{
}

/// The terminal phase stays terminal, whatever is observed.
pub proof fn lemma_finished_is_terminal(tool_detected: bool, event: StepEvent)
    ensures
        next_status_spec(AppStepStatus::Finished, tool_detected, event)
            == AppStepStatus::Finished,
{
}

/// Whether entering `next` from `prev` restarts the no-device counter:
/// only entry into `ConnectedNoKVM` from a phase other than itself or the
/// transient probe phase does.
pub fn should_reset_kvm_counter(prev: &AppStepStatus, next: &AppStepStatus) -> (r: bool)
    ensures
        r == (*prev != AppStepStatus::ConnectedNoKVM && *prev != AppStepStatus::Uncertain && *next
            == AppStepStatus::ConnectedNoKVM),
{
    *prev != AppStepStatus::ConnectedNoKVM && *prev != AppStepStatus::Uncertain && *next
        == AppStepStatus::ConnectedNoKVM
}

/// Advances the no-device counter by one round, saturating at the
/// escalation threshold, and reports whether the operator must now be
/// asked.
pub fn bump_kvm_counter(count: u64, threshold: u64) -> (r: (u64, bool))
    requires
        1 <= threshold,
        count <= threshold,
    ensures
        r.0 == if count < threshold {
            count + 1
        } else {
            count as int
        },
        r.1 == (r.0 >= threshold),
{
    if count < threshold {
        ((count + 1), count + 1 >= threshold)
    } else {
        (count, true)
    }
}

} // verus!
