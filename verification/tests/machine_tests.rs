use kvm_factory_test::boot::{
    bump_kvm_counter, next_status, should_reset_kvm_counter, EmmcOutcome, StepEvent,
};
use kvm_factory_test::flow::{
    advance_sub_state, are_all_parallel_tasks_completed, clear_disconnect_flag, get_current_state,
    get_state_duration, handle_disconnect, set_main_state, set_parallel_task_completed,
    GlobalState, MainState, StateError, SubState1, SubState2, SubState3,
};
use kvm_factory_test::protocol::DetectOutcome;
use kvm_factory_test::status::{
    all_step_status_is_success, add_error_msg, clean_step1_status, clear_error_msg,
    get_error_msg, init_global_state, set_state_to_struct, AppStepStatus, AppTestStatus,
};

#[test]
fn disconnect_outranks_any_phase() {
    let phases = [
        AppStepStatus::Unconnected,
        AppStepStatus::ConnectedNoKVM,
        AppStepStatus::Uncertain,
        AppStepStatus::Booted,
        AppStepStatus::Booting,
        AppStepStatus::BootedLogin,
        AppStepStatus::LoggedIn,
        AppStepStatus::DownloadFile,
        AppStepStatus::CheckingHardware,
        AppStepStatus::CheckingEmmc,
        AppStepStatus::Printing,
        AppStepStatus::StartStep2,
        AppStepStatus::StartStep3,
    ];
    for phase in phases {
        assert_eq!(
            next_status(&phase, false, &StepEvent::BootWait(DetectOutcome::Unmatched)),
            AppStepStatus::Unconnected
        );
    }
    assert_eq!(
        next_status(&AppStepStatus::Finished, false, &StepEvent::Finalized),
        AppStepStatus::Finished
    );
}

#[test]
fn probe_outcomes_branch_per_prompt() {
    let s = AppStepStatus::Uncertain;
    assert_eq!(
        next_status(&s, true, &StepEvent::Probe(DetectOutcome::Matched(0))),
        AppStepStatus::BootedLogin
    );
    assert_eq!(
        next_status(&s, true, &StepEvent::Probe(DetectOutcome::Matched(1))),
        AppStepStatus::LoggedIn
    );
    assert_eq!(
        next_status(&s, true, &StepEvent::Probe(DetectOutcome::Matched(2))),
        AppStepStatus::Booted
    );
    assert_eq!(
        next_status(&s, true, &StepEvent::Probe(DetectOutcome::Unmatched)),
        AppStepStatus::Booting
    );
    assert_eq!(
        next_status(&s, true, &StepEvent::Probe(DetectOutcome::NoData)),
        AppStepStatus::ConnectedNoKVM
    );
}

#[test]
fn boot_wait_outcomes() {
    let s = AppStepStatus::Booting;
    assert_eq!(
        next_status(&s, true, &StepEvent::BootWait(DetectOutcome::Matched(0))),
        AppStepStatus::BootedLogin
    );
    assert_eq!(
        next_status(&s, true, &StepEvent::BootWait(DetectOutcome::Unmatched)),
        AppStepStatus::Booting
    );
    assert_eq!(
        next_status(&s, true, &StepEvent::BootWait(DetectOutcome::NoData)),
        AppStepStatus::ConnectedNoKVM
    );
    assert_eq!(
        next_status(&s, true, &StepEvent::BootWait(DetectOutcome::LowDensity)),
        AppStepStatus::ConnectedNoKVM
    );
}

#[test]
fn login_failure_returns_to_waiting() {
    assert_eq!(
        next_status(&AppStepStatus::BootedLogin, true, &StepEvent::Login(false)),
        AppStepStatus::ConnectedNoKVM
    );
    assert_eq!(
        next_status(&AppStepStatus::BootedLogin, true, &StepEvent::Login(true)),
        AppStepStatus::LoggedIn
    );
}

#[test]
fn run_progression_through_stages() {
    assert_eq!(
        next_status(&AppStepStatus::Unconnected, true, &StepEvent::TasksJoined),
        AppStepStatus::ConnectedNoKVM
    );
    assert_eq!(
        next_status(&AppStepStatus::ConnectedNoKVM, true, &StepEvent::DensityIsZero(true)),
        AppStepStatus::Uncertain
    );
    assert_eq!(
        next_status(&AppStepStatus::ConnectedNoKVM, true, &StepEvent::DensityIsZero(false)),
        AppStepStatus::Booting
    );
    assert_eq!(
        next_status(&AppStepStatus::Booted, true, &StepEvent::BootSent),
        AppStepStatus::ConnectedNoKVM
    );
    assert_eq!(
        next_status(&AppStepStatus::LoggedIn, true, &StepEvent::IpReady(true)),
        AppStepStatus::DownloadFile
    );
    assert_eq!(
        next_status(&AppStepStatus::DownloadFile, true, &StepEvent::DownloadDone(false)),
        AppStepStatus::LoggedIn
    );
    assert_eq!(
        next_status(&AppStepStatus::CheckingHardware, true, &StepEvent::HardwareChecked(true)),
        AppStepStatus::CheckingEmmc
    );
    assert_eq!(
        next_status(&AppStepStatus::CheckingEmmc, true, &StepEvent::Emmc(EmmcOutcome::Passed)),
        AppStepStatus::Printing
    );
    assert_eq!(
        next_status(&AppStepStatus::CheckingEmmc, true, &StepEvent::Emmc(EmmcOutcome::AbortChosen)),
        AppStepStatus::Finished
    );
    assert_eq!(
        next_status(&AppStepStatus::Printing, true, &StepEvent::PrinterReady(true)),
        AppStepStatus::StartStep2
    );
    assert_eq!(
        next_status(&AppStepStatus::StartStep2, true, &StepEvent::TasksJoined),
        AppStepStatus::StartStep3
    );
    assert_eq!(
        next_status(&AppStepStatus::StartStep3, true, &StepEvent::Finalized),
        AppStepStatus::Finished
    );
}

#[test]
fn kvm_counter_policy() {
    assert!(should_reset_kvm_counter(&AppStepStatus::Booting, &AppStepStatus::ConnectedNoKVM));
    assert!(!should_reset_kvm_counter(
        &AppStepStatus::Uncertain,
        &AppStepStatus::ConnectedNoKVM
    ));
    assert!(!should_reset_kvm_counter(
        &AppStepStatus::ConnectedNoKVM,
        &AppStepStatus::ConnectedNoKVM
    ));
    assert!(!should_reset_kvm_counter(&AppStepStatus::Booting, &AppStepStatus::Booting));
    assert_eq!(bump_kvm_counter(0, 10), (1, false));
    assert_eq!(bump_kvm_counter(9, 10), (10, true));
    assert_eq!(bump_kvm_counter(10, 10), (10, true));
}

fn all_success_state() -> kvm_factory_test::status::TestState {
    let mut s = init_global_state();
    for key in [
        "wait_connection",
        "wait_boot",
        "get_ip",
        "download_test",
        "detect_hardware",
        "emmc_test",
        "dtb",
        "uboot",
        "kernel",
        "app_install",
        "hdmi_wait_connection",
        "hdmi_io_test",
        "hdmi_loop_test",
        "hdmi_capture_test",
        "hdmi_version",
        "hdmi_write_edid",
        "usb_wait_connection",
        "eth_wait_connection",
        "eth_upload_test",
        "eth_download_test",
        "wifi_wait_connection",
        "wifi_upload_test",
        "wifi_download_test",
        "screen",
        "touch",
        "knob",
        "atx",
        "io",
        "tf_card",
        "uart",
    ] {
        set_state_to_struct(&mut s, key, AppTestStatus::Success);
    }
    s
}

#[test]
fn all_success_holds_when_everything_passed() {
    let s = all_success_state();
    assert!(all_step_status_is_success(&s));
}

#[test]
fn hidden_subsystems_do_not_block_success() {
    let mut s = all_success_state();
    set_state_to_struct(&mut s, "wifi_wait_connection", AppTestStatus::Hidden);
    set_state_to_struct(&mut s, "wifi_upload_test", AppTestStatus::Hidden);
    set_state_to_struct(&mut s, "wifi_download_test", AppTestStatus::Hidden);
    set_state_to_struct(&mut s, "knob", AppTestStatus::Hidden);
    assert!(all_step_status_is_success(&s));
}

#[test]
fn one_failed_subsystem_blocks_success() {
    let mut s = all_success_state();
    set_state_to_struct(&mut s, "screen", AppTestStatus::Failed);
    assert!(!all_step_status_is_success(&s));
}

#[test]
fn a_hidden_entry_never_blocks_success() {
    let mut s = all_success_state();
    set_state_to_struct(&mut s, "screen", AppTestStatus::Hidden);
    set_state_to_struct(&mut s, "emmc_test", AppTestStatus::Hidden);
    assert!(all_step_status_is_success(&s));
}

#[test]
fn untested_state_is_not_success() {
    let s = init_global_state();
    assert!(!all_step_status_is_success(&s));
}

#[test]
fn unknown_entry_name_changes_nothing() {
    let mut s = all_success_state();
    set_state_to_struct(&mut s, "print_error_msg", AppTestStatus::Failed);
    assert!(all_step_status_is_success(&s));
}

#[test]
fn error_accumulator_appends_and_clears() {
    let mut s = init_global_state();
    add_error_msg(&mut s, "HDMI loop-back failed | ");
    add_error_msg(&mut s, "USB short | ");
    assert_eq!(get_error_msg(&s), "HDMI loop-back failed | USB short | ");
    clear_error_msg(&mut s);
    assert_eq!(get_error_msg(&s), "");
}

#[test]
fn clean_step1_resets_the_record() {
    let mut s = all_success_state();
    add_error_msg(&mut s, "leftover");
    clean_step1_status(&mut s);
    assert_eq!(s.wait_connection, AppTestStatus::UnTested);
    assert_eq!(s.uart, AppTestStatus::UnTested);
    assert_eq!(get_error_msg(&s), "");
}

#[test]
fn status_labels_match_the_surface() {
    assert_eq!(AppTestStatus::UnTested.label(), "untested");
    assert_eq!(AppTestStatus::Testing.label(), "testing");
    assert_eq!(AppTestStatus::Repairing.label(), "repairing");
    assert_eq!(AppTestStatus::Success.label(), "success");
    assert_eq!(AppTestStatus::Failed.label(), "failed");
    assert_eq!(AppTestStatus::Hidden.label(), "hidden");
}

#[test]
fn flow_moves_forward_one_stage_at_a_time() {
    let mut s = GlobalState::default();
    assert_eq!(set_main_state(&mut s, MainState::State3, 5), Err(StateError::InvalidTransition));
    assert_eq!(set_main_state(&mut s, MainState::State2, 5), Ok(()));
    assert_eq!(s.main_state, MainState::State2);
    assert_eq!(s.sub_state2, Some(SubState2::Step1));
    assert_eq!(set_main_state(&mut s, MainState::State3, 6), Ok(()));
    assert_eq!(s.sub_state3, Some(SubState3::Step1));
    assert_eq!(set_main_state(&mut s, MainState::State1, 7), Ok(()));
    assert_eq!(s.sub_state1, Some(SubState1::Step1));
}

#[test]
fn flow_advances_substeps_and_rolls_over() {
    let mut s = GlobalState::default();
    advance_sub_state(&mut s, 1);
    assert_eq!(s.sub_state1, Some(SubState1::Step2));
    advance_sub_state(&mut s, 2);
    assert_eq!(s.sub_state1, Some(SubState1::Step3));
    advance_sub_state(&mut s, 3);
    assert_eq!(s.main_state, MainState::State2);
    assert_eq!(s.sub_state1, None);
    assert_eq!(s.sub_state2, Some(SubState2::Step1));
}

#[test]
fn flow_parallel_tasks_join() {
    let mut s = GlobalState::default();
    assert_eq!(set_parallel_task_completed(&mut s, 4, 1), Err(StateError::InvalidTaskId));
    assert!(!are_all_parallel_tasks_completed(&s));
    set_parallel_task_completed(&mut s, 1, 1).unwrap();
    set_parallel_task_completed(&mut s, 2, 2).unwrap();
    assert!(!are_all_parallel_tasks_completed(&s));
    set_parallel_task_completed(&mut s, 3, 3).unwrap();
    assert!(are_all_parallel_tasks_completed(&s));
}

#[test]
fn flow_disconnect_resets_everything() {
    let mut s = GlobalState::default();
    set_main_state(&mut s, MainState::State2, 1).unwrap();
    set_parallel_task_completed(&mut s, 1, 2).unwrap();
    handle_disconnect(&mut s, 3);
    assert_eq!(s.main_state, MainState::State1);
    assert_eq!(s.sub_state1, Some(SubState1::Step1));
    assert!(s.disconnected);
    clear_disconnect_flag(&mut s, 4);
    assert!(!s.disconnected);
}

#[test]
fn flow_duration_is_measured_from_last_change() {
    let mut s = GlobalState::default();
    advance_sub_state(&mut s, 100);
    assert_eq!(get_state_duration(&s, 175), 75);
    assert_eq!(get_state_duration(&s, 50), 0);
    let copy = get_current_state(&s);
    assert_eq!(copy.last_change_ms, 100);
}
