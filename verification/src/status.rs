//! The test-result record and its statuses.
//!
//! One record is kept per device run: a fixed set of subsystem entries,
//! each in one of six statuses, plus an append-only accumulator of defect
//! text. Entries are addressed by the same names the status surface uses.
//! "Hidden" marks a subsystem the hardware variant lacks; a hidden entry
//! never blocks overall success.

use vstd::prelude::*;
use vstd::string::{StringSliceAdditionalSpecFns, StringExecFns};
use crate::text::str_eq;

verus! {

/// Status of one subsystem test.
#[derive(Clone, Copy, Debug, PartialEq, Eq, Structural)]
pub enum AppTestStatus {
    /// Not yet run.
    UnTested,
    /// Currently running.
    Testing,
    /// Failed at least once; being retried.
    Repairing,
    /// Passed.
    Success,
    /// Failed for good.
    Failed,
    /// Not present on this hardware variant; never blocks success.
    Hidden,
}

impl AppTestStatus {
    /// The name the status surface publishes for this status.
    pub fn label(&self) -> (r: String)
        ensures
            match self {
                AppTestStatus::UnTested => r@ == "untested"@,
                AppTestStatus::Testing => r@ == "testing"@,
                AppTestStatus::Repairing => r@ == "repairing"@,
                AppTestStatus::Success => r@ == "success"@,
                AppTestStatus::Failed => r@ == "failed"@,
                AppTestStatus::Hidden => r@ == "hidden"@,
            },
    {
        match self {
            AppTestStatus::UnTested => String::from_str("untested"),
            AppTestStatus::Testing => String::from_str("testing"),
            AppTestStatus::Repairing => String::from_str("repairing"),
            AppTestStatus::Success => String::from_str("success"),
            AppTestStatus::Failed => String::from_str("failed"),
            AppTestStatus::Hidden => String::from_str("hidden"),
        }
    }
}

/// Phase of the first-stage bring-up, from tool detection to the final
/// label, including the fan-out and finalization steps.
#[derive(Clone, Copy, Debug, PartialEq, Eq, Structural)]
pub enum AppStepStatus {
    /// The USB tool is not detected.
    Unconnected,
    /// The tool is present but no device answers behind it.
    ConnectedNoKVM,
    /// Traffic is silent; probe with a newline to find out where we are.
    Uncertain,
    /// The bootloader prompt appeared; a boot command is due.
    Booted,
    /// The device is booting; wait for the login prompt.
    Booting,
    /// The login prompt appeared; run the login exchange.
    BootedLogin,
    /// Logged in at a shell; identify and configure.
    LoggedIn,
    /// Transferring the test payload.
    DownloadFile,
    /// Running hardware identification.
    CheckingHardware,
    /// Running the storage self-test.
    CheckingEmmc,
    /// Printing the identity label.
    Printing,
    /// Spawning and joining the subsystem test tasks.
    StartStep2,
    /// Finalizing: record the verdict or print the defect label.
    StartStep3,
    /// The run is over.
    Finished,
}

/// Phase of the reduced single-stage flow that ends right after printing,
/// with no parallel fan-out of its own.
#[derive(Clone, Copy, Debug, PartialEq, Eq, Structural)]
pub enum AppStep1Status {
    /// The USB tool is not detected.
    Unconnected,
    /// The tool is present but no device answers behind it.
    ConnectedNoKVM,
    /// Traffic is silent; probe with a newline to find out where we are.
    Uncertain,
    /// The bootloader prompt appeared; a boot command is due.
    Booted,
    /// The device is booting; wait for the login prompt.
    Booting,
    /// The login prompt appeared; run the login exchange.
    BootedLogin,
    /// Logged in at a shell.
    LoggedIn,
    /// Transferring the test payload.
    DownloadFile,
    /// Running hardware identification.
    CheckingHardware,
    /// Running the storage self-test.
    CheckingEmmc,
    /// Printing the identity label.
    Printing,
    /// The run is over.
    Finished,
}

/// The per-run test-result record.
pub struct TestState {
    pub wait_connection: AppTestStatus,
    pub wait_boot: AppTestStatus,
    pub get_ip: AppTestStatus,
    pub download_test: AppTestStatus,
    pub detect_hardware: AppTestStatus,
    pub emmc_test: AppTestStatus,
    pub dtb: AppTestStatus,
    pub uboot: AppTestStatus,
    pub kernel: AppTestStatus,
    pub app_install: AppTestStatus,
    pub hdmi_wait_connection: AppTestStatus,
    pub hdmi_io_test: AppTestStatus,
    pub hdmi_loop_test: AppTestStatus,
    pub hdmi_capture_test: AppTestStatus,
    pub hdmi_version: AppTestStatus,
    pub hdmi_write_edid: AppTestStatus,
    pub usb_wait_connection: AppTestStatus,
    pub eth_wait_connection: AppTestStatus,
    pub eth_upload_test: AppTestStatus,
    pub eth_download_test: AppTestStatus,
    pub wifi_wait_connection: AppTestStatus,
    pub wifi_upload_test: AppTestStatus,
    pub wifi_download_test: AppTestStatus,
    pub screen: AppTestStatus,
    pub touch: AppTestStatus,
    pub knob: AppTestStatus,
    pub atx: AppTestStatus,
    pub io: AppTestStatus,
    pub tf_card: AppTestStatus,
    pub uart: AppTestStatus,
    pub auto_start: AppTestStatus,
    /// Append-only accumulator of defect descriptions.
    pub error_msg: String,
}

/// The record at the start of a device run.
pub open spec fn initial_state(s: TestState) -> bool {
    &&& s.wait_connection == AppTestStatus::UnTested
    &&& s.wait_boot == AppTestStatus::UnTested
    &&& s.get_ip == AppTestStatus::UnTested
    &&& s.download_test == AppTestStatus::UnTested
    &&& s.detect_hardware == AppTestStatus::UnTested
    &&& s.emmc_test == AppTestStatus::UnTested
    &&& s.dtb == AppTestStatus::UnTested
    &&& s.uboot == AppTestStatus::UnTested
    &&& s.kernel == AppTestStatus::UnTested
    &&& s.app_install == AppTestStatus::UnTested
    &&& s.hdmi_wait_connection == AppTestStatus::UnTested
    &&& s.hdmi_io_test == AppTestStatus::UnTested
    &&& s.hdmi_loop_test == AppTestStatus::UnTested
    &&& s.hdmi_capture_test == AppTestStatus::UnTested
    &&& s.hdmi_version == AppTestStatus::UnTested
    &&& s.hdmi_write_edid == AppTestStatus::UnTested
    &&& s.usb_wait_connection == AppTestStatus::UnTested
    &&& s.eth_wait_connection == AppTestStatus::UnTested
    &&& s.eth_upload_test == AppTestStatus::UnTested
    &&& s.eth_download_test == AppTestStatus::UnTested
    &&& s.wifi_wait_connection == AppTestStatus::UnTested
    &&& s.wifi_upload_test == AppTestStatus::UnTested
    &&& s.wifi_download_test == AppTestStatus::UnTested
    &&& s.screen == AppTestStatus::UnTested
    &&& s.touch == AppTestStatus::UnTested
    &&& s.knob == AppTestStatus::UnTested
    &&& s.atx == AppTestStatus::UnTested
    &&& s.io == AppTestStatus::UnTested
    &&& s.tf_card == AppTestStatus::UnTested
    &&& s.uart == AppTestStatus::UnTested
    &&& s.auto_start == AppTestStatus::UnTested
    &&& s.error_msg@ == Seq::<char>::empty()
}

/// A fresh record: every subsystem untested, no defect text.
pub fn init_global_state() -> (r: TestState)
    ensures
        initial_state(r),
{
    TestState {
        wait_connection: AppTestStatus::UnTested,
        wait_boot: AppTestStatus::UnTested,
        get_ip: AppTestStatus::UnTested,
        download_test: AppTestStatus::UnTested,
        detect_hardware: AppTestStatus::UnTested,
        emmc_test: AppTestStatus::UnTested,
        dtb: AppTestStatus::UnTested,
        uboot: AppTestStatus::UnTested,
        kernel: AppTestStatus::UnTested,
        app_install: AppTestStatus::UnTested,
        hdmi_wait_connection: AppTestStatus::UnTested,
        hdmi_io_test: AppTestStatus::UnTested,
        hdmi_loop_test: AppTestStatus::UnTested,
        hdmi_capture_test: AppTestStatus::UnTested,
        hdmi_version: AppTestStatus::UnTested,
        hdmi_write_edid: AppTestStatus::UnTested,
        usb_wait_connection: AppTestStatus::UnTested,
        eth_wait_connection: AppTestStatus::UnTested,
        eth_upload_test: AppTestStatus::UnTested,
        eth_download_test: AppTestStatus::UnTested,
        wifi_wait_connection: AppTestStatus::UnTested,
        wifi_upload_test: AppTestStatus::UnTested,
        wifi_download_test: AppTestStatus::UnTested,
        screen: AppTestStatus::UnTested,
        touch: AppTestStatus::UnTested,
        knob: AppTestStatus::UnTested,
        atx: AppTestStatus::UnTested,
        io: AppTestStatus::UnTested,
        tf_card: AppTestStatus::UnTested,
        uart: AppTestStatus::UnTested,
        auto_start: AppTestStatus::UnTested,
        error_msg: String::new(),
    }
}

/// The record with the entry named `key` set to `v`; unchanged when no
/// entry has that name.
pub open spec fn with_status(s: TestState, key: Seq<u8>, v: AppTestStatus) -> TestState {
    if key == "wait_connection".spec_bytes() {
        TestState { wait_connection: v, ..s }
    } else if key == "wait_boot".spec_bytes() {
        TestState { wait_boot: v, ..s }
    } else if key == "get_ip".spec_bytes() {
        TestState { get_ip: v, ..s }
    } else if key == "download_test".spec_bytes() {
        TestState { download_test: v, ..s }
    } else if key == "detect_hardware".spec_bytes() {
        TestState { detect_hardware: v, ..s }
    } else if key == "emmc_test".spec_bytes() {
        TestState { emmc_test: v, ..s }
    } else if key == "dtb".spec_bytes() {
        TestState { dtb: v, ..s }
    } else if key == "uboot".spec_bytes() {
        TestState { uboot: v, ..s }
    } else if key == "kernel".spec_bytes() {
        TestState { kernel: v, ..s }
    } else if key == "app_install".spec_bytes() {
        TestState { app_install: v, ..s }
    } else if key == "hdmi_wait_connection".spec_bytes() {
        TestState { hdmi_wait_connection: v, ..s }
    } else if key == "hdmi_io_test".spec_bytes() {
        TestState { hdmi_io_test: v, ..s }
    } else if key == "hdmi_loop_test".spec_bytes() {
        TestState { hdmi_loop_test: v, ..s }
    } else if key == "hdmi_capture_test".spec_bytes() {
        TestState { hdmi_capture_test: v, ..s }
    } else if key == "hdmi_version".spec_bytes() {
        TestState { hdmi_version: v, ..s }
    } else if key == "hdmi_write_edid".spec_bytes() {
        TestState { hdmi_write_edid: v, ..s }
    } else if key == "usb_wait_connection".spec_bytes() {
        TestState { usb_wait_connection: v, ..s }
    } else if key == "eth_wait_connection".spec_bytes() {
        TestState { eth_wait_connection: v, ..s }
    } else if key == "eth_upload_test".spec_bytes() {
        TestState { eth_upload_test: v, ..s }
    } else if key == "eth_download_test".spec_bytes() {
        TestState { eth_download_test: v, ..s }
    } else if key == "wifi_wait_connection".spec_bytes() {
        TestState { wifi_wait_connection: v, ..s }
    } else if key == "wifi_upload_test".spec_bytes() {
        TestState { wifi_upload_test: v, ..s }
    } else if key == "wifi_download_test".spec_bytes() {
        TestState { wifi_download_test: v, ..s }
    } else if key == "screen".spec_bytes() {
        TestState { screen: v, ..s }
    } else if key == "touch".spec_bytes() {
        TestState { touch: v, ..s }
    } else if key == "knob".spec_bytes() {
        TestState { knob: v, ..s }
    } else if key == "atx".spec_bytes() {
        TestState { atx: v, ..s }
    } else if key == "io".spec_bytes() {
        TestState { io: v, ..s }
    } else if key == "tf_card".spec_bytes() {
        TestState { tf_card: v, ..s }
    } else if key == "uart".spec_bytes() {
        TestState { uart: v, ..s }
    } else if key == "auto_start".spec_bytes() {
        TestState { auto_start: v, ..s }
    } else {
        s
    }
}

/// Sets the status of the subsystem entry named `test_str`. A name that
/// matches no entry leaves the record unchanged.
pub fn set_state_to_struct(state: &mut TestState, test_str: &str, test_status: AppTestStatus)
    ensures
        *final(state) == with_status(*old(state), test_str.spec_bytes(), test_status),
{
    if str_eq(test_str, "wait_connection") {
        state.wait_connection = test_status;
    } else if str_eq(test_str, "wait_boot") {
        state.wait_boot = test_status;
    } else if str_eq(test_str, "get_ip") {
        state.get_ip = test_status;
    } else if str_eq(test_str, "download_test") {
        state.download_test = test_status;
    } else if str_eq(test_str, "detect_hardware") {
        state.detect_hardware = test_status;
    } else if str_eq(test_str, "emmc_test") {
        state.emmc_test = test_status;
    } else if str_eq(test_str, "dtb") {
        state.dtb = test_status;
    } else if str_eq(test_str, "uboot") {
        state.uboot = test_status;
    } else if str_eq(test_str, "kernel") {
        state.kernel = test_status;
    } else if str_eq(test_str, "app_install") {
        state.app_install = test_status;
    } else if str_eq(test_str, "hdmi_wait_connection") {
        state.hdmi_wait_connection = test_status;
    } else if str_eq(test_str, "hdmi_io_test") {
        state.hdmi_io_test = test_status;
    } else if str_eq(test_str, "hdmi_loop_test") {
        state.hdmi_loop_test = test_status;
    } else if str_eq(test_str, "hdmi_capture_test") {
        state.hdmi_capture_test = test_status;
    } else if str_eq(test_str, "hdmi_version") {
        state.hdmi_version = test_status;
    } else if str_eq(test_str, "hdmi_write_edid") {
        state.hdmi_write_edid = test_status;
    } else if str_eq(test_str, "usb_wait_connection") {
        state.usb_wait_connection = test_status;
    } else if str_eq(test_str, "eth_wait_connection") {
        state.eth_wait_connection = test_status;
    } else if str_eq(test_str, "eth_upload_test") {
        state.eth_upload_test = test_status;
    } else if str_eq(test_str, "eth_download_test") {
        state.eth_download_test = test_status;
    } else if str_eq(test_str, "wifi_wait_connection") {
        state.wifi_wait_connection = test_status;
    } else if str_eq(test_str, "wifi_upload_test") {
        state.wifi_upload_test = test_status;
    } else if str_eq(test_str, "wifi_download_test") {
        state.wifi_download_test = test_status;
    } else if str_eq(test_str, "screen") {
        state.screen = test_status;
    } else if str_eq(test_str, "touch") {
        state.touch = test_status;
    } else if str_eq(test_str, "knob") {
        state.knob = test_status;
    } else if str_eq(test_str, "atx") {
        state.atx = test_status;
    } else if str_eq(test_str, "io") {
        state.io = test_status;
    } else if str_eq(test_str, "tf_card") {
        state.tf_card = test_status;
    } else if str_eq(test_str, "uart") {
        state.uart = test_status;
    } else if str_eq(test_str, "auto_start") {
        state.auto_start = test_status;
    }
}

/// Appends one defect description to the accumulator.
pub fn add_error_msg(state: &mut TestState, msg: &str)
    ensures
        final(state).error_msg@ == old(state).error_msg@ + msg@,
        *final(state) == (TestState { error_msg: final(state).error_msg, ..*old(state) }),
{
    state.error_msg.append(msg);
}

/// Empties the accumulator, at the start of a device run.
pub fn clear_error_msg(state: &mut TestState)
    ensures
        final(state).error_msg@ == Seq::<char>::empty(),
        *final(state) == (TestState { error_msg: final(state).error_msg, ..*old(state) }),
{
    state.error_msg = String::new();
}

/// The accumulated defect text.
pub fn get_error_msg(state: &TestState) -> (r: String)
    ensures
        r@ == state.error_msg@,
{
    state.error_msg.clone()
}

/// Resets the whole record for a new device run: every entry untested and
/// the accumulator empty.
pub fn clean_step1_status(state: &mut TestState)
    ensures
        initial_state(*final(state)),
{
    state.wait_connection = AppTestStatus::UnTested;
    state.wait_boot = AppTestStatus::UnTested;
    state.get_ip = AppTestStatus::UnTested;
    state.download_test = AppTestStatus::UnTested;
    state.detect_hardware = AppTestStatus::UnTested;
    state.emmc_test = AppTestStatus::UnTested;
    state.dtb = AppTestStatus::UnTested;
    state.uboot = AppTestStatus::UnTested;
    state.kernel = AppTestStatus::UnTested;
    state.app_install = AppTestStatus::UnTested;
    state.hdmi_wait_connection = AppTestStatus::UnTested;
    state.hdmi_io_test = AppTestStatus::UnTested;
    state.hdmi_loop_test = AppTestStatus::UnTested;
    state.hdmi_capture_test = AppTestStatus::UnTested;
    state.hdmi_version = AppTestStatus::UnTested;
    state.hdmi_write_edid = AppTestStatus::UnTested;
    state.usb_wait_connection = AppTestStatus::UnTested;
    state.eth_wait_connection = AppTestStatus::UnTested;
    state.eth_upload_test = AppTestStatus::UnTested;
    state.eth_download_test = AppTestStatus::UnTested;
    state.wifi_wait_connection = AppTestStatus::UnTested;
    state.wifi_upload_test = AppTestStatus::UnTested;
    state.wifi_download_test = AppTestStatus::UnTested;
    state.screen = AppTestStatus::UnTested;
    state.touch = AppTestStatus::UnTested;
    state.knob = AppTestStatus::UnTested;
    state.atx = AppTestStatus::UnTested;
    state.io = AppTestStatus::UnTested;
    state.tf_card = AppTestStatus::UnTested;
    state.uart = AppTestStatus::UnTested;
    state.auto_start = AppTestStatus::UnTested;
    clear_error_msg(state);
}

/// Overall success: every subsystem either passed or is hidden because
/// the hardware variant lacks it. A hidden entry never blocks success;
/// the final-label entry is set afterwards and takes no part.
pub open spec fn all_success_spec(s: TestState) -> bool {
    &&& (s.wait_connection == AppTestStatus::Success || s.wait_connection == AppTestStatus::Hidden)
    &&& (s.wait_boot == AppTestStatus::Success || s.wait_boot == AppTestStatus::Hidden)
    &&& (s.get_ip == AppTestStatus::Success || s.get_ip == AppTestStatus::Hidden)
    &&& (s.download_test == AppTestStatus::Success || s.download_test == AppTestStatus::Hidden)
    &&& (s.detect_hardware == AppTestStatus::Success || s.detect_hardware == AppTestStatus::Hidden)
    &&& (s.emmc_test == AppTestStatus::Success || s.emmc_test == AppTestStatus::Hidden)
    &&& (s.dtb == AppTestStatus::Success || s.dtb == AppTestStatus::Hidden)
    &&& (s.uboot == AppTestStatus::Success || s.uboot == AppTestStatus::Hidden)
    &&& (s.kernel == AppTestStatus::Success || s.kernel == AppTestStatus::Hidden)
    &&& (s.app_install == AppTestStatus::Success || s.app_install == AppTestStatus::Hidden)
    &&& (s.hdmi_wait_connection == AppTestStatus::Success || s.hdmi_wait_connection == AppTestStatus::Hidden)
    &&& (s.hdmi_io_test == AppTestStatus::Success || s.hdmi_io_test == AppTestStatus::Hidden)
    &&& (s.hdmi_loop_test == AppTestStatus::Success || s.hdmi_loop_test == AppTestStatus::Hidden)
    &&& (s.hdmi_capture_test == AppTestStatus::Success || s.hdmi_capture_test == AppTestStatus::Hidden)
    &&& (s.hdmi_version == AppTestStatus::Success || s.hdmi_version == AppTestStatus::Hidden)
    &&& (s.hdmi_write_edid == AppTestStatus::Success || s.hdmi_write_edid == AppTestStatus::Hidden)
    &&& (s.usb_wait_connection == AppTestStatus::Success || s.usb_wait_connection == AppTestStatus::Hidden)
    &&& (s.eth_wait_connection == AppTestStatus::Success || s.eth_wait_connection == AppTestStatus::Hidden)
    &&& (s.eth_upload_test == AppTestStatus::Success || s.eth_upload_test == AppTestStatus::Hidden)
    &&& (s.eth_download_test == AppTestStatus::Success || s.eth_download_test == AppTestStatus::Hidden)
    &&& (s.wifi_wait_connection == AppTestStatus::Success || s.wifi_wait_connection == AppTestStatus::Hidden)
    &&& (s.wifi_upload_test == AppTestStatus::Success || s.wifi_upload_test == AppTestStatus::Hidden)
    &&& (s.wifi_download_test == AppTestStatus::Success || s.wifi_download_test == AppTestStatus::Hidden)
    &&& (s.screen == AppTestStatus::Success || s.screen == AppTestStatus::Hidden)
    &&& (s.touch == AppTestStatus::Success || s.touch == AppTestStatus::Hidden)
    &&& (s.knob == AppTestStatus::Success || s.knob == AppTestStatus::Hidden)
    &&& (s.atx == AppTestStatus::Success || s.atx == AppTestStatus::Hidden)
    &&& (s.io == AppTestStatus::Success || s.io == AppTestStatus::Hidden)
    &&& (s.tf_card == AppTestStatus::Success || s.tf_card == AppTestStatus::Hidden)
    &&& (s.uart == AppTestStatus::Success || s.uart == AppTestStatus::Hidden)
}

/// Decides overall pass/fail from the record.
pub fn all_step_status_is_success(state: &TestState) -> (r: bool)
    ensures
        r == all_success_spec(*state),
{
    (state.wait_connection == AppTestStatus::Success || state.wait_connection == AppTestStatus::Hidden)
        && (state.wait_boot == AppTestStatus::Success || state.wait_boot == AppTestStatus::Hidden)
        && (state.get_ip == AppTestStatus::Success || state.get_ip == AppTestStatus::Hidden)
        && (state.download_test == AppTestStatus::Success || state.download_test == AppTestStatus::Hidden)
        && (state.detect_hardware == AppTestStatus::Success || state.detect_hardware == AppTestStatus::Hidden)
        && (state.emmc_test == AppTestStatus::Success || state.emmc_test == AppTestStatus::Hidden)
        && (state.dtb == AppTestStatus::Success || state.dtb == AppTestStatus::Hidden)
        && (state.uboot == AppTestStatus::Success || state.uboot == AppTestStatus::Hidden)
        && (state.kernel == AppTestStatus::Success || state.kernel == AppTestStatus::Hidden)
        && (state.app_install == AppTestStatus::Success || state.app_install == AppTestStatus::Hidden)
        && (state.hdmi_wait_connection == AppTestStatus::Success || state.hdmi_wait_connection == AppTestStatus::Hidden)
        && (state.hdmi_io_test == AppTestStatus::Success || state.hdmi_io_test == AppTestStatus::Hidden)
        && (state.hdmi_loop_test == AppTestStatus::Success || state.hdmi_loop_test == AppTestStatus::Hidden)
        && (state.hdmi_capture_test == AppTestStatus::Success || state.hdmi_capture_test == AppTestStatus::Hidden)
        && (state.hdmi_version == AppTestStatus::Success || state.hdmi_version == AppTestStatus::Hidden)
        && (state.hdmi_write_edid == AppTestStatus::Success || state.hdmi_write_edid == AppTestStatus::Hidden)
        && (state.usb_wait_connection == AppTestStatus::Success || state.usb_wait_connection == AppTestStatus::Hidden)
        && (state.eth_wait_connection == AppTestStatus::Success || state.eth_wait_connection == AppTestStatus::Hidden)
        && (state.eth_upload_test == AppTestStatus::Success || state.eth_upload_test == AppTestStatus::Hidden)
        && (state.eth_download_test == AppTestStatus::Success || state.eth_download_test == AppTestStatus::Hidden)
        && (state.wifi_wait_connection == AppTestStatus::Success || state.wifi_wait_connection == AppTestStatus::Hidden)
        && (state.wifi_upload_test == AppTestStatus::Success || state.wifi_upload_test == AppTestStatus::Hidden)
        && (state.wifi_download_test == AppTestStatus::Success || state.wifi_download_test == AppTestStatus::Hidden)
        && (state.screen == AppTestStatus::Success || state.screen == AppTestStatus::Hidden)
        && (state.touch == AppTestStatus::Success || state.touch == AppTestStatus::Hidden)
        && (state.knob == AppTestStatus::Success || state.knob == AppTestStatus::Hidden)
        && (state.atx == AppTestStatus::Success || state.atx == AppTestStatus::Hidden)
        && (state.io == AppTestStatus::Success || state.io == AppTestStatus::Hidden)
        && (state.tf_card == AppTestStatus::Success || state.tf_card == AppTestStatus::Hidden)
        && (state.uart == AppTestStatus::Success || state.uart == AppTestStatus::Hidden)
}

/// The statuses the overall check reads, in a fixed order.
pub open spec fn checked_statuses(s: TestState) -> Seq<AppTestStatus> {
    seq![
        s.wait_connection,
        s.wait_boot,
        s.get_ip,
        s.download_test,
        s.detect_hardware,
        s.emmc_test,
        s.dtb,
        s.uboot,
        s.kernel,
        s.app_install,
        s.hdmi_wait_connection,
        s.hdmi_io_test,
        s.hdmi_loop_test,
        s.hdmi_capture_test,
        s.hdmi_version,
        s.hdmi_write_edid,
        s.usb_wait_connection,
        s.eth_wait_connection,
        s.eth_upload_test,
        s.eth_download_test,
        s.wifi_wait_connection,
        s.wifi_upload_test,
        s.wifi_download_test,
        s.screen,
        s.touch,
        s.knob,
        s.atx,
        s.io,
        s.tf_card,
        s.uart,
    ]
}

/// The overall check holds exactly when every checked entry reads
/// `Success` or `Hidden`. So flipping any single entry that is not
/// hidden to `Failed` falsifies it.
#[verifier::rlimit(50)]
pub proof fn lemma_all_success_characterization(s: TestState)
    ensures
        all_success_spec(s) <==> (forall|i: int|
            #![trigger checked_statuses(s)[i]]
            0 <= i < checked_statuses(s).len() ==> checked_statuses(s)[i] == AppTestStatus::Success
                || checked_statuses(s)[i] == AppTestStatus::Hidden),
{
    assert(checked_statuses(s).len() == 30);
    assert(checked_statuses(s)[0] == s.wait_connection);
    assert(checked_statuses(s)[1] == s.wait_boot);
    assert(checked_statuses(s)[2] == s.get_ip);
    assert(checked_statuses(s)[3] == s.download_test);
    assert(checked_statuses(s)[4] == s.detect_hardware);
    assert(checked_statuses(s)[5] == s.emmc_test);
    assert(checked_statuses(s)[6] == s.dtb);
    assert(checked_statuses(s)[7] == s.uboot);
    assert(checked_statuses(s)[8] == s.kernel);
    assert(checked_statuses(s)[9] == s.app_install);
    assert(checked_statuses(s)[10] == s.hdmi_wait_connection);
    assert(checked_statuses(s)[11] == s.hdmi_io_test);
    assert(checked_statuses(s)[12] == s.hdmi_loop_test);
    assert(checked_statuses(s)[13] == s.hdmi_capture_test);
    assert(checked_statuses(s)[14] == s.hdmi_version);
    assert(checked_statuses(s)[15] == s.hdmi_write_edid);
    assert(checked_statuses(s)[16] == s.usb_wait_connection);
    assert(checked_statuses(s)[17] == s.eth_wait_connection);
    assert(checked_statuses(s)[18] == s.eth_upload_test);
    assert(checked_statuses(s)[19] == s.eth_download_test);
    assert(checked_statuses(s)[20] == s.wifi_wait_connection);
    assert(checked_statuses(s)[21] == s.wifi_upload_test);
    assert(checked_statuses(s)[22] == s.wifi_download_test);
    assert(checked_statuses(s)[23] == s.screen);
    assert(checked_statuses(s)[24] == s.touch);
    assert(checked_statuses(s)[25] == s.knob);
    assert(checked_statuses(s)[26] == s.atx);
    assert(checked_statuses(s)[27] == s.io);
    assert(checked_statuses(s)[28] == s.tf_card);
    assert(checked_statuses(s)[29] == s.uart);
}

} // verus!
