use kvm_factory_test::camera::{
    classify_frame, get_camera_status, is_image_black, set_camera_status, CameraStatus,
};
use kvm_factory_test::ident::{
    compose_device_label, compose_target_name, compose_version_info, create_serial_number,
    machine_number_is_valid, parse_serial_field, parse_type_field, serial_number_for_prefix,
    serial_number_from, serial_number_prefix, serial_prefix_from,
};
use kvm_factory_test::record::{
    default_test_data, get_config_str, get_test_status, parse_bool, set_test_log,
    set_test_status, AppConfig, ApplicationConfig, RecordError, TestingConfig,
};
use kvm_factory_test::retry::{
    auto_test_with_retry, check_marker, compose_fault_report, retry_status, scan_markers,
    HardwareType,
};
use kvm_factory_test::status::AppTestStatus;

#[test]
fn record_stores_component_status() {
    let mut data = default_test_data("NeaR00293");
    assert_eq!(get_test_status(&data, "emmc"), "Not started");
    set_test_status(&mut data, "emmc", "Damage").unwrap();
    assert_eq!(get_test_status(&data, "emmc"), "Damage");
    assert_eq!(get_test_status(&data, "usb"), "Not started");
    assert_eq!(get_test_status(&data, "serial"), "NeaR00293");
}

#[test]
fn record_verdict_cascades_to_all_components() {
    let mut data = default_test_data("NeaR00293");
    set_test_status(&mut data, "emmc", "Damage").unwrap();
    set_test_status(&mut data, "test_pass", "true").unwrap();
    assert_eq!(get_test_status(&data, "test_pass"), "true");
    assert_eq!(get_test_status(&data, "emmc"), "Normal");
    assert_eq!(get_test_status(&data, "ws2812"), "Normal");
}

#[test]
fn record_refuses_bad_updates() {
    let mut data = default_test_data("NeaR00293");
    assert_eq!(set_test_status(&mut data, "wifi_exist", "maybe"), Err(RecordError::BadBool));
    assert_eq!(set_test_status(&mut data, "nonsense", "x"), Err(RecordError::UnknownItem));
    assert_eq!(get_test_status(&data, "nonsense"), "Not started");
    set_test_status(&mut data, "wifi_exist", "true").unwrap();
    assert_eq!(get_test_status(&data, "wifi_exist"), "true");
}

#[test]
fn record_log_upserts_by_date_and_name() {
    let mut data = default_test_data("NeaR00293");
    set_test_log(&mut data, "2025-06-01", "usb", "passed").unwrap();
    set_test_log(&mut data, "2025-06-01", "usb", "failed").unwrap();
    set_test_log(&mut data, "2025-06-01", "eth", "passed").unwrap();
    set_test_log(&mut data, "2025-06-02", "test_pass", "true").unwrap();
    assert_eq!(
        set_test_log(&mut data, "2025-06-02", "test_pass", "yes"),
        Err(RecordError::BadBool)
    );
    assert_eq!(data.test_log.entries.len(), 2);
    let first = &data.test_log.entries[0];
    assert_eq!(first.date, "2025-06-01");
    assert!(!first.entry.test_pass);
    assert_eq!(first.entry.other_fields.len(), 2);
    assert_eq!(first.entry.other_fields[0].name, "usb");
    assert_eq!(first.entry.other_fields[0].value, "failed");
    assert_eq!(first.entry.other_fields[1].name, "eth");
    let second = &data.test_log.entries[1];
    assert_eq!(second.date, "2025-06-02");
    assert!(second.entry.test_pass);
}

#[test]
fn parse_bool_accepts_only_the_two_words() {
    assert_eq!(parse_bool("true"), Some(true));
    assert_eq!(parse_bool("false"), Some(false));
    assert_eq!(parse_bool("True"), None);
}

fn sample_config() -> AppConfig {
    AppConfig {
        application: ApplicationConfig { machine_number: String::from("1") },
        testing: TestingConfig {
            board_version: String::from("G"),
            desktop_mode: String::from("auto"),
            eth_mod: String::from("static"),
            eth_up_speed: 300,
            eth_down_speed: 500,
            wifi_up_speed: 10,
            wifi_down_speed: 10,
        },
    }
}

#[test]
fn config_lookup_returns_strings_and_numbers() {
    let config = sample_config();
    assert_eq!(get_config_str(&config, "application", "machine_number"), Some("1".to_string()));
    assert_eq!(get_config_str(&config, "testing", "board_version"), Some("G".to_string()));
    assert_eq!(get_config_str(&config, "testing", "eth_up_speed"), Some("300".to_string()));
    assert_eq!(get_config_str(&config, "testing", "eth_down_speed"), Some("500".to_string()));
    assert_eq!(get_config_str(&config, "testing", "nope"), None);
    assert_eq!(get_config_str(&config, "printer", "machine_number"), None);
}

#[test]
fn serial_number_encodes_every_field() {
    let serial = serial_number_from(b"NanoKVM-ATX-G", 2025, 1, b"1", 2);
    assert_eq!(serial, b"Ndaa10002".to_vec());
    let desk = serial_number_from(b"NanoKVM-Desk-G", 2026, 27, b"3", 0xBEEF);
    assert_eq!(desk, b"NebA3BEEF".to_vec());
}

#[test]
fn serial_number_week_letters_wrap_to_uppercase() {
    let w26 = serial_number_from(b"x", 2025, 26, b"1", 0);
    assert_eq!(w26[3], b'z');
    let w27 = serial_number_from(b"x", 2025, 27, b"1", 0);
    assert_eq!(w27[3], b'A');
}

#[test]
fn serial_prefix_and_counter_compose_the_number() {
    let prefix = serial_prefix_from(b"NanoKVM-ATX-G", 2025, 1, b"1");
    assert_eq!(prefix, b"Ndaa1".to_vec());
    assert_eq!(serial_number_for_prefix(&prefix, 2), b"Ndaa10002".to_vec());
    assert_eq!(
        serial_number_for_prefix(&prefix, 2),
        serial_number_from(b"NanoKVM-ATX-G", 2025, 1, b"1", 2)
    );
}

#[test]
fn serial_prefix_from_the_clock_matches_new_serials() {
    let prefix = serial_number_prefix(b"NanoKVM-Desk-G", b"1")
        .expect("the clock reads a year outside the letter scheme");
    assert_eq!(prefix.len(), 5);
    assert_eq!(prefix[0], b'N');
    assert_eq!(prefix[1], b'e');
    let serial = serial_number_for_prefix(&prefix, 7);
    assert!(serial.starts_with(&prefix));
    assert_eq!(&serial[5..], b"0007");
}

#[test]
fn machine_number_rule_accepts_digits_one_to_nine() {
    assert!(machine_number_is_valid("1"));
    assert!(machine_number_is_valid("97"));
    assert!(!machine_number_is_valid(""));
    assert!(!machine_number_is_valid("0"));
    assert!(!machine_number_is_valid("2a"));
    assert!(!machine_number_is_valid("A"));
}

#[test]
fn create_serial_number_uses_the_clock() {
    match create_serial_number(b"NanoKVM-Desk-G", b"1", 7) {
        Some(serial) => {
            assert_eq!(serial.len(), 9);
            assert_eq!(serial[0], b'N');
            assert_eq!(serial[1], b'e');
            assert_eq!(&serial[5..], b"0007");
        },
        None => panic!("the clock reads a year outside the letter scheme"),
    }
}

#[test]
fn identity_banner_parses_type_and_serial() {
    let banner = b"version (Desk-G) NanoKVM_Pro Nebc1000A";
    assert_eq!(parse_type_field(banner), Some(b"Desk-G".to_vec()));
    assert_eq!(parse_serial_field(banner), Some(b"Nebc1000A".to_vec()));
    assert_eq!(parse_serial_field(b"no serial here"), None);
    assert_eq!(parse_serial_field(b"tail N123"), None);
}

#[test]
fn identity_compose_helpers() {
    assert_eq!(
        compose_version_info("Desk", "G", "Nebc1000A"),
        "NanoKVM_Pro (Desk-G) Nebc1000A"
    );
    assert_eq!(compose_target_name("Desk-G"), "NanoKVM-Desk-G");
    assert_eq!(compose_device_label("ATX-G", "1"), "ATX-G-1");
}

#[test]
fn retry_stops_at_first_success() {
    let outcomes = vec![false, false, true, false, false];
    assert_eq!(auto_test_with_retry(&outcomes, 5), (true, 3));
    let failures = vec![false; 5];
    assert_eq!(auto_test_with_retry(&failures, 5), (false, 5));
    let late = vec![false, false, true];
    assert_eq!(auto_test_with_retry(&late, 2), (false, 2));
}

#[test]
fn retry_status_reflects_the_attempt() {
    assert_eq!(retry_status(true, true), AppTestStatus::Success);
    assert_eq!(retry_status(false, true), AppTestStatus::Repairing);
    assert_eq!(retry_status(false, false), AppTestStatus::Failed);
}

#[test]
fn markers_are_found_in_script_output() {
    assert!(check_marker(b"... USB test passed\n", b"USB test passed"));
    assert!(!check_marker(b"... usb test failed\n", b"USB test passed"));
    let markers = vec![b"RST pin fault".to_vec(), b"INT pin fault".to_vec()];
    let found = scan_markers(b"log: INT pin fault detected", &markers);
    assert_eq!(found, vec![false, true]);
}

#[test]
fn fault_report_lists_only_faulty_parts() {
    let names = vec!["LT86102 RST ".to_string(), "LT6911 RST ".to_string(), "LT6911 INT ".to_string()];
    let faults = vec![true, false, true];
    assert_eq!(
        compose_fault_report("HDMI-IO:", &names, &faults),
        "HDMI-IO:LT86102 RST LT6911 INT "
    );
}

#[test]
fn hardware_type_distinguishes_variants() {
    assert_eq!(HardwareType::Atx, HardwareType::Atx);
    assert_ne!(HardwareType::Atx, HardwareType::Desk);
}

#[test]
fn black_frame_detection_tolerates_noise() {
    assert!(is_image_black(&[0, 0, 0, 5, 5, 5, 10, 10, 10]));
    assert!(!is_image_black(&[0, 0, 0, 20, 0, 0]));
    assert!(is_image_black(&[0, 0, 0, 20]));
    assert!(is_image_black(&[]));
}

#[test]
fn camera_status_round_trips_through_the_cell() {
    for status in [CameraStatus::Disconnected, CameraStatus::Connected, CameraStatus::HasImage] {
        assert_eq!(get_camera_status(set_camera_status(status)), status);
    }
    assert_eq!(get_camera_status(99), CameraStatus::Disconnected);
}

#[test]
fn frame_classification() {
    assert_eq!(classify_frame(false, None), CameraStatus::Disconnected);
    assert_eq!(classify_frame(true, None), CameraStatus::Connected);
    assert_eq!(classify_frame(true, Some(true)), CameraStatus::Connected);
    assert_eq!(classify_frame(true, Some(false)), CameraStatus::HasImage);
}
