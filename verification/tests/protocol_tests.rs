use kvm_factory_test::protocol::{
    detect_serial_string, execute_command_and_wait, ConsolePoll, DetectOutcome,
};
use kvm_factory_test::text::{
    bytes_eq, clean_console_text, contains_sub, extract_between, find_byte, find_seq,
    get_relative_path, rfind_byte, str_eq, trim_bytes,
};
use kvm_factory_test::transport::{TransportConfig, TransportHandle};

fn patterns(list: &[&[u8]]) -> Vec<Vec<u8>> {
    list.iter().map(|p| p.to_vec()).collect()
}

fn poll(chunk: &[u8], density: u64) -> ConsolePoll {
    ConsolePoll { chunk: chunk.to_vec(), density }
}

#[test]
fn detect_returns_first_matching_pattern() {
    let pats = patterns(&[b"login", b":~#", b"AXERA-UBOOT=>"]);
    let polls = vec![poll(b"", 3), poll(b"buildroot login:", 3)];
    assert_eq!(detect_serial_string(&pats, &polls, 0), DetectOutcome::Matched(0));
}

#[test]
fn detect_prefers_list_order_within_one_chunk() {
    let pats = patterns(&[b"login", b":~#"]);
    let polls = vec![poll(b"root@host:~# login done", 1)];
    assert_eq!(detect_serial_string(&pats, &polls, 0), DetectOutcome::Matched(0));
}

#[test]
fn detect_no_data_when_nothing_arrives() {
    let pats = patterns(&[b"login"]);
    let polls = vec![poll(b"", 0), poll(b"", 0), poll(b"", 0)];
    assert_eq!(detect_serial_string(&pats, &polls, 0), DetectOutcome::NoData);
}

#[test]
fn detect_unmatched_when_only_noise_arrives() {
    let pats = patterns(&[b"login"]);
    let polls = vec![poll(b"", 0), poll(b"kernel: usb 1-1 enumerated", 9)];
    assert_eq!(detect_serial_string(&pats, &polls, 0), DetectOutcome::Unmatched);
}

#[test]
fn detect_bails_out_on_low_density() {
    let pats = patterns(&[b"login"]);
    let polls = vec![poll(b"booting...", 50), poll(b"", 2), poll(b"login:", 50)];
    assert_eq!(detect_serial_string(&pats, &polls, 10), DetectOutcome::LowDensity);
}

#[test]
fn detect_ignores_density_without_a_floor() {
    let pats = patterns(&[b"login"]);
    let polls = vec![poll(b"", 0), poll(b"login:", 0)];
    assert_eq!(detect_serial_string(&pats, &polls, 0), DetectOutcome::Matched(0));
}

#[test]
fn command_and_wait_sees_password_prompt() {
    let mut t = TransportHandle::new(&TransportConfig {
        inbound_capacity: 100,
        outbound_capacity: 100,
        window_size: 10,
        max_open_failures: 20,
    });
    let polls = vec![poll(b"", 4), poll(b"Password:", 4)];
    assert!(execute_command_and_wait(&mut t, b"root\n".to_vec(), b"Password".to_vec(), &polls));
    assert_eq!(t.next_outbound(), Some(b"root\n".to_vec()));
}

#[test]
fn command_and_wait_fails_on_silence() {
    let mut t = TransportHandle::new(&TransportConfig {
        inbound_capacity: 100,
        outbound_capacity: 100,
        window_size: 10,
        max_open_failures: 20,
    });
    let polls: Vec<ConsolePoll> = Vec::new();
    assert!(!execute_command_and_wait(&mut t, b"root\n".to_vec(), b"Password".to_vec(), &polls));
}

#[test]
fn clean_console_text_strips_ansi_and_trims() {
    let cleaned = clean_console_text(b"\x1b[32mfoo\x1b[m bar\n");
    assert_eq!(cleaned, b"foo bar".to_vec());
}

#[test]
fn clean_console_text_keeps_plain_text() {
    assert_eq!(clean_console_text(b"  shell ready  "), b"shell ready".to_vec());
}

#[test]
fn trim_bytes_removes_surrounding_whitespace() {
    assert_eq!(trim_bytes(b"\r\n  login: \t"), b"login:".to_vec());
    assert_eq!(trim_bytes(b"   "), Vec::<u8>::new());
}

#[test]
fn substring_search_basics() {
    assert!(contains_sub(b"AXERA-UBOOT=> ", b"AXERA-UBOOT=>"));
    assert!(!contains_sub(b"AXERA", b"AXERA-UBOOT=>"));
    assert_eq!(find_seq(b"abcabc", b"cab"), Some(2));
    assert_eq!(find_seq(b"abcabc", b"zz"), None);
    assert_eq!(find_byte(b"a(b(c", b'(', 2), Some(3));
    assert_eq!(rfind_byte(b"NanoN", b'N'), Some(4));
    assert_eq!(rfind_byte(b"abc", b'N'), None);
}

#[test]
fn equality_helpers_compare_content() {
    assert!(bytes_eq(b"abc", b"abc"));
    assert!(!bytes_eq(b"abc", b"abd"));
    assert!(str_eq("wait_boot", "wait_boot"));
    assert!(!str_eq("wait_boot", "wait_connection"));
}

#[test]
fn relative_path_shortens_below_the_app_component() {
    let shown = get_relative_path(b"C:\\Users\\X\\MyApp\\data\\save\\f.json", b"MyApp");
    assert_eq!(shown, b"MyApp//data/save/f.json".to_vec());
    assert_eq!(
        get_relative_path(b"D:\\elsewhere\\f.json", b"MyApp"),
        b"D:\\elsewhere\\f.json".to_vec()
    );
    assert_eq!(get_relative_path(b"C:\\a\\b", b""), b"C:\\a\\b".to_vec());
}

#[test]
fn extract_between_reads_delimited_field() {
    assert_eq!(extract_between(b"NanoKVM_Pro (Desk-G) x", b'(', b')'), Some(b"Desk-G".to_vec()));
    assert_eq!(extract_between(b"no parens here", b'(', b')'), None);
    assert_eq!(extract_between(b"backwards ) then (", b'(', b')'), None);
}
