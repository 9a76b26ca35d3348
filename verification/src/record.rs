//! The persisted per-device test record and the application
//! configuration.
//!
//! A record is kept per serial number: device identity, one status string
//! per tested component, and a dated log. Reading and writing the files
//! themselves is a collaborator's job; this module owns the shapes and
//! every rule about how an update changes them, stated over a view that
//! abstracts the strings to their text.

use vstd::prelude::*;
use vstd::string::{StringSliceAdditionalSpecFns, StringExecFns};
use crate::text::str_eq;

verus! {

/// The `[application]` section of the configuration.
pub struct ApplicationConfig {
    /// Number of this test host, one digit.
    pub machine_number: String,
}

/// The `[testing]` section of the configuration.
pub struct TestingConfig {
    /// Batch letter of the boards under test.
    pub board_version: String,
    /// Whether the desktop flow is forced.
    pub desktop_mode: String,
    /// Ethernet test mode.
    pub eth_mod: String,
    /// Thresholds, in megabits per second.
    pub eth_up_speed: u32,
    pub eth_down_speed: u32,
    pub wifi_up_speed: u32,
    pub wifi_down_speed: u32,
}

/// The whole configuration file.
pub struct AppConfig {
    pub application: ApplicationConfig,
    pub testing: TestingConfig,
}

/// Identity of one device.
pub struct DeviceInfo {
    pub serial: String,
    pub soc_uid: String,
    pub hardware: String,
    pub wifi_exist: bool,
    pub test_pass: bool,
    pub unuploaded: bool,
}

/// One status string per tested component.
pub struct TestContent {
    pub app: String,
    pub atx: String,
    pub emmc: String,
    pub eth: String,
    pub lt6911: String,
    pub lt86102: String,
    pub rotary: String,
    pub screen: String,
    pub sdcard: String,
    pub touch: String,
    pub uart: String,
    pub usb: String,
    pub wifi: String,
    pub ws2812: String,
}

/// One named value in a dated log entry.
pub struct LogField {
    pub name: String,
    pub value: String,
}

/// One dated log entry: the verdict and any further named values.
pub struct TestLogEntry {
    pub test_pass: bool,
    pub other_fields: Vec<LogField>,
}

/// The dated log: one entry per date, first occurrence authoritative.
pub struct TestLog {
    pub entries: Vec<DatedEntry>,
}

/// One date with its log entry.
pub struct DatedEntry {
    pub date: String,
    pub entry: TestLogEntry,
}

/// The whole per-device record.
pub struct TestData {
    pub device_info: DeviceInfo,
    pub test_content: TestContent,
    pub test_log: TestLog,
}

/// Refused record updates.
#[derive(Clone, Copy, Debug, PartialEq, Eq, Structural)]
pub enum RecordError {
    /// No item of the record carries the given name.
    UnknownItem,
    /// The item takes `true` or `false` and the value is neither.
    BadBool,
}

/// The record abstracted to its text: identity strings, identity flags,
/// component statuses in a fixed order, and the log entries as values.
pub struct RecordView {
    pub dev_strings: Seq<Seq<char>>,
    pub wifi_exist: bool,
    pub test_pass: bool,
    pub unuploaded: bool,
    pub content: Seq<Seq<char>>,
    pub log: Seq<DatedEntry>,
}

/// The component statuses, in the fixed order of the record.
pub open spec fn content_fields(c: TestContent) -> Seq<Seq<char>> {
    seq![
        c.app@,
        c.atx@,
        c.emmc@,
        c.eth@,
        c.lt6911@,
        c.lt86102@,
        c.rotary@,
        c.screen@,
        c.sdcard@,
        c.touch@,
        c.uart@,
        c.usb@,
        c.wifi@,
        c.ws2812@,
    ]
}

/// The view of a record.
pub open spec fn record_view(d: TestData) -> RecordView {
    RecordView {
        dev_strings: seq![d.device_info.serial@, d.device_info.soc_uid@, d.device_info.hardware@],
        wifi_exist: d.device_info.wifi_exist,
        test_pass: d.device_info.test_pass,
        unuploaded: d.device_info.unuploaded,
        content: content_fields(d.test_content),
        log: d.test_log.entries@,
    }
}

/// What `true` and `false` parse to; anything else is refused.
pub open spec fn parse_bool_spec(s: Seq<u8>) -> Option<bool> {
    if s == "true".spec_bytes() {
        Some(true)
    } else if s == "false".spec_bytes() {
        Some(false)
    } else {
        None
    }
}

/// Parses a boolean the way the record stores them.
pub fn parse_bool(s: &str) -> (r: Option<bool>)
    ensures
        r == parse_bool_spec(s.spec_bytes()),
{
    if str_eq(s, "true") {
        Some(true)
    } else if str_eq(s, "false") {
        Some(false)
    } else {
        None
    }
}

/// Every component status at once, as the cascade writes it.
pub open spec fn all_content(v: Seq<char>) -> Seq<Seq<char>> {
    Seq::new(14, |i: int| v)
}

/// How one update changes the record's view. String items store the value
/// as given; flag items parse it as a boolean; a passed verdict also
/// marks every component normal; an unknown name changes nothing.
pub open spec fn set_status_view(v: RecordView, item: &str, status: &str) -> Result<
    RecordView,
    RecordError,
> {
    let key = item.spec_bytes();
    if key == "serial".spec_bytes() {
        Ok(RecordView { dev_strings: v.dev_strings.update(0, status@), ..v })
    } else if key == "soc_uid".spec_bytes() {
        Ok(RecordView { dev_strings: v.dev_strings.update(1, status@), ..v })
    } else if key == "hardware".spec_bytes() {
        Ok(RecordView { dev_strings: v.dev_strings.update(2, status@), ..v })
    } else if key == "wifi_exist".spec_bytes() {
        match parse_bool_spec(status.spec_bytes()) {
            Some(b) => Ok(RecordView { wifi_exist: b, ..v }),
            None => Err(RecordError::BadBool),
        }
    } else if key == "test_pass".spec_bytes() {
        match parse_bool_spec(status.spec_bytes()) {
            Some(b) => if b {
                Ok(RecordView { test_pass: true, content: all_content("Normal"@), ..v })
            } else {
                Ok(RecordView { test_pass: false, ..v })
            },
            None => Err(RecordError::BadBool),
        }
    } else if key == "unuploaded".spec_bytes() {
        match parse_bool_spec(status.spec_bytes()) {
            Some(b) => Ok(RecordView { unuploaded: b, ..v }),
            None => Err(RecordError::BadBool),
        }
    } else if key == "app".spec_bytes() {
        Ok(RecordView { content: v.content.update(0, status@), ..v })
    } else if key == "atx".spec_bytes() {
        Ok(RecordView { content: v.content.update(1, status@), ..v })
    } else if key == "emmc".spec_bytes() {
        Ok(RecordView { content: v.content.update(2, status@), ..v })
    } else if key == "eth".spec_bytes() {
        Ok(RecordView { content: v.content.update(3, status@), ..v })
    } else if key == "lt6911".spec_bytes() {
        Ok(RecordView { content: v.content.update(4, status@), ..v })
    } else if key == "lt86102".spec_bytes() {
        Ok(RecordView { content: v.content.update(5, status@), ..v })
    } else if key == "rotary".spec_bytes() {
        Ok(RecordView { content: v.content.update(6, status@), ..v })
    } else if key == "screen".spec_bytes() {
        Ok(RecordView { content: v.content.update(7, status@), ..v })
    } else if key == "sdcard".spec_bytes() {
        Ok(RecordView { content: v.content.update(8, status@), ..v })
    } else if key == "touch".spec_bytes() {
        Ok(RecordView { content: v.content.update(9, status@), ..v })
    } else if key == "uart".spec_bytes() {
        Ok(RecordView { content: v.content.update(10, status@), ..v })
    } else if key == "usb".spec_bytes() {
        Ok(RecordView { content: v.content.update(11, status@), ..v })
    } else if key == "wifi".spec_bytes() {
        Ok(RecordView { content: v.content.update(12, status@), ..v })
    } else if key == "ws2812".spec_bytes() {
        Ok(RecordView { content: v.content.update(13, status@), ..v })
    } else {
        Err(RecordError::UnknownItem)
    }
}

/// A fresh record for a serial number: identity otherwise empty, every
/// component not yet started, no log.
pub fn default_test_data(serial: &str) -> (r: TestData)
    ensures
        record_view(r) == (RecordView {
            dev_strings: seq![serial@, Seq::<char>::empty(), Seq::<char>::empty()],
            wifi_exist: false,
            test_pass: false,
            unuploaded: false,
            content: all_content("Not started"@),
            log: Seq::<DatedEntry>::empty(),
        }),
{
    let r = TestData {
        device_info: DeviceInfo {
            serial: String::from_str(serial),
            soc_uid: String::new(),
            hardware: String::new(),
            wifi_exist: false,
            test_pass: false,
            unuploaded: false,
        },
        test_content: TestContent {
            app: String::from_str("Not started"),
            atx: String::from_str("Not started"),
            emmc: String::from_str("Not started"),
            eth: String::from_str("Not started"),
            lt6911: String::from_str("Not started"),
            lt86102: String::from_str("Not started"),
            rotary: String::from_str("Not started"),
            screen: String::from_str("Not started"),
            sdcard: String::from_str("Not started"),
            touch: String::from_str("Not started"),
            uart: String::from_str("Not started"),
            usb: String::from_str("Not started"),
            wifi: String::from_str("Not started"),
            ws2812: String::from_str("Not started"),
        },
        test_log: TestLog { entries: Vec::new() },
    };
    proof {
        assert(record_view(r).content =~= all_content("Not started"@));
        assert(record_view(r).dev_strings =~= seq![
            serial@,
            Seq::<char>::empty(),
            Seq::<char>::empty(),
        ]);
    }
    r
}

/// Applies one named update to the record. An update the record refuses
/// leaves it unchanged and says why.
#[verifier::rlimit(80)]
pub fn set_test_status(data: &mut TestData, item: &str, status: &str) -> (r: Result<
    (),
    RecordError,
>)
    ensures
        match r {
            Ok(()) => set_status_view(record_view(*old(data)), item, status) == Ok::<
                RecordView,
                RecordError,
            >(record_view(*final(data))),
            Err(e) => set_status_view(record_view(*old(data)), item, status) == Err::<
                RecordView,
                RecordError,
            >(e) && *final(data) == *old(data),
        },
{
    if str_eq(item, "serial") {
        data.device_info.serial = String::from_str(status);
        proof {
            assert(record_view(*data).dev_strings =~= record_view(*old(data)).dev_strings.update(0, status@));
            assert(record_view(*data).content =~= record_view(*old(data)).content);
        }
    } else if str_eq(item, "soc_uid") {
        data.device_info.soc_uid = String::from_str(status);
        proof {
            assert(record_view(*data).dev_strings =~= record_view(*old(data)).dev_strings.update(1, status@));
            assert(record_view(*data).content =~= record_view(*old(data)).content);
        }
    } else if str_eq(item, "hardware") {
        data.device_info.hardware = String::from_str(status);
        proof {
            assert(record_view(*data).dev_strings =~= record_view(*old(data)).dev_strings.update(2, status@));
            assert(record_view(*data).content =~= record_view(*old(data)).content);
        }
    } else if str_eq(item, "wifi_exist") {
        let b = match parse_bool(status) {
            Some(b) => b,
            None => {
                return Err(RecordError::BadBool);
            },
        };
        data.device_info.wifi_exist = b;
        proof {
            assert(record_view(*data).content =~= record_view(*old(data)).content);
            assert(record_view(*data).dev_strings =~= record_view(*old(data)).dev_strings);
        }
    } else if str_eq(item, "test_pass") {
        let b = match parse_bool(status) {
            Some(b) => b,
            None => {
                return Err(RecordError::BadBool);
            },
        };
        data.device_info.test_pass = b;
        if b {
            data.test_content.app = String::from_str("Normal");
            data.test_content.atx = String::from_str("Normal");
            data.test_content.emmc = String::from_str("Normal");
            data.test_content.eth = String::from_str("Normal");
            data.test_content.lt6911 = String::from_str("Normal");
            data.test_content.lt86102 = String::from_str("Normal");
            data.test_content.rotary = String::from_str("Normal");
            data.test_content.screen = String::from_str("Normal");
            data.test_content.sdcard = String::from_str("Normal");
            data.test_content.touch = String::from_str("Normal");
            data.test_content.uart = String::from_str("Normal");
            data.test_content.usb = String::from_str("Normal");
            data.test_content.wifi = String::from_str("Normal");
            data.test_content.ws2812 = String::from_str("Normal");
        }
        proof {
            if b {
                assert(record_view(*data).content =~= all_content("Normal"@));
            } else {
                assert(record_view(*data).content =~= record_view(*old(data)).content);
            }
            assert(record_view(*data).dev_strings =~= record_view(*old(data)).dev_strings);
        }
    } else if str_eq(item, "unuploaded") {
        let b = match parse_bool(status) {
            Some(b) => b,
            None => {
                return Err(RecordError::BadBool);
            },
        };
        data.device_info.unuploaded = b;
        proof {
            assert(record_view(*data).content =~= record_view(*old(data)).content);
            assert(record_view(*data).dev_strings =~= record_view(*old(data)).dev_strings);
        }
    } else if str_eq(item, "app") {
        data.test_content.app = String::from_str(status);
        proof {
            assert(record_view(*data).content =~= record_view(*old(data)).content.update(0, status@));
            assert(record_view(*data).dev_strings =~= record_view(*old(data)).dev_strings);
        }
    } else if str_eq(item, "atx") {
        data.test_content.atx = String::from_str(status);
        proof {
            assert(record_view(*data).content =~= record_view(*old(data)).content.update(1, status@));
            assert(record_view(*data).dev_strings =~= record_view(*old(data)).dev_strings);
        }
    } else if str_eq(item, "emmc") {
        data.test_content.emmc = String::from_str(status);
        proof {
            assert(record_view(*data).content =~= record_view(*old(data)).content.update(2, status@));
            assert(record_view(*data).dev_strings =~= record_view(*old(data)).dev_strings);
        }
    } else if str_eq(item, "eth") {
        data.test_content.eth = String::from_str(status);
        proof {
            assert(record_view(*data).content =~= record_view(*old(data)).content.update(3, status@));
            assert(record_view(*data).dev_strings =~= record_view(*old(data)).dev_strings);
        }
    } else if str_eq(item, "lt6911") {
        data.test_content.lt6911 = String::from_str(status);
        proof {
            assert(record_view(*data).content =~= record_view(*old(data)).content.update(4, status@));
            assert(record_view(*data).dev_strings =~= record_view(*old(data)).dev_strings);
        }
    } else if str_eq(item, "lt86102") {
        data.test_content.lt86102 = String::from_str(status);
        proof {
            assert(record_view(*data).content =~= record_view(*old(data)).content.update(5, status@));
            assert(record_view(*data).dev_strings =~= record_view(*old(data)).dev_strings);
        }
    } else if str_eq(item, "rotary") {
        data.test_content.rotary = String::from_str(status);
        proof {
            assert(record_view(*data).content =~= record_view(*old(data)).content.update(6, status@));
            assert(record_view(*data).dev_strings =~= record_view(*old(data)).dev_strings);
        }
    } else if str_eq(item, "screen") {
        data.test_content.screen = String::from_str(status);
        proof {
            assert(record_view(*data).content =~= record_view(*old(data)).content.update(7, status@));
            assert(record_view(*data).dev_strings =~= record_view(*old(data)).dev_strings);
        }
    } else if str_eq(item, "sdcard") {
        data.test_content.sdcard = String::from_str(status);
        proof {
            assert(record_view(*data).content =~= record_view(*old(data)).content.update(8, status@));
            assert(record_view(*data).dev_strings =~= record_view(*old(data)).dev_strings);
        }
    } else if str_eq(item, "touch") {
        data.test_content.touch = String::from_str(status);
        proof {
            assert(record_view(*data).content =~= record_view(*old(data)).content.update(9, status@));
            assert(record_view(*data).dev_strings =~= record_view(*old(data)).dev_strings);
        }
    } else if str_eq(item, "uart") {
        data.test_content.uart = String::from_str(status);
        proof {
            assert(record_view(*data).content =~= record_view(*old(data)).content.update(10, status@));
            assert(record_view(*data).dev_strings =~= record_view(*old(data)).dev_strings);
        }
    } else if str_eq(item, "usb") {
        data.test_content.usb = String::from_str(status);
        proof {
            assert(record_view(*data).content =~= record_view(*old(data)).content.update(11, status@));
            assert(record_view(*data).dev_strings =~= record_view(*old(data)).dev_strings);
        }
    } else if str_eq(item, "wifi") {
        data.test_content.wifi = String::from_str(status);
        proof {
            assert(record_view(*data).content =~= record_view(*old(data)).content.update(12, status@));
            assert(record_view(*data).dev_strings =~= record_view(*old(data)).dev_strings);
        }
    } else if str_eq(item, "ws2812") {
        data.test_content.ws2812 = String::from_str(status);
        proof {
            assert(record_view(*data).content =~= record_view(*old(data)).content.update(13, status@));
            assert(record_view(*data).dev_strings =~= record_view(*old(data)).dev_strings);
        }
    } else {
        return Err(RecordError::UnknownItem);
    }
    Ok(())
}

/// What a status read returns: the stored text, flags as `true` or
/// `false`, and `Not started` for a name the record does not carry.
pub open spec fn get_status_view(v: RecordView, item: &str) -> Seq<char> {
    let key = item.spec_bytes();
    if key == "serial".spec_bytes() {
        v.dev_strings[0]
    } else if key == "soc_uid".spec_bytes() {
        v.dev_strings[1]
    } else if key == "hardware".spec_bytes() {
        v.dev_strings[2]
    } else if key == "wifi_exist".spec_bytes() {
        if v.wifi_exist {
            "true"@
        } else {
            "false"@
        }
    } else if key == "test_pass".spec_bytes() {
        if v.test_pass {
            "true"@
        } else {
            "false"@
        }
    } else if key == "unuploaded".spec_bytes() {
        if v.unuploaded {
            "true"@
        } else {
            "false"@
        }
    } else if key == "app".spec_bytes() {
        v.content[0]
    } else if key == "atx".spec_bytes() {
        v.content[1]
    } else if key == "emmc".spec_bytes() {
        v.content[2]
    } else if key == "eth".spec_bytes() {
        v.content[3]
    } else if key == "lt6911".spec_bytes() {
        v.content[4]
    } else if key == "lt86102".spec_bytes() {
        v.content[5]
    } else if key == "rotary".spec_bytes() {
        v.content[6]
    } else if key == "screen".spec_bytes() {
        v.content[7]
    } else if key == "sdcard".spec_bytes() {
        v.content[8]
    } else if key == "touch".spec_bytes() {
        v.content[9]
    } else if key == "uart".spec_bytes() {
        v.content[10]
    } else if key == "usb".spec_bytes() {
        v.content[11]
    } else if key == "wifi".spec_bytes() {
        v.content[12]
    } else if key == "ws2812".spec_bytes() {
        v.content[13]
    } else {
        "Not started"@
    }
}

/// Reads one named item of the record.
#[verifier::rlimit(80)]
pub fn get_test_status(data: &TestData, item: &str) -> (r: String)
    ensures
        r@ == get_status_view(record_view(*data), item),
{
    if str_eq(item, "serial") {
        data.device_info.serial.clone()
    } else if str_eq(item, "soc_uid") {
        data.device_info.soc_uid.clone()
    } else if str_eq(item, "hardware") {
        data.device_info.hardware.clone()
    } else if str_eq(item, "wifi_exist") {
        if data.device_info.wifi_exist {
            String::from_str("true")
        } else {
            String::from_str("false")
        }
    } else if str_eq(item, "test_pass") {
        if data.device_info.test_pass {
            String::from_str("true")
        } else {
            String::from_str("false")
        }
    } else if str_eq(item, "unuploaded") {
        if data.device_info.unuploaded {
            String::from_str("true")
        } else {
            String::from_str("false")
        }
    } else if str_eq(item, "app") {
        data.test_content.app.clone()
    } else if str_eq(item, "atx") {
        data.test_content.atx.clone()
    } else if str_eq(item, "emmc") {
        data.test_content.emmc.clone()
    } else if str_eq(item, "eth") {
        data.test_content.eth.clone()
    } else if str_eq(item, "lt6911") {
        data.test_content.lt6911.clone()
    } else if str_eq(item, "lt86102") {
        data.test_content.lt86102.clone()
    } else if str_eq(item, "rotary") {
        data.test_content.rotary.clone()
    } else if str_eq(item, "screen") {
        data.test_content.screen.clone()
    } else if str_eq(item, "sdcard") {
        data.test_content.sdcard.clone()
    } else if str_eq(item, "touch") {
        data.test_content.touch.clone()
    } else if str_eq(item, "uart") {
        data.test_content.uart.clone()
    } else if str_eq(item, "usb") {
        data.test_content.usb.clone()
    } else if str_eq(item, "wifi") {
        data.test_content.wifi.clone()
    } else if str_eq(item, "ws2812") {
        data.test_content.ws2812.clone()
    } else {
        String::from_str("Not started")
    }
}

/// One named value of a log entry, abstracted to its text.
pub struct FieldView {
    pub name: Seq<char>,
    pub value: Seq<char>,
}

/// One dated log entry, abstracted to its text.
pub struct LogEntryView {
    pub date: Seq<char>,
    pub test_pass: bool,
    pub fields: Seq<FieldView>,
}

/// The view of one named value.
pub open spec fn field_view(f: LogField) -> FieldView {
    FieldView { name: f.name@, value: f.value@ }
}

/// The view of a field list.
pub open spec fn fields_view(s: Seq<LogField>) -> Seq<FieldView> {
    s.map_values(|f: LogField| field_view(f))
}

/// The view of one dated entry.
pub open spec fn entry_view(e: DatedEntry) -> LogEntryView {
    LogEntryView {
        date: e.date@,
        test_pass: e.entry.test_pass,
        fields: fields_view(e.entry.other_fields@),
    }
}

/// The view of the dated log.
pub open spec fn log_view(t: TestLog) -> Seq<LogEntryView> {
    t.entries@.map_values(|e: DatedEntry| entry_view(e))
}

/// The first entry from `k` on that carries `date`.
pub open spec fn find_date_from(s: Seq<LogEntryView>, date: Seq<char>, k: int) -> Option<int>
    decreases s.len() - k,
{
    if k < 0 || k >= s.len() {
        None
    } else if s[k].date == date {
        Some(k)
    } else {
        find_date_from(s, date, k + 1)
    }
}

/// The first field from `k` on that carries `name`.
pub open spec fn find_field_from(s: Seq<FieldView>, name: Seq<char>, k: int) -> Option<int>
    decreases s.len() - k,
{
    if k < 0 || k >= s.len() {
        None
    } else if s[k].name == name {
        Some(k)
    } else {
        find_field_from(s, name, k + 1)
    }
}

/// Stores a named value: the first field of that name takes the new
/// value, or a new field is appended.
pub open spec fn upsert_field(s: Seq<FieldView>, name: Seq<char>, value: Seq<char>) -> Seq<
    FieldView,
> {
    match find_field_from(s, name, 0) {
        Some(i) => s.update(i, FieldView { name: s[i].name, value }),
        None => s.push(FieldView { name, value }),
    }
}

/// How one log write changes an entry: the verdict field parses a
/// boolean, anything else stores the text under its name.
pub open spec fn apply_log_item(e: LogEntryView, item: &str, log: &str) -> Result<
    LogEntryView,
    RecordError,
> {
    if item@ == "test_pass"@ {
        match parse_bool_spec(log.spec_bytes()) {
            Some(b) => Ok(LogEntryView { test_pass: b, ..e }),
            None => Err(RecordError::BadBool),
        }
    } else {
        Ok(LogEntryView { fields: upsert_field(e.fields, item@, log@), ..e })
    }
}

/// How one log write changes the whole log: the first entry of the date
/// is updated, or a fresh entry for the date is appended.
pub open spec fn set_log_view(v: Seq<LogEntryView>, date: &str, item: &str, log: &str) -> Result<
    Seq<LogEntryView>,
    RecordError,
> {
    let base = match find_date_from(v, date@, 0) {
        Some(i) => v[i],
        None => LogEntryView { date: date@, test_pass: false, fields: Seq::empty() },
    };
    match apply_log_item(base, item, log) {
        Ok(e2) => Ok(
            match find_date_from(v, date@, 0) {
                Some(i) => v.update(i, e2),
                None => v.push(e2),
            },
        ),
        Err(er) => Err(er),
    }
}

/// Stores a named value in a field list, updating the first field of
/// that name or appending one.
fn upsert_field_exec(fields: &mut Vec<LogField>, name: &str, value: &str)
    ensures
        fields_view(final(fields)@) == upsert_field(fields_view(old(fields)@), name@, value@),
{
    let ghost view0 = fields_view(fields@);
    let name_string = String::from_str(name);
    let n: usize = fields.len();
    let mut i: usize = 0;
    while i < n
        invariant
            n == fields@.len(),
            0 <= i <= n,
            name_string@ == name@,
            fields@ == old(fields)@,
            view0 == fields_view(fields@),
            find_field_from(view0, name@, 0) == find_field_from(view0, name@, i as int),
        decreases n - i,
    {
        if fields[i].name == name_string {
            assert(view0[i as int].name == name@);
            let mut f = fields.remove(i);
            f.value = String::from_str(value);
            fields.insert(i, f);
            proof {
                assert(fields_view(fields@) =~= upsert_field(view0, name@, value@));
            }
            return ;
        }
        assert(view0[i as int].name != name@);
        i = i + 1;
    }
    fields.push(LogField { name: name_string, value: String::from_str(value) });
    proof {
        assert(fields_view(fields@) =~= upsert_field(view0, name@, value@));
    }
}

/// Applies one write to the dated log: the entry of the date — created if
/// absent — takes the verdict or the named value. A verdict that is not a
/// boolean is refused and leaves the record unchanged.
pub fn set_test_log(data: &mut TestData, date: &str, item: &str, log: &str) -> (r: Result<
    (),
    RecordError,
>)
    ensures
        match r {
            Ok(()) => {
                &&& set_log_view(log_view(old(data).test_log), date, item, log) == Ok::<
                    Seq<LogEntryView>,
                    RecordError,
                >(log_view(final(data).test_log))
                &&& final(data).device_info == old(data).device_info
                &&& final(data).test_content == old(data).test_content
            },
            Err(e) => set_log_view(log_view(old(data).test_log), date, item, log) == Err::<
                Seq<LogEntryView>,
                RecordError,
            >(e) && *final(data) == *old(data),
        },
{
    let ghost view0 = log_view(old(data).test_log);
    let is_verdict = str_is_test_pass(item);
    let parsed: Option<bool> = if is_verdict {
        match parse_bool(log) {
            Some(b) => Some(b),
            None => {
                return Err(RecordError::BadBool);
            },
        }
    } else {
        None
    };
    let date_string = String::from_str(date);
    let n: usize = data.test_log.entries.len();
    let mut found: Option<usize> = None;
    let mut i: usize = 0;
    while i < n && found.is_none()
        invariant
            n == data.test_log.entries@.len(),
            0 <= i <= n,
            date_string@ == date@,
            *data == *old(data),
            view0 == log_view(data.test_log),
            match found {
                Some(j) => 0 <= j < n && find_date_from(view0, date@, 0) == Some(j as int) && i == j
                    + 1,
                None => find_date_from(view0, date@, 0) == find_date_from(view0, date@, i as int),
            },
        decreases n - i,
    {
        if data.test_log.entries[i].date == date_string {
            assert(view0[i as int].date == date@);
            found = Some(i);
        } else {
            assert(view0[i as int].date != date@);
        }
        i = i + 1;
    }
    match found {
        Some(j) => {
            let mut de = data.test_log.entries.remove(j);
            if is_verdict {
                match parsed {
                    Some(b) => de.entry.test_pass = b,
                    None => {},
                }
            } else {
                upsert_field_exec(&mut de.entry.other_fields, item, log);
            }
            data.test_log.entries.insert(j, de);
            proof {
                assert(log_view(data.test_log) =~= view0.update(
                    j as int,
                    entry_view(data.test_log.entries@[j as int]),
                ));
            }
        },
        None => {
            let mut entry = TestLogEntry { test_pass: false, other_fields: Vec::new() };
            proof {
                assert(fields_view(entry.other_fields@) =~= Seq::<FieldView>::empty());
            }
            if is_verdict {
                match parsed {
                    Some(b) => entry.test_pass = b,
                    None => {},
                }
            } else {
                upsert_field_exec(&mut entry.other_fields, item, log);
            }
            let de = DatedEntry { date: date_string, entry };
            data.test_log.entries.push(de);
            proof {
                assert(log_view(data.test_log) =~= view0.push(
                    entry_view(data.test_log.entries@.last()),
                ));
            }
        },
    }
    Ok(())
}

/// Whether a log item name is the verdict field.
fn str_is_test_pass(item: &str) -> (r: bool)
    ensures
        r == (item@ == "test_pass"@),
{
    let a = String::from_str(item);
    let b = String::from_str("test_pass");
    a == b
}

/// The digit character of one decimal digit.
pub open spec fn digit_str(d: int) -> Seq<char> {
    if d == 0 {
        "0"@
    } else if d == 1 {
        "1"@
    } else if d == 2 {
        "2"@
    } else if d == 3 {
        "3"@
    } else if d == 4 {
        "4"@
    } else if d == 5 {
        "5"@
    } else if d == 6 {
        "6"@
    } else if d == 7 {
        "7"@
    } else if d == 8 {
        "8"@
    } else {
        "9"@
    }
}

/// The decimal rendering of a non-negative number.
pub open spec fn decimal_chars(n: int) -> Seq<char>
    decreases n,
{
    if n < 10 {
        digit_str(n)
    } else {
        decimal_chars(n / 10) + digit_str(n % 10)
    }
}

/// Appends the decimal rendering of `n`.
fn append_decimal(out: &mut String, n: u32)
    ensures
        final(out)@ == old(out)@ + decimal_chars(n as int),
    decreases n,
{
    if n >= 10 {
        append_decimal(out, n / 10);
    }
    let d = n % 10;
    if d == 0 {
        out.append("0");
    } else if d == 1 {
        out.append("1");
    } else if d == 2 {
        out.append("2");
    } else if d == 3 {
        out.append("3");
    } else if d == 4 {
        out.append("4");
    } else if d == 5 {
        out.append("5");
    } else if d == 6 {
        out.append("6");
    } else if d == 7 {
        out.append("7");
    } else if d == 8 {
        out.append("8");
    } else {
        out.append("9");
    }
    proof {
        if n >= 10 {
            assert(old(out)@ + decimal_chars(n as int / 10) + digit_str(n as int % 10) =~= old(
                out,
            )@ + decimal_chars(n as int));
        }
    }
}

/// Renders a number the way the configuration surface shows it.
pub fn decimal_string(n: u32) -> (r: String)
    ensures
        r@ == decimal_chars(n as int),
{
    let mut out = String::new();
    append_decimal(&mut out, n);
    proof {
        assert(Seq::<char>::empty() + decimal_chars(n as int) =~= decimal_chars(n as int));
    }
    out
}

/// The text a configuration lookup yields: strings as stored, thresholds
/// rendered in decimal, and nothing for an unknown section or key.
pub open spec fn config_value_spec(c: AppConfig, section: &str, key: &str) -> Option<Seq<char>> {
    if section.spec_bytes() == "application".spec_bytes() {
        if key.spec_bytes() == "machine_number".spec_bytes() {
            Some(c.application.machine_number@)
        } else {
            None
        }
    } else if section.spec_bytes() == "testing".spec_bytes() {
        if key.spec_bytes() == "board_version".spec_bytes() {
            Some(c.testing.board_version@)
        } else if key.spec_bytes() == "desktop_mode".spec_bytes() {
            Some(c.testing.desktop_mode@)
        } else if key.spec_bytes() == "eth_mod".spec_bytes() {
            Some(c.testing.eth_mod@)
        } else if key.spec_bytes() == "eth_up_speed".spec_bytes() {
            Some(decimal_chars(c.testing.eth_up_speed as int))
        } else if key.spec_bytes() == "eth_down_speed".spec_bytes() {
            Some(decimal_chars(c.testing.eth_down_speed as int))
        } else if key.spec_bytes() == "wifi_up_speed".spec_bytes() {
            Some(decimal_chars(c.testing.wifi_up_speed as int))
        } else if key.spec_bytes() == "wifi_down_speed".spec_bytes() {
            Some(decimal_chars(c.testing.wifi_down_speed as int))
        } else {
            None
        }
    } else {
        None
    }
}

/// Looks one value up in the configuration, thresholds rendered as text.
pub fn get_config_str(config: &AppConfig, section: &str, key: &str) -> (r: Option<String>)
    ensures
        match r {
            Some(s) => config_value_spec(*config, section, key) == Some(s@),
            None => config_value_spec(*config, section, key) is None,
        },
{
    if str_eq(section, "application") {
        if str_eq(key, "machine_number") {
            Some(config.application.machine_number.clone())
        } else {
            None
        }
    } else if str_eq(section, "testing") {
        if str_eq(key, "board_version") {
            Some(config.testing.board_version.clone())
        } else if str_eq(key, "desktop_mode") {
            Some(config.testing.desktop_mode.clone())
        } else if str_eq(key, "eth_mod") {
            Some(config.testing.eth_mod.clone())
        } else if str_eq(key, "eth_up_speed") {
            Some(decimal_string(config.testing.eth_up_speed))
        } else if str_eq(key, "eth_down_speed") {
            Some(decimal_string(config.testing.eth_down_speed))
        } else if str_eq(key, "wifi_up_speed") {
            Some(decimal_string(config.testing.wifi_up_speed))
        } else if str_eq(key, "wifi_down_speed") {
            Some(decimal_string(config.testing.wifi_down_speed))
        } else {
            None
        }
    } else {
        None
    }
}

} // verus!
