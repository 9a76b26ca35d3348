//! Hardware identity: serial numbers and identity-banner parsing.
//!
//! A serial number encodes product, variant, year, ISO week, test host and
//! a per-prefix counter, all as ASCII. The counter and the host number
//! come from persisted state; the date comes from the system clock behind
//! a thin wrapper, and everything built from it is checked here.

use vstd::prelude::*;
use vstd::string::{StringExecFns, StringSliceAdditionalSpecFns};
use crate::text::{contains_seq, contains_sub, extract_between, rfind_byte, slice_range};

verus! {

/// Relies on chrono's `Local::now` with `Datelike::year` and
/// `Datelike::iso_week`: the clock may read anything, but an ISO week
/// number always lies between 1 and 53.
#[verifier::external_body]
fn now_year_week() -> (r: (i32, u32))
    ensures
        1 <= r.1 <= 53,
{
    let now = chrono::Local::now();
    (chrono::Datelike::year(&now), chrono::Datelike::iso_week(&now).week())
}

/// The variant letter of a serial number: `d` for the ATX variant, `e`
/// for the desktop one.
pub open spec fn config_code_spec(atx: bool) -> u8 {
    if atx {
        100u8
    } else {
        101u8
    }
}

/// The year letter: `a` for 2025, `b` for 2026, and so on.
pub open spec fn year_code_spec(year: int) -> u8 {
    (year - 2025 + 97) as u8
}

/// The week letter: `a` to `z` for weeks 1 to 26, then `A` onward for
/// weeks 27 to 52. An ISO week 53, which some years have, falls one past
/// `Z` and yields the next ASCII byte, `[` — the scheme was laid out for
/// 52 weeks and week 53 carries that fallout.
pub open spec fn week_code_spec(week: int) -> u8 {
    if week <= 26 {
        (week - 1 + 97) as u8
    } else {
        (week - 27 + 65) as u8
    }
}

/// The uppercase hexadecimal digit for a value below 16.
pub open spec fn hex_digit_spec(d: int) -> u8 {
    if d < 10 {
        (48 + d) as u8
    } else {
        (65 + d - 10) as u8
    }
}

/// The four uppercase hexadecimal digits of a 16-bit counter.
pub open spec fn hex4_spec(count: int) -> Seq<u8> {
    seq![
        hex_digit_spec(count / 0x1000 % 16),
        hex_digit_spec(count / 0x100 % 16),
        hex_digit_spec(count / 0x10 % 16),
        hex_digit_spec(count % 16),
    ]
}

/// The prefix shared by every serial number issued in one week on one
/// host: `N`, the variant letter, the year letter, the week letter, and
/// the test-host digits. Stored records are counted by this prefix.
pub open spec fn serial_prefix_spec(atx: bool, year: int, week: int, machine: Seq<u8>) -> Seq<
    u8,
> {
    seq![78u8, config_code_spec(atx), year_code_spec(year), week_code_spec(week)] + machine
}

/// A whole serial number: the week's prefix followed by the counter in
/// hexadecimal.
pub open spec fn serial_bytes_spec(
    atx: bool,
    year: int,
    week: int,
    machine: Seq<u8>,
    count: int,
) -> Seq<u8> {
    serial_prefix_spec(atx, year, week, machine) + hex4_spec(count)
}

/// Renders the four hexadecimal digits of `count`.
fn hex4(count: u16) -> (r: Vec<u8>)
    ensures
        r@ == hex4_spec(count as int),
{
    let d0 = hex_digit((count / 0x1000 % 16) as u8);
    let d1 = hex_digit((count / 0x100 % 16) as u8);
    let d2 = hex_digit((count / 0x10 % 16) as u8);
    let d3 = hex_digit((count % 16) as u8);
    let mut out: Vec<u8> = Vec::new();
    out.push(d0);
    out.push(d1);
    out.push(d2);
    out.push(d3);
    proof {
        assert(out@ =~= hex4_spec(count as int));
    }
    out
}

/// Renders one uppercase hexadecimal digit.
fn hex_digit(d: u8) -> (r: u8)
    requires
        d < 16,
    ensures
        r == hex_digit_spec(d as int),
{
    if d < 10 {
        48 + d
    } else {
        65 + d - 10
    }
}

/// Builds the serial prefix for a known date. The product configuration
/// selects the variant letter by whether it names the ATX build.
pub fn serial_prefix_from(product_config: &[u8], year: i32, week: u32, machine: &[u8]) -> (r:
    Vec<u8>)
    requires
        2025 <= year <= 2050,
        1 <= week <= 53,
    ensures
        r@ == serial_prefix_spec(
            contains_seq(product_config@, "ATX".spec_bytes()),
            year as int,
            week as int,
            machine@,
        ),
{
    let atx = contains_sub(product_config, "ATX".as_bytes());
    let mut out: Vec<u8> = Vec::new();
    out.push(78);
    out.push(if atx { 100 } else { 101 });
    out.push(((year - 2025) + 97) as u8);
    if week <= 26 {
        out.push(((week - 1) + 97) as u8);
    } else {
        out.push(((week - 27) + 65) as u8);
    }
    let mut i: usize = 0;
    while i < machine.len()
        invariant
            0 <= i <= machine@.len(),
            out@ == seq![
                78u8,
                config_code_spec(contains_seq(product_config@, "ATX".spec_bytes())),
                year_code_spec(year as int),
                week_code_spec(week as int),
            ] + machine@.take(i as int),
        decreases machine@.len() - i,
    {
        out.push(machine[i]);
        proof {
            assert(machine@.take(i as int).push(machine@[i as int]) =~= machine@.take(i + 1));
        }
        i = i + 1;
    }
    proof {
        assert(machine@.take(machine@.len() as int) =~= machine@);
        assert(out@ =~= serial_prefix_spec(
            contains_seq(product_config@, "ATX".spec_bytes()),
            year as int,
            week as int,
            machine@,
        ));
    }
    out
}

/// Completes a serial number: the week's prefix followed by the counter
/// of records already issued under it.
pub fn serial_number_for_prefix(prefix: &[u8], count: u16) -> (r: Vec<u8>)
    ensures
        r@ == prefix@ + hex4_spec(count as int),
{
    let mut out = crate::text::slice_range(prefix, 0, prefix.len());
    proof {
        assert(prefix@.subrange(0, prefix@.len() as int) =~= prefix@);
    }
    let mut digits = hex4(count);
    out.append(&mut digits);
    out
}

/// Builds the serial number for a known date.
pub fn serial_number_from(
    product_config: &[u8],
    year: i32,
    week: u32,
    machine: &[u8],
    count: u16,
) -> (r: Vec<u8>)
    requires
        2025 <= year <= 2050,
        1 <= week <= 53,
    ensures
        r@ == serial_bytes_spec(
            contains_seq(product_config@, "ATX".spec_bytes()),
            year as int,
            week as int,
            machine@,
            count as int,
        ),
{
    let prefix = serial_prefix_from(product_config, year, week, machine);
    serial_number_for_prefix(prefix.as_slice(), count)
}

/// Builds this week's serial prefix from the clock, so the caller can
/// count the records already issued under it before completing a new
/// serial number. `None` when the clock reads a year the letter scheme
/// does not cover.
pub fn serial_number_prefix(product_config: &[u8], machine: &[u8]) -> (r: Option<Vec<u8>>)
    ensures
        r matches Some(v) ==> exists|year: int, week: int|
            {
                &&& 2025 <= year <= 2050
                &&& 1 <= week <= 53
                &&& v@ == serial_prefix_spec(
                    contains_seq(product_config@, "ATX".spec_bytes()),
                    year,
                    week,
                    machine@,
                )
            },
{
    let (year, week) = now_year_week();
    if 2025 <= year && year <= 2050 {
        let prefix = serial_prefix_from(product_config, year, week, machine);
        proof {
            assert(2025 <= year as int <= 2050 && 1 <= week as int <= 53 && prefix@
                == serial_prefix_spec(
                contains_seq(product_config@, "ATX".spec_bytes()),
                year as int,
                week as int,
                machine@,
            ));
        }
        Some(prefix)
    } else {
        None
    }
}

/// Builds a new serial number from today's date, the test-host digits and
/// the count of serial numbers already issued under the same prefix.
/// `None` when the clock reads a year the letter scheme does not cover.
pub fn create_serial_number(product_config: &[u8], machine: &[u8], count: u16) -> (r: Option<
    Vec<u8>,
>)
    ensures
        r matches Some(v) ==> exists|year: int, week: int|
            {
                &&& 2025 <= year <= 2050
                &&& 1 <= week <= 53
                &&& v@ == serial_bytes_spec(
                    contains_seq(product_config@, "ATX".spec_bytes()),
                    year,
                    week,
                    machine@,
                    count as int,
                )
            },
{
    let (year, week) = now_year_week();
    if 2025 <= year && year <= 2050 {
        let serial = serial_number_from(product_config, year, week, machine, count);
        proof {
            assert(2025 <= year as int <= 2050 && 1 <= week as int <= 53 && serial@
                == serial_bytes_spec(
                contains_seq(product_config@, "ATX".spec_bytes()),
                year as int,
                week as int,
                machine@,
                count as int,
            ));
        }
        Some(serial)
    } else {
        None
    }
}

/// A usable test-host number: non-empty, every character a digit from
/// `1` to `9`.
pub open spec fn valid_machine_number(machine: Seq<u8>) -> bool {
    machine.len() > 0 && forall|i: int| 0 <= i < machine.len() ==> 49 <= #[trigger] machine[i]
        <= 57
}

/// Checks the configured test-host number before any serial number is
/// built from it; a run with a bad number must stop at setup.
pub fn machine_number_is_valid(machine: &str) -> (r: bool)
    ensures
        r == valid_machine_number(machine.spec_bytes()),
{
    let bytes = machine.as_bytes();
    let n: usize = bytes.len();
    if n == 0 {
        return false;
    }
    let mut i: usize = 0;
    while i < n
        invariant
            n == machine.spec_bytes().len(),
            bytes@ == machine.spec_bytes(),
            0 <= i <= n,
            forall|j: int| 0 <= j < i ==> 49 <= #[trigger] machine.spec_bytes()[j] <= 57,
        decreases n - i,
    {
        let b = bytes[i];
        if b < 49 || b > 57 {
            return false;
        }
        i = i + 1;
    }
    true
}

/// Reads the board variant out of an identity banner: the text between
/// the first opening parenthesis and the closing one after it. `None`
/// exactly when the banner frames nothing.
pub fn parse_type_field(received: &[u8]) -> (r: Option<Vec<u8>>)
    ensures
        match r {
            Some(v) => exists|i: int, j: int|
                {
                    &&& 0 <= i < j < received@.len()
                    &&& received@[i] == 40
                    &&& received@[j] == 41
                    &&& v@ == received@.subrange(i + 1, j)
                },
            None => !crate::text::has_delimited_pair(received@, 40, 41),
        },
{
    extract_between(received, 40, 41)
}

/// `i` is the position of the last `N` in `text`.
pub open spec fn is_last_serial_start(text: Seq<u8>, i: int) -> bool {
    0 <= i < text.len() && text[i] == 78 && (forall|j: int| i < j < text.len() ==> text[j] != 78)
}

/// Reads the serial number out of an identity banner: the nine bytes from
/// the last `N` on. `None` exactly when no `N` occurs, or fewer than nine
/// bytes follow the last one.
pub fn parse_serial_field(received: &[u8]) -> (r: Option<Vec<u8>>)
    ensures
        match r {
            Some(v) => exists|i: int|
                {
                    &&& is_last_serial_start(received@, i)
                    &&& i + 9 <= received@.len()
                    &&& v@ == received@.subrange(i, i + 9)
                },
            None => (forall|j: int| 0 <= j < received@.len() ==> received@[j] != 78) || (exists|
                i: int,
            | is_last_serial_start(received@, i) && i + 9 > received@.len()),
        },
{
    let n: usize = received.len();
    match rfind_byte(received, 78) {
        Some(start) => {
            assert(is_last_serial_start(received@, start as int));
            if n - start >= 9 {
                Some(slice_range(received, start, start + 9))
            } else {
                None
            }
        },
        None => None,
    }
}

/// Composes the banner written back to the device:
/// `NanoKVM_Pro (<variant>-<batch>) <serial>`.
pub fn compose_version_info(variant: &str, batch: &str, serial: &str) -> (r: String)
    ensures
        r@ == "NanoKVM_Pro ("@ + variant@ + "-"@ + batch@ + ") "@ + serial@,
{
    let mut out = String::from_str("NanoKVM_Pro (");
    out.append(variant);
    out.append("-");
    out.append(batch);
    out.append(") ");
    out.append(serial);
    out
}

/// Composes the display name of the device under test:
/// `NanoKVM-<variant>`.
pub fn compose_target_name(variant: &str) -> (r: String)
    ensures
        r@ == "NanoKVM-"@ + variant@,
{
    let mut out = String::from_str("NanoKVM-");
    out.append(variant);
    out
}

/// Composes the label shown for the current device:
/// `<hardware>-<machine>`.
pub fn compose_device_label(hardware: &str, machine: &str) -> (r: String)
    ensures
        r@ == hardware@ + "-"@ + machine@,
{
    let mut out = String::new();
    out.append(hardware);
    out.append("-");
    out.append(machine);
    out
}

} // verus!
