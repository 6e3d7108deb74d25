//! The settings dialog's LED Lab: stepping through the testable LEDs,
//! restoring the selected number LEDs, and the read-only snapshot of the
//! Solo's LED command buffer.
use vstd::prelude::*;
use vstd::string::StringExecFns;
use crate::device::{
    all_ok, extends, le_u32, lemma_extends_push, lemma_extends_refl, run_result, runs, since,
    transfer_ok, device_error_text, DeviceError, Result, ScarlettDevice, Transfer,
};
use crate::direct::{device_is_solo, is_solo};
use crate::led::solo::{
    can_test_spec, number_leds_spec, restore_plan, restore_test, test_led, unsupported_for,
    untestable_message, INPUT_1_LED, INPUT_2_LED,
};
use crate::led::single_led_plan;
use crate::settings_dialog::{active_input_indices, active_input_indices_spec};
use crate::text::{decimal, push_decimal, string_push};

verus! {

/// The LED that the LED Lab's "Next LED" goes to after `index`: from the
/// input 1 number to the first halo LED, along the halo LEDs and the input 2
/// number, and from anywhere else back to the input 1 number.
pub open spec fn next_test_index_spec(index: u8) -> u8 {
    if index == 4 {
        6
    } else if 6 <= index <= 18 {
        (index + 1) as u8
    } else {
        4
    }
}

/// The LED that the LED Lab tests after `index`.
pub fn next_test_index(index: u8) -> (next: u8)
    ensures
        next == next_test_index_spec(index),
{
    match index {
        4 => 6,
        6..=18 => index + 1,
        _ => 4,
    }
}

/// "Next LED" never lands on an LED that cannot be tested.
pub proof fn lemma_next_test_index_is_testable(index: u8)
    ensures
        can_test_spec(next_test_index_spec(index)),
{
}

/// The LED reached from the input 1 number after `steps` presses of "Next LED".
pub open spec fn after_presses(steps: nat) -> u8
    decreases steps,
{
    if steps == 0 {
        4
    } else {
        next_test_index_spec(after_presses((steps - 1) as nat))
    }
}

proof fn lemma_after_presses(steps: nat)
    requires
        1 <= steps <= 14,
    ensures
        after_presses(steps) == steps + 5,
    decreases steps,
{
    if steps > 1 {
        lemma_after_presses((steps - 1) as nat);
    } else {
        assert(after_presses(0) == 4);
    }
}

/// Starting from the input 1 number, "Next LED" reaches every LED that can
/// be tested within 14 presses, and the 15th press comes back to the start.
pub proof fn lemma_next_test_index_visits_every_testable_led(index: u8)
    requires
        can_test_spec(index),
    ensures
        exists|steps: nat| steps < 15 && after_presses(steps) == index,
        after_presses(15) == 4,
{
    lemma_after_presses(14);
    if index == 4 {
        assert(after_presses(0) == index);
    } else {
        let steps = (index - 5) as nat;
        lemma_after_presses(steps);
        assert(after_presses(steps) == index);
    }
}

// ---------------------------------------------------------------------------
// Snapshot text
// ---------------------------------------------------------------------------

/// The upper-case hexadecimal digit for `d` (`d < 16`).
pub open spec fn hex_digit(d: nat) -> char {
    if d < 10 {
        ((d + 48) as u32) as char
    } else {
        ((d + 55) as u32) as char
    }
}

/// `b` as two upper-case hexadecimal digits.
pub open spec fn hex2(b: u8) -> Seq<char> {
    seq![hex_digit((b / 16) as nat), hex_digit((b % 16) as nat)]
}

/// The bytes as two-digit hexadecimal numbers separated by `, `.
pub open spec fn hex_items(bytes: Seq<u8>) -> Seq<char>
    decreases bytes.len(),
{
    if bytes.len() == 0 {
        Seq::empty()
    } else if bytes.len() == 1 {
        hex2(bytes[0])
    } else {
        hex_items(bytes.drop_last()) + ", "@ + hex2(bytes.last())
    }
}

/// The bytes as a bracketed list of two-digit hexadecimal numbers, as
/// `{:02X?}` prints a byte vector.
pub open spec fn hex_list(bytes: Seq<u8>) -> Seq<char> {
    "["@ + hex_items(bytes) + "]"@
}

/// The eight upper-case hexadecimal digits of `x`, most significant first.
pub open spec fn hex8_digits(x: nat, count: nat) -> Seq<char>
    decreases count,
{
    if count == 0 {
        Seq::empty()
    } else {
        hex8_digits(x / 16, (count - 1) as nat).push(hex_digit(x % 16))
    }
}

/// `x` as `0x` and eight upper-case hexadecimal digits, as `{:#010X}`
/// prints a 32-bit number.
pub open spec fn hex32(x: u32) -> Seq<char> {
    "0x"@ + hex8_digits(x as nat, 8)
}

/// The number of four-byte colour slots in `values` (a trailing partial
/// slot is left out).
pub open spec fn slot_count(values: Seq<u8>) -> nat {
    values.len() / 4
}

/// The colour held by slot `i` of `values`: its four bytes, little-endian.
pub open spec fn slot_color(values: Seq<u8>, i: int) -> u32 {
    le_u32(values.subrange(4 * i, 4 * i + 4))
}

/// ` i=0x........` for the first `n` slots of `values`.
pub open spec fn slots_text(values: Seq<u8>, n: nat) -> Seq<char>
    decreases n,
{
    if n == 0 {
        Seq::empty()
    } else {
        slots_text(values, (n - 1) as nat) + " "@ + decimal((n - 1) as nat) + "="@ + hex32(
            slot_color(values, n - 1),
        )
    }
}

/// The LED Lab snapshot text for the four replies: the LED mode (72), the Air
/// switch (62) and Direct Monitor (264) as byte lists, then every colour
/// slot of the command buffer (88).
pub open spec fn snapshot_text(mode: Seq<u8>, direct: Seq<u8>, values: Seq<u8>, air: Seq<u8>) -> Seq<
    char,
> {
    "READ ONLY: mode[72]="@ + hex_list(mode) + "; Air[62]="@ + hex_list(air) + "; Direct[264]="@
        + hex_list(direct)
        + "\nCommand buffer (NOT measured panel colours), slots[88]:"@ + slots_text(
        values,
        slot_count(values),
    )
}

fn hex_digit_of(d: u8) -> (c: char)
    requires
        d < 16,
    ensures
        c == hex_digit(d as nat),
{
    if d < 10 {
        (d + 48) as char
    } else {
        (d + 55) as char
    }
}

fn push_hex2(s: &mut String, b: u8)
    ensures
        final(s)@ == old(s)@ + hex2(b),
{
    string_push(s, hex_digit_of(b / 16));
    string_push(s, hex_digit_of(b % 16));
    assert(final(s)@ =~= old(s)@ + hex2(b));
}

fn push_hex_list(s: &mut String, bytes: &Vec<u8>)
    ensures
        final(s)@ == old(s)@ + hex_list(bytes@),
{
    let ghost start = s@;
    s.append("[");
    let mut i: usize = 0;
    while i < bytes.len()
        invariant
            i <= bytes.len(),
            s@ == start + "["@ + hex_items(bytes@.take(i as int)),
        decreases bytes.len() - i,
    {
        if i > 0 {
            s.append(", ");
        }
        push_hex2(s, bytes[i]);
        proof {
            let next = bytes@.take(i + 1);
            assert(next.drop_last() =~= bytes@.take(i as int));
            assert(next.last() == bytes@[i as int]);
            if i == 0 {
                assert(bytes@.take(0) =~= Seq::<u8>::empty());
                assert(hex_items(next) == hex2(bytes@[0]));
            }
            assert(s@ =~= start + "["@ + hex_items(next));
        }
        i = i + 1;
    }
    s.append("]");
    assert(bytes@.take(bytes.len() as int) =~= bytes@);
    assert(s@ =~= start + hex_list(bytes@));
}

proof fn lemma_hex8_step(x: nat, count: nat)
    requires
        count > 0,
    ensures
        hex8_digits(x, count) == hex8_digits(x / 16, (count - 1) as nat).push(hex_digit(x % 16)),
{
}

fn push_hex32(s: &mut String, x: u32)
    ensures
        final(s)@ == old(s)@ + hex32(x),
{
    let ghost start = s@;
    s.append("0x");
    let mut digits: Vec<char> = Vec::new();
    let mut rest: u32 = x;
    let mut k: usize = 0;
    assert(pow16(0) == 1);
    assert((x as nat) / 1 == x as nat);
    // digits[j] is the j-th digit from the right.
    while k < 8
        invariant
            k <= 8,
            digits@.len() == k,
            rest as nat == (x as nat) / pow16(k as nat),
            forall|j: int| 0 <= j < k ==> #[trigger] digits@[j] == hex_digit(
                ((x as nat) / pow16(j as nat)) % 16,
            ),
        decreases 8 - k,
    {
        digits.push(hex_digit_of((rest % 16) as u8));
        proof {
            lemma_pow16_step(x as nat, k as nat);
        }
        rest = rest / 16;
        k = k + 1;
    }
    let mut j: usize = 8;
    while j > 0
        invariant
            j <= 8,
            digits@.len() == 8,
            forall|i: int| 0 <= i < 8 ==> #[trigger] digits@[i] == hex_digit(
                ((x as nat) / pow16(i as nat)) % 16,
            ),
            s@ == start + "0x"@ + hex8_digits((x as nat) / pow16(j as nat), (8 - j) as nat),
        decreases j,
    {
        string_push(s, digits[j - 1]);
        proof {
            lemma_pow16_step(x as nat, (j - 1) as nat);
            lemma_hex8_step((x as nat) / pow16((j - 1) as nat), (9 - j) as nat);
        }
        j = j - 1;
    }
    assert(pow16(0) == 1);
    assert(s@ =~= start + hex32(x));
}

/// 16 to the power `k`.
pub open spec fn pow16(k: nat) -> nat
    decreases k,
{
    if k == 0 {
        1
    } else {
        16 * pow16((k - 1) as nat)
    }
}

proof fn lemma_pow16_step(x: nat, k: nat)
    ensures
        pow16(k) > 0,
        x / pow16(k + 1) == (x / pow16(k)) / 16,
    decreases k,
{
    if k > 0 {
        lemma_pow16_step(x, (k - 1) as nat);
    }
    assert(pow16(k + 1) == 16 * pow16(k));
    vstd::arithmetic::div_mod::lemma_div_denominator(x as int, pow16(k) as int, 16);
    assert(pow16(k) * 16 == 16 * pow16(k)) by (nonlinear_arith);
}


/// The descriptors that the snapshot reads, in order, with their lengths:
/// the LED mode (72), Direct Monitor (264), the colour slots (88) and the
/// Air switch (62).
pub open spec fn snapshot_reads() -> Seq<(u32, u32)> {
    seq![(72u32, 1u32), (264u32, 1u32), (88u32, 128u32), (62u32, 1u32)]
}

/// `log` is what reading the descriptors of `plan` in order records, when
/// reading stops right after the first read that fails.
pub open spec fn read_run(plan: Seq<(u32, u32)>, log: Seq<Transfer>) -> bool {
    &&& log.len() <= plan.len()
    &&& forall|i: int|
        0 <= i < log.len() ==> (#[trigger] log[i] matches Transfer::Read { offset, len, .. }
            && offset == plan[i].0 && len == plan[i].1)
    &&& forall|i: int| 0 <= i < log.len() - 1 ==> transfer_ok(#[trigger] log[i])
    &&& log.len() < plan.len() ==> log.len() > 0 && !transfer_ok(log.last())
}

/// The bytes a successful read gave.
pub open spec fn read_bytes(t: Transfer) -> Seq<u8> {
    match t {
        Transfer::Read { reply: Ok(bytes), .. } => bytes,
        _ => Seq::empty(),
    }
}

/// The snapshot text for the four replies, in the order they were read.
pub fn snapshot_text_of(mode: &Vec<u8>, direct: &Vec<u8>, values: &Vec<u8>, air: &Vec<u8>) -> (text:
    String)
    ensures
        text@ == snapshot_text(mode@, direct@, values@, air@),
{
    let mut text = String::from_str("READ ONLY: mode[72]=");
    push_hex_list(&mut text, mode);
    text.append("; Air[62]=");
    push_hex_list(&mut text, air);
    text.append("; Direct[264]=");
    push_hex_list(&mut text, direct);
    text.append("\nCommand buffer (NOT measured panel colours), slots[88]:");
    let ghost head = text@;
    let count = values.len() / 4;
    let mut i: usize = 0;
    while i < count
        invariant
            count == values@.len() / 4,
            i <= count,
            text@ == head + slots_text(values@, i as nat),
        decreases count - i,
    {
        assert(4 * i + 4 <= values.len()) by (nonlinear_arith)
            requires
                i < count,
                count == values@.len() / 4,
        ;
        let base = 4 * i;
        let color = values[base] as u32 + (values[base + 1] as u32) * 0x100 + (values[base + 2]
            as u32) * 0x1_0000 + (values[base + 3] as u32) * 0x100_0000;
        assert(color == slot_color(values@, i as int)) by {
            let b = values@.subrange(4 * i, 4 * i + 4);
            assert(b[0] == values@[base as int]);
            assert(b[1] == values@[base + 1]);
            assert(b[2] == values@[base + 2]);
            assert(b[3] == values@[base + 3]);
        }
        text.append(" ");
        push_decimal(&mut text, i as u64);
        text.append("=");
        push_hex32(&mut text, color);
        assert(text@ =~= head + slots_text(values@, (i + 1) as nat));
        i = i + 1;
    }
    assert(text@ =~= snapshot_text(mode@, direct@, values@, air@));
    text
}

/// Reads the LED state for the LED Lab: the LED mode, Direct Monitor, the
/// colour slots of the command buffer and the Air switch, in that order,
/// stopping at the first failed read, and gives their snapshot text.
pub fn read_led_snapshot(device: &mut impl ScarlettDevice) -> (r: Result<String>)
    ensures
        final(device).info_spec() == old(device).info_spec(),
        extends(old(device).history(), final(device).history()),
        read_run(snapshot_reads(), since(old(device).history(), final(device).history())),
        match r {
            Ok(text) => {
                let log = since(old(device).history(), final(device).history());
                &&& all_ok(log)
                &&& log.len() == 4
                &&& text@ == snapshot_text(
                    read_bytes(log[0]),
                    read_bytes(log[1]),
                    read_bytes(log[2]),
                    read_bytes(log[3]),
                )
            },
            Err(e) => run_result(since(old(device).history(), final(device).history()))
                == Err::<(), DeviceError>(e),
        },
{
    let ghost h0 = device.history();
    proof {
        lemma_extends_refl(h0);
        assert(since(h0, h0) =~= Seq::<Transfer>::empty());
    }
    let m = device.get_descriptor(72, 1);
    proof {
        lemma_extends_push(h0, h0, device.history().last());
        assert(since(h0, device.history()) =~= seq![device.history().last()]);
    }
    let mode = match m {
        Ok(v) => v,
        Err(e) => {
            return Err(e);
        },
    };
    let ghost h1 = device.history();
    let d = device.get_descriptor(264, 1);
    proof {
        lemma_extends_push(h0, h1, device.history().last());
    }
    let direct = match d {
        Ok(v) => v,
        Err(e) => {
            return Err(e);
        },
    };
    let ghost h2 = device.history();
    let s = device.get_descriptor(88, 128);
    proof {
        lemma_extends_push(h0, h2, device.history().last());
    }
    let values = match s {
        Ok(v) => v,
        Err(e) => {
            return Err(e);
        },
    };
    let ghost h3 = device.history();
    let a = device.get_descriptor(62, 1);
    proof {
        lemma_extends_push(h0, h3, device.history().last());
    }
    let air = match a {
        Ok(v) => v,
        Err(e) => {
            return Err(e);
        },
    };
    Ok(snapshot_text_of(&mode, &direct, &values, &air))
}

/// The snapshot only reads: every transfer it records is a descriptor
/// read, so it never changes the panel, the LED mode or the audio settings.
pub proof fn lemma_snapshot_is_read_only(log: Seq<Transfer>)
    requires
        read_run(snapshot_reads(), log),
    ensures
        forall|i: int| 0 <= i < log.len() ==> #[trigger] log[i] is Read,
{
}

/// The snapshot reads the whole command buffer: its reads are, in order,
/// the LED mode (72) and Direct Monitor (264), one byte each, all 128 bytes
/// of the colour slots (88), and the Air switch (62), one byte. So on a
/// device that answers each read with as many bytes as were asked, the
/// snapshot lists all 32 colour slots.
pub proof fn lemma_snapshot_reads_whole_buffer(log: Seq<Transfer>)
    requires
        read_run(snapshot_reads(), log),
    ensures
        log.len() >= 1 ==> (log[0] matches Transfer::Read { offset, len, .. } && offset == 72u32
            && len == 1u32),
        log.len() >= 2 ==> (log[1] matches Transfer::Read { offset, len, .. } && offset == 264u32
            && len == 1u32),
        log.len() >= 3 ==> (log[2] matches Transfer::Read { offset, len, .. } && offset == 88u32
            && len == 128u32),
        log.len() >= 4 ==> (log[3] matches Transfer::Read { offset, len, .. } && offset == 62u32
            && len == 1u32),
        log.len() >= 3 ==> (log[2] matches Transfer::Read { len, reply: Ok(bytes), .. } ==> (
        bytes.len() == len ==> slot_count(bytes) == 32)),
{
    if log.len() >= 1 {
        assert(log[0] is Read);
    }
    if log.len() >= 2 {
        assert(log[1] is Read);
    }
    if log.len() >= 3 {
        assert(log[2] is Read);
    }
    if log.len() >= 4 {
        assert(log[3] is Read);
    }
}

// ---------------------------------------------------------------------------
// Result texts
// ---------------------------------------------------------------------------

/// The LED Lab's text when there is no device.
pub open spec fn no_device_text() -> Seq<char> {
    "The Scarlett device is not available."@
}

/// The LED Lab's text for a device that is not a Solo.
pub open spec fn not_solo_text() -> Seq<char> {
    "LED Lab is available only for Scarlett Solo 4th Gen."@
}

/// The LED Lab's text after a reset.
pub open spec fn reset_done_text() -> Seq<char> {
    "Selected channel numbers restored to white; DATA_NOTIFY(8). Bulk array unchanged."@
}

/// The LED Lab's text after a single-LED test of `index` in `color`.
pub open spec fn single_done_text(index: u8, color: u32) -> Seq<char> {
    "Single LED: color=80, index=84 ("@ + decimal(index as nat) + "), DATA_NOTIFY(8), color="@
        + hex32(color) + "."@
}

/// A failure as the LED Lab shows it.
pub open spec fn error_text(message: Seq<char>) -> Seq<char> {
    "Error: "@ + message
}

/// Why the LED Lab refuses the device it has, if it does: there is none,
/// or it is not a Solo.
pub open spec fn lab_refusal<D: ScarlettDevice>(device: Option<D>) -> Option<Seq<char>> {
    match device {
        None => Some(no_device_text()),
        Some(d) => if device_is_solo(&d) {
            None
        } else {
            Some(not_solo_text())
        },
    }
}

fn lab_check<D: ScarlettDevice>(device: &Option<D>) -> (r: Option<&'static str>)
    ensures
        match r {
            Some(t) => lab_refusal(*device) == Some(t@),
            None => lab_refusal(*device) is None,
        },
{
    match device {
        None => Some("The Scarlett device is not available."),
        Some(d) => if is_solo(d) {
            None
        } else {
            Some("LED Lab is available only for Scarlett Solo 4th Gen.")
        },
    }
}

fn error_string(message: &str) -> (text: String)
    ensures
        text@ == error_text(message@),
{
    let mut text = String::from_str("Error: ");
    text.append(message);
    text
}

/// The text a device operation's outcome shows: `done` on success, the
/// device's error otherwise.
pub open spec fn outcome_text(r: Result<()>, done: Seq<char>) -> Seq<char> {
    match r {
        Ok(_) => done,
        Err(e) => error_text(device_error_text(e)),
    }
}

/// What the LED Lab's snapshot did to the device it had and what it shows.
pub open spec fn lab_snapshot_spec<D: ScarlettDevice>(
    before: Option<D>,
    after: Option<D>,
    text: Seq<char>,
) -> bool {
    match (before, after) {
        (None, None) => text == error_text(no_device_text()),
        (Some(d0), Some(d1)) => {
            let log = since(d0.history(), d1.history());
            &&& d1.info_spec() == d0.info_spec()
            &&& extends(d0.history(), d1.history())
            &&& if !device_is_solo(&d0) {
                d1.history() == d0.history() && text == error_text(not_solo_text())
            } else {
                &&& read_run(snapshot_reads(), log)
                &&& if all_ok(log) {
                    log.len() == 4 && text == snapshot_text(
                        read_bytes(log[0]),
                        read_bytes(log[1]),
                        read_bytes(log[2]),
                        read_bytes(log[3]),
                    )
                } else {
                    text == outcome_text(run_result(log), Seq::empty())
                }
            }
        },
        _ => false,
    }
}

/// The LED Lab's "read state snapshot": the snapshot text of a Solo, or the
/// error text ("Error: " and the reason) when there is no device, it is not
/// a Solo, or a read fails.
pub fn led_lab_snapshot<D: ScarlettDevice>(device: &mut Option<D>) -> (text: String)
    ensures
        lab_snapshot_spec(*old(device), *final(device), text@),
{
    proof {
        if device.is_some() {
            lemma_extends_refl(device->0.history());
        }
    }
    if let Some(refusal) = lab_check(device) {
        return error_string(refusal);
    }
    match device.take() {
        None => error_string("The Scarlett device is not available."),
        Some(mut d) => {
            let r = read_led_snapshot(&mut d);
            *device = Some(d);
            match r {
                Ok(text) => text,
                Err(e) => error_string(e.message().as_str()),
            }
        },
    }
}

/// What the LED Lab's reset did to the device it had and what it shows.
pub open spec fn lab_reset_spec<D: ScarlettDevice>(
    before: Option<D>,
    after: Option<D>,
    input_count: usize,
    mute_inputs_index: usize,
    text: Seq<char>,
) -> bool {
    match (before, after) {
        (None, None) => text == error_text(no_device_text()),
        (Some(d0), Some(d1)) => {
            let log = since(d0.history(), d1.history());
            &&& d1.info_spec() == d0.info_spec()
            &&& extends(d0.history(), d1.history())
            &&& if !device_is_solo(&d0) {
                d1.history() == d0.history() && text == error_text(not_solo_text())
            } else {
                &&& runs(
                    restore_plan(
                        number_leds_spec(active_input_indices_spec(input_count, mute_inputs_index)),
                    ),
                    log,
                )
                &&& text == outcome_text(run_result(log), reset_done_text())
            }
        },
        _ => false,
    }
}

/// The LED Lab's reset: restores the number LEDs of the inputs that the
/// mute-inputs combo selects to white, as `restore_test` does, and gives the
/// text the LED Lab shows.
pub fn led_lab_reset<D: ScarlettDevice>(
    device: &mut Option<D>,
    input_count: usize,
    mute_inputs_index: usize,
) -> (text: String)
    ensures
        lab_reset_spec(*old(device), *final(device), input_count, mute_inputs_index, text@),
{
    let inputs = active_input_indices(input_count, mute_inputs_index);
    proof {
        if device.is_some() {
            lemma_extends_refl(device->0.history());
        }
    }
    if let Some(refusal) = lab_check(device) {
        return error_string(refusal);
    }
    match device.take() {
        None => error_string("The Scarlett device is not available."),
        Some(mut d) => {
            let r = restore_test(&mut d, inputs.as_slice());
            *device = Some(d);
            match r {
                Ok(()) => String::from_str(
                    "Selected channel numbers restored to white; DATA_NOTIFY(8). Bulk array unchanged.",
                ),
                Err(e) => error_string(e.message().as_str()),
            }
        },
    }
}

/// What the LED Lab's single-LED test did to the device it had and what
/// it shows; `color` is the outcome of reading the dialog's colour.
pub open spec fn lab_single_spec<D: ScarlettDevice>(
    before: Option<D>,
    after: Option<D>,
    index: u8,
    color: core::result::Result<u32, Seq<char>>,
    text: Seq<char>,
) -> bool {
    match color {
        Err(message) => after == before && text == error_text(message),
        Ok(c) => match (before, after) {
            (None, None) => text == error_text(no_device_text()),
            (Some(d0), Some(d1)) => {
                let log = since(d0.history(), d1.history());
                &&& d1.info_spec() == d0.info_spec()
                &&& extends(d0.history(), d1.history())
                &&& if !device_is_solo(&d0) {
                    d1.history() == d0.history() && text == error_text(not_solo_text())
                } else if !can_test_spec(index) {
                    d1.history() == d0.history() && text == error_text(
                        "Transaction failed: "@ + untestable_message(),
                    )
                } else {
                    &&& runs(single_led_plan(index, c), log)
                    &&& text == outcome_text(run_result(log), single_done_text(index, c))
                }
            },
            _ => false,
        },
    }
}

/// The LED Lab's single-LED test: lights LED `index` of a Solo in the
/// dialog's colour and gives the text the LED Lab shows. A colour that
/// could not be read is reported before the device is looked at.
pub fn led_lab_single<D: ScarlettDevice>(
    device: &mut Option<D>,
    index: u8,
    color: core::result::Result<u32, String>,
) -> (text: String)
    ensures
        lab_single_spec(
            *old(device),
            *final(device),
            index,
            match color {
                Ok(c) => Ok(c),
                Err(m) => Err(m@),
            },
            text@,
        ),
{
    let c = match color {
        Ok(c) => c,
        Err(message) => {
            return error_string(message.as_str());
        },
    };
    proof {
        if device.is_some() {
            lemma_extends_refl(device->0.history());
        }
    }
    if let Some(refusal) = lab_check(device) {
        return error_string(refusal);
    }
    match device.take() {
        None => error_string("The Scarlett device is not available."),
        Some(mut d) => {
            let r = test_led(&mut d, index, c);
            *device = Some(d);
            match r {
                Ok(()) => {
                    let mut text = String::from_str("Single LED: color=80, index=84 (");
                    push_decimal(&mut text, index as u64);
                    text.append("), DATA_NOTIFY(8), color=");
                    push_hex32(&mut text, c);
                    text.append(".");
                    text
                },
                Err(e) => error_string(e.message().as_str()),
            }
        },
    }
}

/// A single-LED test of `index` may leave a number LED coloured: the flag
/// that asks for a restore when the dialog closes.
pub fn mark_touched(touched: bool, index: u8) -> (now: bool)
    ensures
        now == (touched || index == INPUT_1_LED || index == INPUT_2_LED),
{
    touched || index == INPUT_1_LED || index == INPUT_2_LED
}

/// When the dialog closes after the LED Lab touched a number LED, the
/// selected numbers are restored to white on the device it has; otherwise
/// nothing is sent.
pub fn close_led_lab<D: ScarlettDevice>(
    touched: bool,
    device: &mut Option<D>,
    input_count: usize,
    mute_inputs_index: usize,
) -> (r: Result<()>)
    ensures
        !touched || *old(device) is None ==> r is Ok && *final(device) == *old(device),
        touched && *old(device) is Some ==> *final(device) is Some && close_restore_spec(
            (*old(device))->0,
            (*final(device))->0,
            input_count,
            mute_inputs_index,
            r,
        ),
{
    if !touched {
        return Ok(());
    }
    match device.take() {
        None => Ok(()),
        Some(mut d) => {
            let inputs = active_input_indices(input_count, mute_inputs_index);
            let r = restore_test(&mut d, inputs.as_slice());
            *device = Some(d);
            r
        },
    }
}

/// What restoring on close did to the device: as `restore_test` on the
/// selected inputs.
pub open spec fn close_restore_spec<D: ScarlettDevice>(
    d0: D,
    d1: D,
    input_count: usize,
    mute_inputs_index: usize,
    r: Result<()>,
) -> bool {
    let log = since(d0.history(), d1.history());
    &&& d1.info_spec() == d0.info_spec()
    &&& extends(d0.history(), d1.history())
    &&& !device_is_solo(&d0) ==> unsupported_for(&d0, r) && d1.history() == d0.history()
    &&& device_is_solo(&d0) ==> runs(
        restore_plan(number_leds_spec(active_input_indices_spec(input_count, mute_inputs_index))),
        log,
    ) && r == run_result(log)
}

/// The LED Lab's "Next LED": restores the selected numbers (as the reset
/// does, its text is replaced), steps to the next testable LED, marks a
/// number LED as touched, and tests that LED in the dialog's colour. Gives
/// the new index, the new touched flag and the single test's text.
pub fn led_lab_next<D: ScarlettDevice>(
    device: &mut Option<D>,
    index: u8,
    touched: bool,
    input_count: usize,
    mute_inputs_index: usize,
    color: core::result::Result<u32, String>,
) -> (r: (u8, bool, String))
    ensures
        r.0 == next_test_index_spec(index),
        r.1 == (touched || r.0 == INPUT_1_LED || r.0 == INPUT_2_LED),
        exists|mid: Option<D>, reset_text: Seq<char>|
            #[trigger] lab_reset_spec(*old(device), mid, input_count, mute_inputs_index, reset_text)
                && lab_single_spec(
                mid,
                *final(device),
                r.0,
                match color {
                    Ok(c) => Ok(c),
                    Err(m) => Err(m@),
                },
                r.2@,
            ),
{
    let reset_text = led_lab_reset(device, input_count, mute_inputs_index);
    let ghost mid = *device;
    let next = next_test_index(index);
    let now_touched = mark_touched(touched, next);
    let ghost color_view = match &color {
        Ok(c) => Ok::<u32, Seq<char>>(*c),
        Err(m) => Err::<u32, Seq<char>>(m@),
    };
    let text = led_lab_single(device, next, color);
    assert(lab_reset_spec(*old(device), mid, input_count, mute_inputs_index, reset_text@)
        && lab_single_spec(mid, *device, next, color_view, text@));
    (next, now_touched, text)
}

} // verus!
