//! The Scarlett Solo 4th Gen LED map, as observed on the panel (not a
//! predicted 2i2 layout), and the LED tests that are safe on it.
use vstd::prelude::*;
use crate::device::{
    all_ok, le_bytes, run_result, extends, lemma_extends_refl, lemma_runs_concat, lemma_runs_empty,
    lemma_runs_failed_prefix, lemma_since_concat, runs, since, Command, DeviceError, Result,
    ScarlettDevice, Transfer,
};
use crate::direct::{device_is_solo, is_solo};
use crate::led::{set_single_led, single_led_plan};

verus! {

/// Confirmed physical LED of the input 1 number.
pub const INPUT_1_LED: u8 = 4;

/// Confirmed physical LED of the input 2 number.
pub const INPUT_2_LED: u8 = 12;

/// The colour that the numbers show when not muted.
pub const WHITE: u32 = 0xFFFF_FF00;

/// The number LED of the zero-based input `input`, if it has one.
pub open spec fn number_led(input: usize) -> Option<u8> {
    if input == 0 {
        Some(INPUT_1_LED)
    } else if input == 1 {
        Some(INPUT_2_LED)
    } else {
        None
    }
}

/// The number LEDs of `inputs`, in order; inputs without one are left out.
pub open spec fn number_leds_spec(inputs: Seq<usize>) -> Seq<u8> {
    inputs.filter_map(|input: usize| number_led(input))
}

/// Return the confirmed number LEDs for the configured zero-based input set.
/// Unknown inputs are ignored so a malformed config cannot light a panel LED.
pub fn number_leds(inputs: &[usize]) -> (leds: Vec<u8>)
    ensures
        leds@ == number_leds_spec(inputs@),
{
    let mut leds: Vec<u8> = Vec::new();
    let mut i: usize = 0;
    while i < inputs.len()
        invariant
            i <= inputs.len(),
            leds@ == number_leds_spec(inputs@.take(i as int)),
        decreases inputs.len() - i,
    {
        let input = inputs[i];
        let ghost next = inputs@.take(i + 1);
        assert(next.drop_last() =~= inputs@.take(i as int));
        assert(next.last() == input);
        if input == 0 {
            leds.push(INPUT_1_LED);
        } else if input == 1 {
            leds.push(INPUT_2_LED);
        }
        i = i + 1;
    }
    assert(inputs@.take(inputs.len() as int) =~= inputs@);
    leds
}

/// The name of the panel element at LED `index`; `?` where none is known.
pub open spec fn label_spec(index: u8) -> Seq<char> {
    if index == 0 {
        "Air"@
    } else if index == 2 {
        "Inst"@
    } else if index == 3 {
        "48V"@
    } else if index == 4 {
        "1"@
    } else if 6 <= index <= 11 {
        "Halo 1"@
    } else if index == 12 {
        "2"@
    } else if index == 13 {
        "Halo ?"@
    } else if 14 <= index <= 19 {
        "Halo 2"@
    } else if 24 <= index <= 25 {
        "Output"@
    } else if index == 26 {
        "USB"@
    } else if index == 27 || index == 31 {
        "Direct"@
    } else {
        "?"@
    }
}

/// The name of the panel element at LED `index`.
pub fn label(index: u8) -> (name: &'static str)
    ensures
        name@ == label_spec(index),
{
    match index {
        0 => "Air",
        2 => "Inst",
        3 => "48V",
        4 => "1",
        6..=11 => "Halo 1",
        12 => "2",
        13 => "Halo ?",
        14..=19 => "Halo 2",
        24..=25 => "Output",
        26 => "USB",
        27 | 31 => "Direct",
        _ => "?",
    }
}

/// The Solo's panel map: which element each LED index lights. Both Output
/// LEDs, 24 and 25, are named "Output"; each input halo spans six indices;
/// every index that lights no known element is "?".
pub proof fn lemma_panel_map(index: u8)
    ensures
        index == 0 ==> label_spec(index) == "Air"@,
        index == 2 ==> label_spec(index) == "Inst"@,
        index == 3 ==> label_spec(index) == "48V"@,
        index == 4 ==> label_spec(index) == "1"@,
        6 <= index <= 11 ==> label_spec(index) == "Halo 1"@,
        index == 12 ==> label_spec(index) == "2"@,
        index == 13 ==> label_spec(index) == "Halo ?"@,
        14 <= index <= 19 ==> label_spec(index) == "Halo 2"@,
        24 <= index <= 25 ==> label_spec(index) == "Output"@,
        index == 26 ==> label_spec(index) == "USB"@,
        index == 27 || index == 31 ==> label_spec(index) == "Direct"@,
        index == 1 || index == 5 || (20 <= index <= 23) || (28 <= index <= 30) || index >= 32
            ==> label_spec(index) == "?"@,
{
}

/// Every LED that can be tested names a panel element: none of them is "?".
pub proof fn lemma_testable_leds_are_named(index: u8)
    requires
        can_test_spec(index),
    ensures
        label_spec(index) != "?"@,
{
    reveal_strlit("?");
    reveal_strlit("1");
    reveal_strlit("2");
    reveal_strlit("Halo 1");
    reveal_strlit("Halo ?");
    reveal_strlit("Halo 2");
    assert("?"@.len() == 1);
    assert("1"@.len() == 1);
    assert("2"@.len() == 1);
    assert("Halo 1"@.len() == 6);
    assert("Halo ?"@.len() == 6);
    assert("Halo 2"@.len() == 6);
    assert("?"@[0] == '?');
    assert("1"@[0] == '1');
    assert("2"@[0] == '2');
}

/// LED `index` can be tested: its colour is known to come back afterwards.
pub open spec fn can_test_spec(index: u8) -> bool {
    index == INPUT_1_LED || index == INPUT_2_LED || (6 <= index <= 11) || (13 <= index <= 19)
}

/// Static panel lights have no verified readable RGB state. Test only the
/// number with known white restoration and the observed transient halo LEDs.
pub fn can_test(index: u8) -> (ok: bool)
    ensures
        ok == can_test_spec(index),
{
    index == INPUT_1_LED || index == INPUT_2_LED || (6 <= index && index <= 11) || (13 <= index
        && index <= 19)
}

/// The refusal of a device that is not a Solo: it names the device's model.
pub open spec fn unsupported_for<D: ScarlettDevice, T>(device: &D, r: Result<T>) -> bool {
    r matches Err(DeviceError::UnsupportedDevice(model)) && model@
        == device.info_spec().model_spec()
}

fn require_solo(device: &impl ScarlettDevice) -> (r: Result<()>)
    ensures
        r is Ok <==> device_is_solo(device),
        r is Err ==> unsupported_for(device, r),
{
    if !is_solo(device) {
        return Err(DeviceError::UnsupportedDevice(device.info().model()));
    }
    Ok(())
}

/// The text of the refusal to test an LED whose colour cannot be restored.
pub open spec fn untestable_message() -> Seq<char> {
    "LED restoration is unverified for this index; test disabled"@
}

/// The refusal to test an LED whose colour cannot be restored.
pub open spec fn untestable_refusal(r: Result<()>) -> bool {
    r matches Err(DeviceError::TransactFailed(msg)) && msg@ == untestable_message()
}

/// Lights LED `index` of a Solo in `color`, as a test. Another model is
/// refused with its model name, and an LED whose colour cannot be restored
/// is refused too; nothing is sent to the device in either case.
pub fn test_led(device: &mut impl ScarlettDevice, index: u8, color: u32) -> (r: Result<()>)
    ensures
        final(device).info_spec() == old(device).info_spec(),
        extends(old(device).history(), final(device).history()),
        !device_is_solo(old(device)) ==> unsupported_for(old(device), r) && final(device).history()
            == old(device).history(),
        device_is_solo(old(device)) && !can_test_spec(index) ==> untestable_refusal(r)
            && final(device).history() == old(device).history(),
        device_is_solo(old(device)) && can_test_spec(index) ==> runs(
            single_led_plan(index, color),
            since(old(device).history(), final(device).history()),
        ) && r == run_result(since(old(device).history(), final(device).history())),
{
    proof {
        lemma_extends_refl(device.history());
    }
    let solo = require_solo(device);
    if let Err(e) = solo {
        return Err(e);
    }
    if !can_test(index) {
        return Err(
            DeviceError::TransactFailed(
                String::from_str("LED restoration is unverified for this index; test disabled"),
            ),
        );
    }
    set_single_led(device, index, color)
}

/// The commands that restore `leds` to white, one single-LED command each,
/// in order.
pub open spec fn restore_plan(leds: Seq<u8>) -> Seq<Command>
    decreases leds.len(),
{
    if leds.len() == 0 {
        Seq::empty()
    } else {
        restore_plan(leds.drop_last()) + single_led_plan(leds.last(), WHITE)
    }
}

/// The plan for `leds` is the plan for its first `k` LEDs followed by the
/// plan for the rest.
pub proof fn lemma_restore_plan_split(leds: Seq<u8>, k: int)
    requires
        0 <= k <= leds.len(),
    ensures
        restore_plan(leds) == restore_plan(leds.take(k)) + restore_plan(leds.skip(k)),
    decreases leds.len(),
{
    if k == leds.len() {
        assert(leds.take(k) =~= leds);
        assert(leds.skip(k) =~= Seq::<u8>::empty());
        assert(restore_plan(leds) + Seq::<Command>::empty() =~= restore_plan(leds));
    } else {
        let d = leds.drop_last();
        lemma_restore_plan_split(d, k);
        assert(d.take(k) =~= leds.take(k));
        let rest = leds.skip(k);
        assert(rest.drop_last() =~= d.skip(k));
        assert(rest.last() == leds.last());
        assert(restore_plan(leds) =~= restore_plan(leds.take(k)) + restore_plan(leds.skip(k)));
    }
}

/// No DATA_NOTIFY(5): that command applies the bulk array, including its
/// zero entries. It does not restore the pre-test physical panel colours.
/// Restores the number LEDs of `inputs` to white on a Solo, one single-LED
/// command each, and stops at the first failure; another model is refused
/// with its model name and nothing is sent.
pub fn restore_test(device: &mut impl ScarlettDevice, inputs: &[usize]) -> (r: Result<()>)
    ensures
        final(device).info_spec() == old(device).info_spec(),
        extends(old(device).history(), final(device).history()),
        !device_is_solo(old(device)) ==> unsupported_for(old(device), r) && final(device).history()
            == old(device).history(),
        device_is_solo(old(device)) ==> runs(
            restore_plan(number_leds_spec(inputs@)),
            since(old(device).history(), final(device).history()),
        ) && r == run_result(since(old(device).history(), final(device).history())),
{
    let ghost h0 = device.history();
    proof {
        lemma_extends_refl(h0);
    }
    let solo = require_solo(device);
    if let Err(e) = solo {
        return Err(e);
    }
    let leds = number_leds(inputs);
    let ghost all = restore_plan(leds@);
    proof {
        lemma_runs_empty();
        assert(since(h0, h0) =~= Seq::<Transfer>::empty());
        assert(leds@.take(0) =~= Seq::<u8>::empty());
    }
    let mut i: usize = 0;
    while i < leds.len()
        invariant
            i <= leds.len(),
            leds@ == number_leds_spec(inputs@),
            all == restore_plan(leds@),
            device_is_solo(device),
            device.info_spec() == old(device).info_spec(),
            extends(h0, device.history()),
            h0 == old(device).history(),
            runs(restore_plan(leds@.take(i as int)), since(h0, device.history())),
            all_ok(since(h0, device.history())),
        decreases leds.len() - i,
    {
        let ghost hi = device.history();
        let ghost done = leds@.take(i as int);
        let ghost next = leds@.take(i + 1);
        let step = set_single_led(device, leds[i], WHITE);
        proof {
            lemma_since_concat(h0, hi, device.history());
            lemma_runs_concat(
                restore_plan(done),
                since(h0, hi),
                single_led_plan(leds@[i as int], WHITE),
                since(hi, device.history()),
            );
            assert(next.drop_last() =~= done);
            assert(next.last() == leds@[i as int]);
            assert(restore_plan(next) == restore_plan(done) + single_led_plan(leds@[i as int], WHITE));
        }
        if let Err(e) = step {
            proof {
                lemma_restore_plan_split(leds@, i + 1);
                lemma_runs_failed_prefix(
                    restore_plan(next),
                    since(h0, device.history()),
                    restore_plan(leds@.skip(i + 1)),
                );
            }
            return Err(e);
        }
        i = i + 1;
    }
    assert(leds@.take(leds.len() as int) =~= leds@);
    proof {
        crate::device::lemma_runs_result(all, since(h0, device.history()));
        if since(h0, device.history()).len() > 0 {
            crate::device::lemma_ok_unit(
                crate::device::outcome_of(since(h0, device.history()).last()),
            );
        }
    }
    Ok(())
}

/// A command of the single-LED kind: a write of the colour (80) or the
/// index (84), or DATA_NOTIFY(8).
pub open spec fn single_led_command(c: Command) -> bool {
    match c {
        Command::Write { offset, .. } => offset == 80 || offset == 84,
        Command::Notify { event } => event == 8,
    }
}

/// Restoring never applies a bulk array nor touches any other descriptor:
/// every command it sends is a single-LED command.
pub proof fn lemma_restore_sends_only_single_led_commands(inputs: Seq<usize>)
    ensures
        forall|i: int|
            0 <= i < restore_plan(number_leds_spec(inputs)).len() ==> single_led_command(
                #[trigger] restore_plan(number_leds_spec(inputs))[i],
            ),
{
    lemma_restore_plan_single_led(number_leds_spec(inputs));
}

proof fn lemma_restore_plan_single_led(leds: Seq<u8>)
    ensures
        forall|i: int|
            0 <= i < restore_plan(leds).len() ==> single_led_command(#[trigger] restore_plan(leds)[i]),
    decreases leds.len(),
{
    if leds.len() > 0 {
        let d = leds.drop_last();
        lemma_restore_plan_single_led(d);
        let p = restore_plan(d);
        let s = single_led_plan(leds.last(), WHITE);
        assert forall|i: int| 0 <= i < restore_plan(leds).len() implies single_led_command(
            #[trigger] restore_plan(leds)[i],
        ) by {
            if i >= p.len() {
                assert(restore_plan(leds)[i] == s[i - p.len()]);
            } else {
                assert(restore_plan(leds)[i] == p[i]);
            }
        }
    }
}

/// Restoring lights each number LED of the selected inputs in white, in
/// order: for the `j`-th of them, its colour `0xFFFFFF00` (bytes 00 FF FF FF)
/// goes to descriptor 80, its index to 84, then DATA_NOTIFY(8); each of
/// those LEDs is 4 or 12, and nothing else is sent.
pub proof fn lemma_restore_lights_numbers_white(inputs: Seq<usize>)
    ensures
        restore_plan(number_leds_spec(inputs)).len() == 3 * number_leds_spec(inputs).len(),
        forall|j: int|
            0 <= j < number_leds_spec(inputs).len() ==> {
                let led = #[trigger] number_leds_spec(inputs)[j];
                let plan = restore_plan(number_leds_spec(inputs));
                &&& led == 4 || led == 12
                &&& plan[3 * j] == Command::Write {
                    offset: 80,
                    data: seq![0x00u8, 0xFFu8, 0xFFu8, 0xFFu8],
                }
                &&& plan[3 * j + 1] == Command::Write { offset: 84, data: seq![led] }
                &&& plan[3 * j + 2] == Command::Notify { event: 8 }
            },
{
    lemma_number_leds_are_numbers(inputs);
    lemma_restore_plan_white(number_leds_spec(inputs));
}

proof fn lemma_restore_plan_white(leds: Seq<u8>)
    ensures
        restore_plan(leds).len() == 3 * leds.len(),
        forall|j: int|
            0 <= j < leds.len() ==> {
                let plan = restore_plan(leds);
                &&& plan[3 * j] == Command::Write {
                    offset: 80,
                    data: seq![0x00u8, 0xFFu8, 0xFFu8, 0xFFu8],
                }
                &&& plan[3 * j + 1] == Command::Write { offset: 84, data: seq![#[trigger] leds[j]] }
                &&& plan[3 * j + 2] == Command::Notify { event: 8 }
            },
    decreases leds.len(),
{
    if leds.len() > 0 {
        let d = leds.drop_last();
        lemma_restore_plan_white(d);
        let p = restore_plan(d);
        let s = single_led_plan(leds.last(), WHITE);
        assert(le_bytes(WHITE) =~= seq![0x00u8, 0xFFu8, 0xFFu8, 0xFFu8]);
        assert(restore_plan(leds) == p + s);
        assert forall|j: int| 0 <= j < leds.len() implies {
            let plan = restore_plan(leds);
            &&& plan[3 * j] == Command::Write {
                offset: 80,
                data: seq![0x00u8, 0xFFu8, 0xFFu8, 0xFFu8],
            }
            &&& plan[3 * j + 1] == Command::Write { offset: 84, data: seq![#[trigger] leds[j]] }
            &&& plan[3 * j + 2] == Command::Notify { event: 8 }
        } by {
            if j < d.len() {
                assert(leds[j] == d[j]);
            } else {
                assert(j == d.len());
            }
        }
    }
}

/// Every LED that the number map yields is 4 or 12, and can be tested.
pub proof fn lemma_number_leds_are_numbers(inputs: Seq<usize>)
    ensures
        forall|i: int|
            0 <= i < number_leds_spec(inputs).len() ==> {
                let led = #[trigger] number_leds_spec(inputs)[i];
                (led == INPUT_1_LED || led == INPUT_2_LED) && can_test_spec(led)
            },
    decreases inputs.len(),
{
    if inputs.len() > 0 {
        let d = inputs.drop_last();
        lemma_number_leds_are_numbers(d);
        let f = |input: usize| number_led(input);
        assert(number_leds_spec(inputs) == match f(inputs.last()) {
            Some(led) => number_leds_spec(d) + seq![led],
            None => number_leds_spec(d),
        });
        assert forall|i: int| 0 <= i < number_leds_spec(inputs).len() implies {
            let led = #[trigger] number_leds_spec(inputs)[i];
            (led == INPUT_1_LED || led == INPUT_2_LED) && can_test_spec(led)
        } by {
            if i < number_leds_spec(d).len() {
                assert(number_leds_spec(inputs)[i] == number_leds_spec(d)[i]);
            }
        }
    }
}

} // verus!
