//! LED control: the single-LED command, and the Solo's LED map.
use vstd::prelude::*;
use crate::device::{
    run_result, extends, le_bytes, lemma_extends_push, lemma_extends_refl, lemma_ok_prefix_done,
    lemma_ok_prefix_step, runs, since, transfer_of, Command, Result, ScarlettDevice, Transfer,
};

pub mod solo;

verus! {

/// Descriptor that takes the colour of the single-LED command.
pub const DIRECT_LED_COLOUR: u32 = 80;

/// Descriptor that takes the LED index of the single-LED command.
pub const DIRECT_LED_INDEX: u32 = 84;

/// DATA_NOTIFY event that applies the single-LED command.
pub const NOTIFY_SINGLE_LED: u32 = 8;

/// The commands that light one LED: its colour (little-endian) to 80, its
/// index to 84, then DATA_NOTIFY(8).
pub open spec fn single_led_plan(index: u8, color: u32) -> Seq<Command> {
    seq![
        Command::Write { offset: 80, data: le_bytes(color) },
        Command::Write { offset: 84, data: seq![index] },
        Command::Notify { event: 8 },
    ]
}

/// Lights the LED `index` in `color` with the single-LED command.
pub fn set_single_led(device: &mut impl ScarlettDevice, index: u8, color: u32) -> (r: Result<()>)
    ensures
        final(device).info_spec() == old(device).info_spec(),
        extends(old(device).history(), final(device).history()),
        runs(single_led_plan(index, color), since(old(device).history(), final(device).history())),
        r == run_result(since(old(device).history(), final(device).history())),
{
    let ghost h0 = device.history();
    let ghost plan = single_led_plan(index, color);
    proof {
        lemma_extends_refl(h0);
        assert(since(h0, h0) =~= Seq::<Transfer>::empty());
    }
    let bytes: [u8; 4] = [
        (color % 0x100) as u8,
        ((color / 0x100) % 0x100) as u8,
        ((color / 0x1_0000) % 0x100) as u8,
        (color / 0x100_0000) as u8,
    ];
    assert(bytes@ =~= le_bytes(color));
    let r1 = device.set_descriptor(DIRECT_LED_COLOUR, &bytes);
    proof {
        lemma_extends_push(h0, h0, device.history().last());
        assert(device.history() == h0.push(device.history().last()));
        assert(since(h0, device.history()) =~= Seq::<Transfer>::empty().push(
            transfer_of(plan[0], r1),
        ));
        lemma_ok_prefix_step(plan, Seq::empty(), r1);
    }
    if let Err(e) = r1 {
        return Err(e);
    }
    let ghost h1 = device.history();
    let ghost l1 = since(h0, h1);
    let idx: [u8; 1] = [index];
    assert(idx@ =~= seq![index]);
    let r2 = device.set_descriptor(DIRECT_LED_INDEX, &idx);
    proof {
        lemma_extends_push(h0, h1, device.history().last());
        assert(since(h0, device.history()) =~= l1.push(transfer_of(plan[1], r2)));
        lemma_ok_prefix_step(plan, l1, r2);
    }
    if let Err(e) = r2 {
        return Err(e);
    }
    let ghost h2 = device.history();
    let ghost l2 = since(h0, h2);
    let r3 = device.data_notify(NOTIFY_SINGLE_LED);
    proof {
        lemma_extends_push(h0, h2, device.history().last());
        assert(since(h0, device.history()) =~= l2.push(transfer_of(plan[2], r3)));
        lemma_ok_prefix_step(plan, l2, r3);
        if r3 is Ok {
            lemma_ok_prefix_done(plan, since(h0, device.history()));
        }
    }
    r3
}

} // verus!
