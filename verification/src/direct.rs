//! Scarlett Solo Direct Monitor control and notification decoding.
use vstd::prelude::*;
use crate::device::{
    extends, le_bytes, le_u32, lemma_extends_push, lemma_ok_prefix_done, lemma_ok_prefix_step,
    run_result, runs, since, transfer_of, Command, DeviceError, Result, ScarlettDevice, Transfer,
};
use crate::text::{eq_ignore_ascii_case, eq_ignore_ascii_case_spec};

verus! {

/// Notification flag raised when Direct Monitor changes on a Solo.
pub const SOLO_DIRECT_NOTIFY_MASK: u32 = 0x0080_0000;

/// Notification flag raised by the Solo's video-call event.
pub const SOLO_VIDEO_CALL_NOTIFY_MASK: u32 = 0x0400_0000;

/// `model` names a Scarlett Solo 4th Gen, compared without ASCII case.
pub open spec fn is_solo_model(model: Seq<char>) -> bool {
    eq_ignore_ascii_case_spec(model, "Scarlett Solo 4th Gen"@)
}

/// The device reports itself as a Scarlett Solo 4th Gen.
pub open spec fn device_is_solo<D: ScarlettDevice>(device: &D) -> bool {
    is_solo_model(device.info_spec().model_spec())
}

/// Whether the device is a Scarlett Solo 4th Gen.
pub fn is_solo(device: &impl ScarlettDevice) -> (r: bool)
    ensures
        r == device_is_solo(device),
{
    let model = device.info().model();
    eq_ignore_ascii_case(model.as_str(), "Scarlett Solo 4th Gen")
}

/// The event flags of a SwRoot notification packet: bytes 4..8 read as a
/// little-endian number, or nothing when the packet is shorter than 8 bytes.
pub open spec fn notification_mask_spec(packet: Seq<u8>) -> Option<u32> {
    if packet.len() >= 8 {
        Some(le_u32(packet.subrange(4, 8)))
    } else {
        None
    }
}

/// Decode the SwRoot notification packet. Firmware event flags occupy bytes
/// 4..8 in little-endian order.
pub fn notification_mask(packet: &[u8]) -> (r: Option<u32>)
    ensures
        r == notification_mask_spec(packet@),
{
    if packet.len() < 8 {
        return None;
    }
    let b0 = packet[4] as u32;
    let b1 = packet[5] as u32;
    let b2 = packet[6] as u32;
    let b3 = packet[7] as u32;
    let value = b0 + b1 * 0x100 + b2 * 0x1_0000 + b3 * 0x100_0000;
    assert(packet@.subrange(4, 8)[0] == packet@[4]);
    assert(packet@.subrange(4, 8)[1] == packet@[5]);
    assert(packet@.subrange(4, 8)[2] == packet@[6]);
    assert(packet@.subrange(4, 8)[3] == packet@[7]);
    Some(value)
}

/// Decoding the little-endian bytes of a number gives the number back.
pub proof fn lemma_le_u32_of_le_bytes(x: u32)
    ensures
        le_bytes(x).len() == 4,
        le_u32(le_bytes(x)) == x,
{
    let b = le_bytes(x);
    assert(b[0] == x % 0x100);
    assert(b[1] == (x / 0x100) % 0x100);
    assert(b[2] == (x / 0x1_0000) % 0x100);
    assert(x / 0x100_0000 < 0x100) by (nonlinear_arith)
        requires
            x <= 0xffff_ffff,
    ;
    assert(b[3] == x / 0x100_0000);
    assert(x == x % 0x100 + ((x / 0x100) % 0x100) * 0x100 + ((x / 0x1_0000) % 0x100) * 0x1_0000
        + (x / 0x100_0000) * 0x100_0000) by (nonlinear_arith);
}

/// A packet whose bytes 4..8 are the little-endian bytes of `x` decodes to
/// `x`, whatever its other bytes are.
pub proof fn lemma_notification_mask_round_trip(packet: Seq<u8>, x: u32)
    requires
        packet.len() >= 8,
        packet.subrange(4, 8) == le_bytes(x),
    ensures
        notification_mask_spec(packet) == Some(x),
{
    lemma_le_u32_of_le_bytes(x);
}

/// The Direct Monitor state that the one-byte descriptor at 264 holds:
/// on when its first byte is not zero; an empty reply counts as off.
pub open spec fn direct_flag(reply: Seq<u8>) -> bool {
    reply.len() > 0 && reply[0] != 0
}

/// Reads the Direct Monitor state from a reply of the descriptor at 264.
pub fn direct_flag_of(reply: &[u8]) -> (on: bool)
    ensures
        on == direct_flag(reply@),
{
    reply.len() > 0 && reply[0] != 0
}

/// Whether Direct Monitor is on: one read of the descriptor at 264.
pub fn solo_direct_enabled(device: &mut impl ScarlettDevice) -> (r: Result<bool>)
    ensures
        final(device).info_spec() == old(device).info_spec(),
        final(device).history().drop_last() == old(device).history(),
        final(device).history().len() == old(device).history().len() + 1,
        final(device).history().last() matches Transfer::Read { offset, len, reply } && offset
            == 264 && len == 1 && match r {
            Ok(on) => reply matches Ok(bytes) && on == direct_flag(bytes),
            Err(e) => reply == Err::<Seq<u8>, DeviceError>(e),
        },
{
    let reply = device.get_descriptor(264, 1);
    assert(final(device).history().drop_last() == old(device).history());
    match reply {
        Ok(bytes) => Ok(direct_flag_of(bytes.as_slice())),
        Err(e) => Err(e),
    }
}

/// The commands that set Direct Monitor on a Solo through its parameter
/// buffer: 217 = 0, 216 = 0 or 1, then DATA_NOTIFY(12).
pub open spec fn direct_plan(enabled: bool) -> Seq<Command> {
    seq![
        Command::Write { offset: 217, data: seq![0u8] },
        Command::Write { offset: 216, data: seq![if enabled { 1u8 } else { 0u8 }] },
        Command::Notify { event: 12 },
    ]
}

/// Set Solo Direct Monitor through its parameter buffer. The scalar at 264 is
/// readable, but direct writes to it are ignored by the Solo firmware.
/// On any other model nothing is sent.
pub fn set_solo_direct_enabled(device: &mut impl ScarlettDevice, enabled: bool) -> (r: Result<()>)
    ensures
        final(device).info_spec() == old(device).info_spec(),
        extends(old(device).history(), final(device).history()),
        !device_is_solo(old(device)) ==> r is Ok && final(device).history() == old(
            device,
        ).history(),
        device_is_solo(old(device)) ==> runs(
            direct_plan(enabled),
            since(old(device).history(), final(device).history()),
        ),
        device_is_solo(old(device)) ==> r == run_result(
            since(old(device).history(), final(device).history()),
        ),
{
    let ghost h0 = device.history();
    proof {
        crate::device::lemma_extends_refl(h0);
    }
    if !is_solo(device) {
        return Ok(());
    }
    let ghost plan = direct_plan(enabled);
    let zero: [u8; 1] = [0];
    assert(zero@ =~= seq![0u8]);
    let r1 = device.set_descriptor(217, &zero);
    proof {
        lemma_extends_push(h0, h0, device.history().last());
        assert(device.history() == h0.push(device.history().last()));
        assert(since(h0, h0) =~= Seq::<Transfer>::empty());
        assert(since(h0, device.history()) =~= Seq::<Transfer>::empty().push(
            transfer_of(plan[0], r1),
        ));
        lemma_ok_prefix_step(plan, Seq::empty(), r1);
    }
    if let Err(e) = r1 {
        return Err(e);
    }
    let ghost h1 = device.history();
    let ghost l1 = since(h0, h1);
    let flag: [u8; 1] = [if enabled {
        1
    } else {
        0
    }];
    assert(flag@ =~= seq![if enabled { 1u8 } else { 0u8 }]);
    let r2 = device.set_descriptor(216, &flag);
    proof {
        lemma_extends_push(h0, h1, device.history().last());
        assert(since(h0, device.history()) =~= l1.push(transfer_of(plan[1], r2)));
        lemma_ok_prefix_step(plan, l1, r2);
    }
    if let Err(e) = r2 {
        return Err(e);
    }
    let ghost h2 = device.history();
    let ghost l2 = since(h0, h2);
    let r3 = device.data_notify(12);
    proof {
        lemma_extends_push(h0, h2, device.history().last());
        assert(since(h0, device.history()) =~= l2.push(transfer_of(plan[2], r3)));
        lemma_ok_prefix_step(plan, l2, r3);
        if r3 is Ok {
            lemma_ok_prefix_done(plan, since(h0, device.history()));
        }
    }
    r3
}


/// Setting Direct Monitor goes through the parameter buffer only: it writes
/// 217 and 216 and notifies 12, and never writes the readable scalar at 264.
pub proof fn lemma_direct_plan_uses_parameter_buffer(enabled: bool)
    ensures
        forall|i: int|
            0 <= i < direct_plan(enabled).len() ==> match #[trigger] direct_plan(enabled)[i] {
                Command::Write { offset, .. } => offset == 217 || offset == 216,
                Command::Notify { event } => event == 12,
            },
{
}

/// The switch byte that setting Direct Monitor writes to 216 reads back, as
/// the Direct Monitor state, as the state asked for: 1 for on, 0 for off.
pub proof fn lemma_direct_switch_reads_back(enabled: bool)
    ensures
        direct_plan(enabled)[1] matches Command::Write { offset, data } && offset == 216
            && data.len() == 1 && direct_flag(data) == enabled,
{
}

} // verus!
