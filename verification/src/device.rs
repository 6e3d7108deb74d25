//! The device interface: descriptor reads and writes and DATA_NOTIFY events,
//! each recorded in the device's history, and a recording device that keeps
//! what was written.
use vstd::prelude::*;
use vstd::string::StringExecFns;
use crate::text::{chars_of, string_from_chars};

verus! {

/// Errors reported by a device or refused by the library.
#[derive(Debug)]
pub enum DeviceError {
    /// The operation needs another model; carries the model that was found.
    UnsupportedDevice(String),
    /// The command could not be carried out; carries the reason.
    TransactFailed(String),
}

/// The text of an error, as shown to the user.
pub open spec fn device_error_text(e: DeviceError) -> Seq<char> {
    match e {
        DeviceError::UnsupportedDevice(model) => "Unsupported device: "@ + model@,
        DeviceError::TransactFailed(reason) => "Transaction failed: "@ + reason@,
    }
}

impl DeviceError {
    /// The text of the error, as shown to the user.
    pub fn message(&self) -> (text: String)
        ensures
            text@ == device_error_text(*self),
    {
        match self {
            DeviceError::UnsupportedDevice(model) => {
                let mut text = String::from_str("Unsupported device: ");
                text.append(model.as_str());
                text
            },
            DeviceError::TransactFailed(reason) => {
                let mut text = String::from_str("Transaction failed: ");
                text.append(reason.as_str());
                text
            },
        }
    }
}

/// Result of a device operation.
pub type Result<T> = core::result::Result<T, DeviceError>;

/// One exchange with the device, as the host saw it, with its outcome.
pub enum Transfer {
    /// A descriptor read and the bytes or the error it gave.
    Read { offset: u32, len: u32, reply: Result<Seq<u8>> },
    /// A descriptor write and the device's answer.
    Write { offset: u32, data: Seq<u8>, outcome: Result<()> },
    /// A DATA_NOTIFY event and the device's answer.
    Notify { event: u32, outcome: Result<()> },
}

/// A command that changes the device.
pub enum Command {
    Write { offset: u32, data: Seq<u8> },
    Notify { event: u32 },
}

/// The outcome of a transfer, without the bytes a read gave.
pub open spec fn outcome_of(t: Transfer) -> Result<()> {
    match t {
        Transfer::Read { reply, .. } => match reply {
            Ok(_) => Ok(()),
            Err(e) => Err(e),
        },
        Transfer::Write { outcome, .. } => outcome,
        Transfer::Notify { outcome, .. } => outcome,
    }
}

/// The transfer succeeded.
pub open spec fn transfer_ok(t: Transfer) -> bool {
    outcome_of(t) is Ok
}

/// The transfer that sending `c` records, with its outcome.
pub open spec fn transfer_of(c: Command, outcome: Result<()>) -> Transfer {
    match c {
        Command::Write { offset, data } => Transfer::Write { offset, data, outcome },
        Command::Notify { event } => Transfer::Notify { event, outcome },
    }
}

/// `log` is what sending the commands of `plan` in order records, when
/// sending stops right after the first command that fails.
pub open spec fn runs(plan: Seq<Command>, log: Seq<Transfer>) -> bool {
    &&& log.len() <= plan.len()
    &&& forall|i: int|
        0 <= i < log.len() ==> #[trigger] log[i] == transfer_of(plan[i], outcome_of(log[i]))
    &&& forall|i: int| 0 <= i < log.len() - 1 ==> transfer_ok(#[trigger] log[i])
    &&& log.len() < plan.len() ==> log.len() > 0 && !transfer_ok(log.last())
}

/// Every transfer of `log` succeeded.
pub open spec fn all_ok(log: Seq<Transfer>) -> bool {
    forall|i: int| 0 <= i < log.len() ==> transfer_ok(#[trigger] log[i])
}

/// What a run that recorded `log` returns: the outcome of its last
/// transfer, which is the first failure if there is one.
pub open spec fn run_result(log: Seq<Transfer>) -> Result<()> {
    if log.len() == 0 {
        Ok(())
    } else {
        outcome_of(log.last())
    }
}

/// `after` is `before` followed by more transfers.
pub open spec fn extends(before: Seq<Transfer>, after: Seq<Transfer>) -> bool {
    before.len() <= after.len() && after.take(before.len() as int) == before
}

/// A history extends itself.
pub proof fn lemma_extends_refl(h: Seq<Transfer>)
    ensures
        extends(h, h),
{
    assert(h.take(h.len() as int) =~= h);
}

/// Recording one more transfer keeps extending the earlier history.
pub proof fn lemma_extends_push(before: Seq<Transfer>, after: Seq<Transfer>, t: Transfer)
    requires
        extends(before, after),
    ensures
        extends(before, after.push(t)),
        since(before, after.push(t)) == since(before, after).push(t),
{
    assert(after.push(t).take(before.len() as int) =~= after.take(before.len() as int));
    assert(since(before, after.push(t)) =~= since(before, after).push(t));
}

/// The transfers recorded after `before`.
pub open spec fn since(before: Seq<Transfer>, after: Seq<Transfer>) -> Seq<Transfer> {
    after.skip(before.len() as int)
}

/// A successful outcome carries nothing.
pub proof fn lemma_ok_unit(r: Result<()>)
    requires
        r is Ok,
    ensures
        r == Ok::<(), DeviceError>(()),
{
    match r {
        Ok(u) => {
            assert(u == ());
        },
        Err(_) => {},
    }
}

/// A run succeeds exactly when every transfer it recorded succeeded, and
/// then it sent the whole plan.
pub proof fn lemma_runs_result(plan: Seq<Command>, log: Seq<Transfer>)
    requires
        runs(plan, log),
    ensures
        all_ok(log) <==> run_result(log) is Ok,
        all_ok(log) ==> log.len() == plan.len(),
{
    if log.len() > 0 && !all_ok(log) {
        let j = choose|j: int| 0 <= j < log.len() && !transfer_ok(#[trigger] log[j]);
        assert(j == log.len() - 1);
    }
}

/// Running `p1` to its end and then `p2` is running `p1 + p2`.
pub proof fn lemma_runs_concat(p1: Seq<Command>, l1: Seq<Transfer>, p2: Seq<Command>, l2: Seq<Transfer>)
    requires
        runs(p1, l1),
        all_ok(l1),
        runs(p2, l2),
    ensures
        runs(p1 + p2, l1 + l2),
        all_ok(l1 + l2) == all_ok(l2),
        run_result(l1 + l2) == run_result(l2),
{
    lemma_runs_result(p1, l1);
    lemma_runs_result(p2, l2);
    let p = p1 + p2;
    let l = l1 + l2;
    assert forall|i: int| 0 <= i < l.len() implies #[trigger] l[i] == transfer_of(
        p[i],
        outcome_of(l[i]),
    ) by {
        if i >= l1.len() {
            assert(l[i] == l2[i - l1.len()]);
            assert(p[i] == p2[i - p1.len()]);
        }
    }
    assert forall|i: int| 0 <= i < l.len() - 1 implies transfer_ok(#[trigger] l[i]) by {
        if i >= l1.len() {
            assert(l[i] == l2[i - l1.len()]);
        }
    }
    if all_ok(l2) {
        assert forall|i: int| 0 <= i < l.len() implies transfer_ok(#[trigger] l[i]) by {
            if i >= l1.len() {
                assert(l[i] == l2[i - l1.len()]);
            }
        }
    }
    if !all_ok(l2) {
        let j = choose|j: int| 0 <= j < l2.len() && !transfer_ok(#[trigger] l2[j]);
        assert(l[l1.len() + j] == l2[j]);
    }
    if l2.len() > 0 {
        assert(l.last() == l2.last());
    } else {
        assert(l =~= l1);
        if l1.len() > 0 {
            assert(transfer_ok(l1[l1.len() - 1]));
            lemma_ok_unit(outcome_of(l1.last()));
        }
    }
}

/// A run that failed stays as it is when more commands were planned after it.
pub proof fn lemma_runs_failed_prefix(p1: Seq<Command>, l1: Seq<Transfer>, p2: Seq<Command>)
    requires
        runs(p1, l1),
        !all_ok(l1),
    ensures
        runs(p1 + p2, l1),
{
    let p = p1 + p2;
    assert forall|i: int| 0 <= i < l1.len() implies #[trigger] l1[i] == transfer_of(
        p[i],
        outcome_of(l1[i]),
    ) by {
        assert(p[i] == p1[i]);
    }
    lemma_runs_result(p1, l1);
}

/// Running the empty plan records nothing.
pub proof fn lemma_runs_empty()
    ensures
        runs(Seq::empty(), Seq::empty()),
        all_ok(Seq::<Transfer>::empty()),
        run_result(Seq::<Transfer>::empty()) == Ok::<(), DeviceError>(()),
{
}

/// Every transfer of `log` matches the start of `plan` and succeeded.
pub open spec fn ok_prefix(plan: Seq<Command>, log: Seq<Transfer>) -> bool {
    &&& log.len() <= plan.len()
    &&& forall|i: int| 0 <= i < log.len() ==> #[trigger] log[i] == transfer_of(plan[i], Ok(()))
}

/// Sending the next command of `plan` after a successful prefix: the prefix
/// grows on success, and the run ends with that outcome on failure.
pub proof fn lemma_ok_prefix_step(plan: Seq<Command>, log: Seq<Transfer>, outcome: Result<()>)
    requires
        ok_prefix(plan, log),
        log.len() < plan.len(),
    ensures
        outcome is Ok ==> ok_prefix(plan, log.push(transfer_of(plan[log.len() as int], outcome))),
        outcome is Err ==> runs(plan, log.push(transfer_of(plan[log.len() as int], outcome))),
        outcome is Err ==> run_result(log.push(transfer_of(plan[log.len() as int], outcome)))
            == outcome,
{
    let t = transfer_of(plan[log.len() as int], outcome);
    let l = log.push(t);
    assert(l[log.len() as int] == t);
    assert(outcome_of(t) == outcome);
    if outcome is Ok {
        lemma_ok_unit(outcome);
    }
    assert forall|i: int| 0 <= i < log.len() implies transfer_ok(#[trigger] log[i]) by {
        assert(outcome_of(log[i]) == Ok::<(), DeviceError>(()));
    }
    if outcome is Err {
        assert forall|i: int| 0 <= i < l.len() implies #[trigger] l[i] == transfer_of(
            plan[i],
            outcome_of(l[i]),
        ) by {
            if i < log.len() {
                assert(l[i] == log[i]);
                assert(outcome_of(log[i]) == Ok::<(), DeviceError>(()));
            }
        }
        assert forall|i: int| 0 <= i < l.len() - 1 implies transfer_ok(#[trigger] l[i]) by {
            assert(l[i] == log[i]);
        }
    }
}

/// A successful prefix as long as the plan is a complete, successful run.
pub proof fn lemma_ok_prefix_done(plan: Seq<Command>, log: Seq<Transfer>)
    requires
        ok_prefix(plan, log),
        log.len() == plan.len(),
    ensures
        runs(plan, log),
        all_ok(log),
        run_result(log) == Ok::<(), DeviceError>(()),
{
    assert forall|i: int| 0 <= i < log.len() implies #[trigger] log[i] == transfer_of(
        plan[i],
        outcome_of(log[i]),
    ) by {
        assert(outcome_of(log[i]) == Ok::<(), DeviceError>(()));
    }
    assert forall|i: int| 0 <= i < log.len() implies transfer_ok(#[trigger] log[i]) by {
        assert(outcome_of(log[i]) == Ok::<(), DeviceError>(()));
    }
    if log.len() > 0 {
        assert(outcome_of(log[log.len() - 1]) == Ok::<(), DeviceError>(()));
    }
}

/// The transfers recorded between `a` and `c` are those up to `b` and
/// those after it.
pub proof fn lemma_since_concat(a: Seq<Transfer>, b: Seq<Transfer>, c: Seq<Transfer>)
    requires
        extends(a, b),
        extends(b, c),
    ensures
        extends(a, c),
        since(a, c) == since(a, b) + since(b, c),
{
    assert(c.take(a.len() as int) =~= b.take(a.len() as int));
    assert(since(a, c) =~= since(a, b) + since(b, c));
}

/// The 32-bit number whose little-endian bytes are `b[0..4]`.
pub open spec fn le_u32(b: Seq<u8>) -> u32
    recommends
        b.len() == 4,
{
    (b[0] + b[1] * 0x100 + b[2] * 0x1_0000 + b[3] * 0x100_0000) as u32
}

/// The little-endian bytes of `x`.
pub open spec fn le_bytes(x: u32) -> Seq<u8> {
    seq![
        (x % 0x100) as u8,
        ((x / 0x100) % 0x100) as u8,
        ((x / 0x1_0000) % 0x100) as u8,
        (x / 0x100_0000) as u8,
    ]
}

/// The model part of a device name: the characters before its first `-`.
pub open spec fn model_of(name: Seq<char>) -> Seq<char>
    decreases name.len(),
{
    if name.len() == 0 || name[0] == '-' {
        Seq::empty()
    } else {
        seq![name[0]] + model_of(name.drop_first())
    }
}

proof fn lemma_model_of(name: Seq<char>, i: int)
    requires
        0 <= i <= name.len(),
        forall|j: int| 0 <= j < i ==> #[trigger] name[j] != '-',
        i == name.len() || name[i] == '-',
    ensures
        model_of(name) == name.take(i),
    decreases i,
{
    if i == 0 {
        assert(name.take(0) =~= Seq::<char>::empty());
    } else {
        let t = name.drop_first();
        assert forall|j: int| 0 <= j < i - 1 implies #[trigger] t[j] != '-' by {
            assert(t[j] == name[j + 1]);
        }
        if i < name.len() {
            assert(t[i - 1] == name[i]);
        }
        assert(name[0] != '-');
        lemma_model_of(t, i - 1);
        assert(seq![name[0]] + t.take(i - 1) =~= name.take(i));
    }
}

/// What a device reports about itself.
pub struct DeviceInfo {
    /// The name the driver reports, such as `Scarlett Solo 4th Gen-1234`.
    pub device_name: String,
}

impl DeviceInfo {
    /// The model: the device name up to its first `-`.
    pub open spec fn model_spec(&self) -> Seq<char> {
        model_of(self.device_name@)
    }

    /// The model: the device name up to its first `-`.
    pub fn model(&self) -> (m: String)
        ensures
            m@ == self.model_spec(),
    {
        let v = chars_of(self.device_name.as_str());
        let mut i: usize = 0;
        while i < v.len() && v[i] != '-'
            invariant
                v@ == self.device_name@,
                i <= v.len(),
                forall|j: int| 0 <= j < i ==> #[trigger] v@[j] != '-',
            decreases v.len() - i,
        {
            i = i + 1;
        }
        proof {
            lemma_model_of(v@, i as int);
        }
        assert(v@.subrange(0, i as int) =~= v@.take(i as int));
        string_from_chars(&v, 0, i)
    }
}

/// A Focusrite Scarlett interface that takes descriptor reads, descriptor
/// writes and DATA_NOTIFY events. Every operation is recorded, with its
/// outcome, at the end of `history`; none changes what the device reports
/// about itself.
pub trait ScarlettDevice {
    /// What the device reports about itself.
    spec fn info_spec(&self) -> DeviceInfo;

    /// Every operation sent to the device so far, oldest first.
    spec fn history(&self) -> Seq<Transfer>;

    /// What the device reports about itself.
    fn info(&self) -> (i: &DeviceInfo)
        ensures
            *i == self.info_spec(),
    ;

    /// Reads `len` bytes of the descriptor at `offset`.
    fn get_descriptor(&mut self, offset: u32, len: u32) -> (r: Result<Vec<u8>>)
        ensures
            final(self).info_spec() == old(self).info_spec(),
            final(self).history() == old(self).history().push(
                Transfer::Read {
                    offset,
                    len,
                    reply: match r {
                        Ok(v) => Ok(v@),
                        Err(e) => Err(e),
                    },
                },
            ),
    ;

    /// Writes `data` to the descriptor at `offset`.
    fn set_descriptor(&mut self, offset: u32, data: &[u8]) -> (r: Result<()>)
        ensures
            final(self).info_spec() == old(self).info_spec(),
            final(self).history() == old(self).history().push(
                Transfer::Write { offset, data: data@, outcome: r },
            ),
    ;

    /// Sends the DATA_NOTIFY event `event`.
    fn data_notify(&mut self, event: u32) -> (r: Result<()>)
        ensures
            final(self).info_spec() == old(self).info_spec(),
            final(self).history() == old(self).history().push(
                Transfer::Notify { event, outcome: r },
            ),
    ;
}

/// The latest value written to `offset` in `writes`, if any.
pub open spec fn last_write(writes: Seq<(u32, Seq<u8>)>, offset: u32) -> Option<Seq<u8>>
    decreases writes.len(),
{
    if writes.len() == 0 {
        None
    } else if writes.last().0 == offset {
        Some(writes.last().1)
    } else {
        last_write(writes.drop_last(), offset)
    }
}

/// How many different offsets `writes` wrote to.
pub open spec fn distinct_offsets(writes: Seq<(u32, Seq<u8>)>) -> nat
    decreases writes.len(),
{
    if writes.len() == 0 {
        0
    } else if last_write(writes.drop_last(), writes.last().0) is Some {
        distinct_offsets(writes.drop_last())
    } else {
        distinct_offsets(writes.drop_last()) + 1
    }
}

/// The descriptor writes that `history` records as accepted, oldest first.
pub open spec fn writes_of(history: Seq<Transfer>) -> Seq<(u32, Seq<u8>)>
    decreases history.len(),
{
    if history.len() == 0 {
        Seq::empty()
    } else {
        let rest = writes_of(history.drop_last());
        match history.last() {
            Transfer::Write { offset, data, outcome } => if outcome is Ok {
                rest.push((offset, data))
            } else {
                rest
            },
            _ => rest,
        }
    }
}

/// The DATA_NOTIFY events that `history` records as accepted, oldest first.
pub open spec fn notifies_of(history: Seq<Transfer>) -> Seq<u32>
    decreases history.len(),
{
    if history.len() == 0 {
        Seq::empty()
    } else {
        let rest = notifies_of(history.drop_last());
        match history.last() {
            Transfer::Notify { event, outcome } => if outcome is Ok {
                rest.push(event)
            } else {
                rest
            },
            _ => rest,
        }
    }
}

/// The descriptor writes of `plan`, in order.
pub open spec fn plan_writes(plan: Seq<Command>) -> Seq<(u32, Seq<u8>)>
    decreases plan.len(),
{
    if plan.len() == 0 {
        Seq::empty()
    } else {
        let rest = plan_writes(plan.drop_last());
        match plan.last() {
            Command::Write { offset, data } => rest.push((offset, data)),
            _ => rest,
        }
    }
}

/// The DATA_NOTIFY events of `plan`, in order.
pub open spec fn plan_notifies(plan: Seq<Command>) -> Seq<u32>
    decreases plan.len(),
{
    if plan.len() == 0 {
        Seq::empty()
    } else {
        let rest = plan_notifies(plan.drop_last());
        match plan.last() {
            Command::Notify { event } => rest.push(event),
            _ => rest,
        }
    }
}

proof fn lemma_writes_notifies_concat(a: Seq<Transfer>, b: Seq<Transfer>)
    ensures
        writes_of(a + b) == writes_of(a) + writes_of(b),
        notifies_of(a + b) == notifies_of(a) + notifies_of(b),
    decreases b.len(),
{
    if b.len() == 0 {
        assert(a + b =~= a);
        assert(writes_of(a) + writes_of(b) =~= writes_of(a));
        assert(notifies_of(a) + notifies_of(b) =~= notifies_of(a));
    } else {
        lemma_writes_notifies_concat(a, b.drop_last());
        assert((a + b).drop_last() =~= a + b.drop_last());
        assert((a + b).last() == b.last());
        assert(writes_of(a) + writes_of(b.drop_last()).push((0u32, Seq::<u8>::empty()))
            =~= (writes_of(a) + writes_of(b.drop_last())).push((0u32, Seq::<u8>::empty())));
        match b.last() {
            Transfer::Write { offset, data, outcome } => {
                assert(writes_of(a) + writes_of(b.drop_last()).push((offset, data)) =~= (writes_of(
                    a,
                ) + writes_of(b.drop_last())).push((offset, data)));
            },
            Transfer::Notify { event, outcome } => {
                assert(notifies_of(a) + notifies_of(b.drop_last()).push(event) =~= (notifies_of(a)
                    + notifies_of(b.drop_last())).push(event));
            },
            _ => {},
        }
    }
}

proof fn lemma_writes_notifies_of_run(plan: Seq<Command>, log: Seq<Transfer>)
    requires
        log.len() == plan.len(),
        forall|i: int| 0 <= i < log.len() ==> #[trigger] log[i] == transfer_of(plan[i], Ok(())),
    ensures
        writes_of(log) == plan_writes(plan),
        notifies_of(log) == plan_notifies(plan),
    decreases log.len(),
{
    if log.len() > 0 {
        let l = log.drop_last();
        let p = plan.drop_last();
        assert forall|i: int| 0 <= i < l.len() implies #[trigger] l[i] == transfer_of(p[i], Ok(())) by {
            assert(l[i] == log[i]);
            assert(p[i] == plan[i]);
        }
        lemma_writes_notifies_of_run(p, l);
        assert(log.last() == transfer_of(plan.last(), Ok(())));
    }
}

/// On a device that accepts every command, running a plan sends all of it
/// and succeeds: the accepted writes grow by the plan's writes and the
/// accepted notifies by its notifies.
pub proof fn lemma_accepting_run(plan: Seq<Command>, before: Seq<Transfer>, after: Seq<Transfer>)
    requires
        extends(before, after),
        all_ok(after),
        runs(plan, since(before, after)),
    ensures
        since(before, after).len() == plan.len(),
        run_result(since(before, after)) == Ok::<(), DeviceError>(()),
        writes_of(after) == writes_of(before) + plan_writes(plan),
        notifies_of(after) == notifies_of(before) + plan_notifies(plan),
{
    let log = since(before, after);
    assert forall|i: int| 0 <= i < log.len() implies transfer_ok(#[trigger] log[i]) by {
        assert(log[i] == after[before.len() + i]);
    }
    lemma_runs_result(plan, log);
    if log.len() > 0 {
        lemma_ok_unit(outcome_of(log.last()));
    }
    assert forall|i: int| 0 <= i < log.len() implies #[trigger] log[i] == transfer_of(
        plan[i],
        Ok(()),
    ) by {
        lemma_ok_unit(outcome_of(log[i]));
    }
    lemma_writes_notifies_of_run(plan, log);
    assert(after =~= before + log);
    lemma_writes_notifies_concat(before, log);
}

/// What a recording device has received.
struct MockState {
    writes: Vec<(u32, Vec<u8>)>,
    notifies: Vec<u32>,
    log: Ghost<Seq<Transfer>>,
}

impl MockState {
    fn empty() -> (s: MockState)
        ensures
            s.writes@.len() == 0,
            s.notifies@.len() == 0,
            s.log@.len() == 0,
    {
        MockState { writes: Vec::new(), notifies: Vec::new(), log: Ghost(Seq::empty()) }
    }
}

/// A device that accepts every command and remembers what it was sent:
/// each descriptor write and each DATA_NOTIFY event, in order. A read
/// returns the latest value written to that offset, or `len` zero bytes.
/// Its invariant: every transfer in its history succeeded, and the writes
/// and notifies it keeps are exactly those its history records.
pub struct MockDevice {
    info: DeviceInfo,
    state: MockState,
}

impl MockDevice {
    /// The descriptor writes received, oldest first.
    pub closed spec fn written(&self) -> Seq<(u32, Seq<u8>)> {
        self.state.writes@.map_values(|w: (u32, Vec<u8>)| (w.0, w.1@))
    }

    /// The DATA_NOTIFY events received, oldest first.
    pub closed spec fn notified(&self) -> Seq<u32> {
        self.state.notifies@
    }

    /// The device accepted every command it was sent, and keeps exactly the
    /// writes and notifies that its history records.
    #[verifier::type_invariant]
    pub open spec fn accepts_all(&self) -> bool {
        &&& all_ok(self.history())
        &&& self.written() =~= writes_of(self.history())
        &&& self.notified() =~= notifies_of(self.history())
    }

    /// A fresh device that reports itself as a Scarlett 2i2 4th Gen.
    pub fn new() -> (d: MockDevice)
        ensures
            d.info_spec().device_name@ == "Scarlett 2i2 4th Gen-TEST"@,
            d.history() == Seq::<Transfer>::empty(),
            d.written() == Seq::<(u32, Seq<u8>)>::empty(),
            d.notified() == Seq::<u32>::empty(),
    {
        let st = MockState::empty();
        let ghost w = st.writes@.map_values(|w: (u32, Vec<u8>)| (w.0, w.1@));
        assert(w =~= Seq::<(u32, Seq<u8>)>::empty());
        assert(st.notifies@ =~= Seq::<u32>::empty());
        MockDevice {
            info: DeviceInfo { device_name: String::from_str("Scarlett 2i2 4th Gen-TEST") },
            state: st,
        }
    }

    /// Changes the name the device reports.
    pub fn set_device_name(&mut self, name: &str)
        ensures
            final(self).info_spec().device_name@ == name@,
            final(self).history() == old(self).history(),
            final(self).written() == old(self).written(),
            final(self).notified() == old(self).notified(),
    {
        proof {
            use_type_invariant(&*self);
        }
        self.info = DeviceInfo { device_name: String::from_str(name) };
    }

    /// The latest value written to the descriptor at `offset`, if any.
    pub fn descriptor(&self, offset: u32) -> (r: Option<Vec<u8>>)
        ensures
            r matches Some(v) ==> last_write(self.written(), offset) == Some(v@),
            r is None ==> last_write(self.written(), offset) is None,
    {
        let writes = &self.state.writes;
        let mut i = writes.len();
        assert(self.written().take(i as int) =~= self.written());
        while i > 0
            invariant
                i <= writes.len(),
                writes == &self.state.writes,
                last_write(self.written(), offset) == last_write(
                    self.written().take(i as int),
                    offset,
                ),
            decreases i,
        {
            let ghost w = self.written().take(i as int);
            assert(w.drop_last() =~= self.written().take(i - 1));
            assert(w.last() == (writes@[i - 1].0, writes@[i - 1].1@));
            if writes[i - 1].0 == offset {
                let v = writes[i - 1].1.clone();
                assert(v@ =~= writes@[i - 1].1@);
                return Some(v);
            }
            i = i - 1;
        }
        None
    }

    /// How many different descriptors were written.
    pub fn descriptor_count(&self) -> (n: usize)
        ensures
            n == distinct_offsets(self.written()),
    {
        let writes = &self.state.writes;
        let mut n: usize = 0;
        let mut i: usize = 0;
        while i < writes.len()
            invariant
                i <= writes.len(),
                writes == &self.state.writes,
                n <= i,
                n == distinct_offsets(self.written().take(i as int)),
            decreases writes.len() - i,
        {
            let offset = writes[i].0;
            let mut seen = false;
            let mut j: usize = 0;
            while j < i
                invariant
                    j <= i < writes.len(),
                    writes == &self.state.writes,
                    offset == writes@[i as int].0,
                    seen == (last_write(self.written().take(j as int), offset) is Some),
                decreases i - j,
            {
                let ghost w = self.written().take(j + 1);
                assert(w.drop_last() =~= self.written().take(j as int));
                assert(w.last() == (writes@[j as int].0, writes@[j as int].1@));
                if writes[j].0 == offset {
                    seen = true;
                } else {
                    proof {
                        lemma_last_write_found(self.written().take(j as int), w.last(), offset);
                    }
                }
                j = j + 1;
            }
            let ghost w = self.written().take(i + 1);
            assert(w.drop_last() =~= self.written().take(i as int));
            assert(w.last().0 == offset);
            if !seen {
                n = n + 1;
            }
            i = i + 1;
        }
        assert(self.written().take(i as int) =~= self.written());
        n
    }

    /// The DATA_NOTIFY events received, oldest first.
    pub fn notifies(&self) -> (r: &Vec<u32>)
        ensures
            r@ == self.notified(),
    {
        &self.state.notifies
    }
}

/// On the recording device every plan runs to its end and succeeds, and the
/// device keeps the plan's writes and notifies after those it had.
pub proof fn lemma_mock_runs_whole_plan(before: MockDevice, after: MockDevice, plan: Seq<Command>)
    requires
        before.accepts_all(),
        after.accepts_all(),
        extends(before.history(), after.history()),
        runs(plan, since(before.history(), after.history())),
    ensures
        since(before.history(), after.history()).len() == plan.len(),
        run_result(since(before.history(), after.history())) == Ok::<(), DeviceError>(()),
        after.written() == before.written() + plan_writes(plan),
        after.notified() == before.notified() + plan_notifies(plan),
{
    lemma_accepting_run(plan, before.history(), after.history());
}

/// A read of an offset gives back what the latest write to it wrote; a
/// write to another offset leaves it as it was.
pub proof fn lemma_last_write_found(w: Seq<(u32, Seq<u8>)>, x: (u32, Seq<u8>), offset: u32)
    ensures
        x.0 != offset ==> last_write(w.push(x), offset) == last_write(w, offset),
        x.0 == offset ==> last_write(w.push(x), offset) == Some(x.1),
{
    assert(w.push(x).drop_last() =~= w);
}

impl ScarlettDevice for MockDevice {
    closed spec fn info_spec(&self) -> DeviceInfo {
        self.info
    }

    closed spec fn history(&self) -> Seq<Transfer> {
        self.state.log@
    }

    fn info(&self) -> (i: &DeviceInfo) {
        &self.info
    }

    fn get_descriptor(&mut self, offset: u32, len: u32) -> (r: Result<Vec<u8>>)
        ensures
            r matches Ok(v) && v@ == match last_write(old(self).written(), offset) {
                Some(data) => data,
                None => Seq::new(len as nat, |i: int| 0u8),
            },
            final(self).written() == old(self).written(),
            final(self).notified() == old(self).notified(),
    {
        proof {
            use_type_invariant(&*self);
        }
        let v = match self.descriptor(offset) {
            Some(v) => v,
            None => {
                let mut z: Vec<u8> = Vec::new();
                let mut k: u32 = 0;
                while k < len
                    invariant
                        k <= len,
                        z@ == Seq::new(k as nat, |i: int| 0u8),
                    decreases len - k,
                {
                    z.push(0);
                    k = k + 1;
                    assert(z@ =~= Seq::new(k as nat, |i: int| 0u8));
                }
                z
            },
        };
        let mut st = MockState::empty();
        std::mem::swap(&mut st, &mut self.state);
        let ghost h = st.log@;
        let ghost t = Transfer::Read { offset, len, reply: Ok(v@) };
        st.log = Ghost(h.push(t));
        proof {
            assert(h.push(t).drop_last() =~= h);
            assert(all_ok(h.push(t))) by {
                assert forall|i: int| 0 <= i < h.push(t).len() implies transfer_ok(
                    #[trigger] h.push(t)[i],
                ) by {
                    if i < h.len() {
                        assert(h.push(t)[i] == h[i]);
                    }
                }
            }
        }
        self.state = st;
        Ok(v)
    }

    fn set_descriptor(&mut self, offset: u32, data: &[u8]) -> (r: Result<()>)
        ensures
            r is Ok,
            final(self).written() == old(self).written().push((offset, data@)),
            final(self).notified() == old(self).notified(),
    {
        proof {
            use_type_invariant(&*self);
        }
        let mut copy: Vec<u8> = Vec::new();
        let mut k: usize = 0;
        while k < data.len()
            invariant
                k <= data.len(),
                copy@ == data@.take(k as int),
            decreases data.len() - k,
        {
            copy.push(data[k]);
            k = k + 1;
        }
        assert(copy@ =~= data@);
        let mut st = MockState::empty();
        std::mem::swap(&mut st, &mut self.state);
        let ghost h = st.log@;
        let ghost old_writes = st.writes@.map_values(|w: (u32, Vec<u8>)| (w.0, w.1@));
        let ghost t = Transfer::Write { offset, data: data@, outcome: Ok(()) };
        st.writes.push((offset, copy));
        st.log = Ghost(h.push(t));
        proof {
            assert(h.push(t).drop_last() =~= h);
            assert(st.writes@.map_values(|w: (u32, Vec<u8>)| (w.0, w.1@)) =~= old_writes.push(
                (offset, data@),
            ));
            assert(all_ok(h.push(t))) by {
                assert forall|i: int| 0 <= i < h.push(t).len() implies transfer_ok(
                    #[trigger] h.push(t)[i],
                ) by {
                    if i < h.len() {
                        assert(h.push(t)[i] == h[i]);
                    }
                }
            }
        }
        self.state = st;
        Ok(())
    }

    fn data_notify(&mut self, event: u32) -> (r: Result<()>)
        ensures
            r is Ok,
            final(self).written() == old(self).written(),
            final(self).notified() == old(self).notified().push(event),
    {
        proof {
            use_type_invariant(&*self);
        }
        let mut st = MockState::empty();
        std::mem::swap(&mut st, &mut self.state);
        let ghost h = st.log@;
        let ghost t = Transfer::Notify { event, outcome: Ok(()) };
        st.notifies.push(event);
        st.log = Ghost(h.push(t));
        proof {
            assert(h.push(t).drop_last() =~= h);
            assert(all_ok(h.push(t))) by {
                assert forall|i: int| 0 <= i < h.push(t).len() implies transfer_ok(
                    #[trigger] h.push(t)[i],
                ) by {
                    if i < h.len() {
                        assert(h.push(t)[i] == h[i]);
                    }
                }
            }
        }
        self.state = st;
        Ok(())
    }
}

} // verus!
