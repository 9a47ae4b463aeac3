//! The entry function and the fatal halt, as an explicit state machine.
//!
//! The entry function is the first logic-level routine the reset sequencer
//! hands control to. It busy-polls a status register until a read yields a
//! non-zero value, re-reads the register, writes that value's low byte to the
//! data register, and then deliberately enters the fatal halt, the terminal
//! state that no transition leaves.
//!
//! Hardware is modeled as a scripted device: a mapping from the ordinal of a
//! status read to the value it returns. A driver performs the machine's
//! pending action against such a device and feeds the outcome back as an
//! event, so the decision logic is verified for every possible register
//! behavior, and the memory-mapped accesses themselves appear only as the
//! recorded bus operations.

use vstd::prelude::*;

verus! {

/// The phase of the entry machine.
#[derive(Clone, Copy, PartialEq, Eq, Debug)]
pub enum BootPhase {
    /// Busy-polling the status register for a non-zero value.
    Polling,
    /// A non-zero status was observed; the byte is fetched by one more read.
    Fetching,
    /// The byte is in hand and is being written to the data register.
    Writing { byte: u8 },
    /// The fatal halt: the processor spins forever with no further effect.
    Halted,
}

/// The side-effecting action the machine asks its driver to perform next.
#[derive(Clone, Copy, PartialEq, Eq, Debug)]
pub enum Action {
    /// Perform one volatile read of the status register.
    ReadStatus,
    /// Perform one volatile write of `byte` to the data register.
    WriteData { byte: u8 },
    /// Do nothing, forever: the idle spin of the fatal halt.
    Idle,
}

/// The outcome of a performed action, fed back into the machine.
#[derive(Clone, Copy, PartialEq, Eq, Debug)]
pub enum Event {
    /// A status read returned `value`.
    Status { value: u16 },
    /// A data write completed.
    Done,
}

/// One memory-mapped access, as it appears on the bus.
#[derive(Clone, Copy, PartialEq, Eq, Debug)]
pub enum BusOp {
    /// A volatile read of the status register returned `value`.
    StatusRead { value: u16 },
    /// A volatile write of `byte` to the data register.
    DataWrite { byte: u8 },
}

/// The transition function of the entry machine. A zero status keeps the
/// machine polling; a non-zero status moves it to the fetch read, whose value
/// is narrowed to a byte and written; the write completes into the halt. An
/// event that answers no pending action is an invariant violation and enters
/// the halt as well. No transition leaves `Halted`.
pub open spec fn step_spec(phase: BootPhase, event: Event) -> (BootPhase, Action) {
    match phase {
        BootPhase::Polling => match event {
            Event::Status { value } => if value == 0 {
                (BootPhase::Polling, Action::ReadStatus)
            } else {
                (BootPhase::Fetching, Action::ReadStatus)
            },
            Event::Done => (BootPhase::Halted, Action::Idle),
        },
        BootPhase::Fetching => match event {
            Event::Status { value } => (
                BootPhase::Writing { byte: value as u8 },
                Action::WriteData { byte: value as u8 },
            ),
            Event::Done => (BootPhase::Halted, Action::Idle),
        },
        BootPhase::Writing { .. } => (BootPhase::Halted, Action::Idle),
        BootPhase::Halted => (BootPhase::Halted, Action::Idle),
    }
}

/// The phase the machine is in when it starts polling, and the action that
/// obtains its first event.
pub fn initial() -> (r: (BootPhase, Action))
    ensures
        r.0 is Polling,
        r.1 is ReadStatus,
{
    (BootPhase::Polling, Action::ReadStatus)
}

/// Advance the entry machine by one event.
pub fn step(phase: BootPhase, event: Event) -> (r: (BootPhase, Action))
    ensures
        r == step_spec(phase, event),
        phase is Halted ==> r.0 is Halted && r.1 is Idle,
{
    match phase {
        BootPhase::Polling => match event {
            Event::Status { value } => if value == 0 {
                (BootPhase::Polling, Action::ReadStatus)
            } else {
                (BootPhase::Fetching, Action::ReadStatus)
            },
            Event::Done => (BootPhase::Halted, Action::Idle),
        },
        BootPhase::Fetching => match event {
            Event::Status { value } => {
                let byte: u8 = value as u8;
                (BootPhase::Writing { byte }, Action::WriteData { byte })
            },
            Event::Done => (BootPhase::Halted, Action::Idle),
        },
        BootPhase::Writing { .. } => (BootPhase::Halted, Action::Idle),
        BootPhase::Halted => (BootPhase::Halted, Action::Idle),
    }
}

/// The fatal halt: the sole failure and termination path, reachable
/// deliberately or from any detected invariant violation in any phase. The
/// resulting phase is terminal.
pub fn panic(_from: BootPhase) -> (r: BootPhase)
    ensures
        r is Halted,
{
    BootPhase::Halted
}

/// A status register scripted for the test bench: the i-th read returns
/// `script[i]`, and every read past the end of the script returns `rest`.
pub struct DeviceScript {
    /// The values of the first reads, in order.
    pub script: Vec<u16>,
    /// The value of every read after the script is exhausted.
    pub rest: u16,
}

impl DeviceScript {
    /// The value the i-th status read returns.
    pub open spec fn read_at(&self, i: int) -> u16 {
        if 0 <= i < self.script@.len() {
            self.script@[i]
        } else {
            self.rest
        }
    }

    /// The script fits the machine: a run's read counter, which goes at most
    /// two reads past the script, stays within `usize`.
    pub open spec fn fits(&self) -> bool {
        self.script@.len() + 2 <= usize::MAX
    }

    /// Some status read eventually returns a non-zero value. Without this the
    /// busy-poll loop never ends, by design: the modeled poll has no timeout.
    pub open spec fn eventually_ready(&self) -> bool {
        self.rest != 0 || exists|i: int| 0 <= i < self.script@.len() && self.script@[i] != 0
    }

    /// The poll loop breaks at read `k`: reads before `k` returned zero and
    /// read `k` did not.
    pub open spec fn breaks_at(&self, k: int) -> bool {
        &&& 0 <= k
        &&& self.read_at(k) != 0
        &&& forall|i: int| 0 <= i < k ==> self.read_at(i) == 0
    }

    pub fn new(script: Vec<u16>, rest: u16) -> (r: DeviceScript)
        ensures
            r.script == script,
            r.rest == rest,
    {
        DeviceScript { script, rest }
    }

    /// Perform the i-th status read against the script.
    pub fn read(&self, i: usize) -> (r: u16)
        ensures
            r == self.read_at(i as int),
    {
        if i < self.script.len() {
            self.script[i]
        } else {
            self.rest
        }
    }
}

/// The bus trace of one entry run whose poll loop breaks at read `k`: the
/// polled reads, the fetch read, and the single write of the fetched value's
/// low byte.
pub open spec fn entry_trace(dev: DeviceScript, k: int) -> Seq<BusOp> {
    Seq::new((k + 1) as nat, |i: int| BusOp::StatusRead { value: dev.read_at(i) })
        + seq![
        BusOp::StatusRead { value: dev.read_at(k + 1) },
        BusOp::DataWrite { byte: dev.read_at(k + 1) as u8 },
    ]
}

/// Ranking of the machine's pending action, for termination: each iteration
/// of the driver either consumes another scripted read or lowers this rank.
pub open spec fn action_rank(action: Action) -> int {
    match action {
        Action::ReadStatus => 2,
        Action::WriteData { .. } => 1,
        Action::Idle => 0,
    }
}

/// The phase the machine reaches from `phase` after consuming `events` one by
/// one.
pub open spec fn phase_after(phase: BootPhase, events: Seq<Event>) -> BootPhase
    decreases events.len(),
{
    if events.len() == 0 {
        phase
    } else {
        phase_after(step_spec(phase, events[0]).0, events.drop_first())
    }
}

/// The actions the machine asks for from `phase` while consuming `events`
/// one by one.
pub open spec fn actions_from(phase: BootPhase, events: Seq<Event>) -> Seq<Action>
    decreases events.len(),
{
    if events.len() == 0 {
        Seq::empty()
    } else {
        seq![step_spec(phase, events[0]).1] + actions_from(
            step_spec(phase, events[0]).0,
            events.drop_first(),
        )
    }
}

/// Law: the fatal halt is terminal. Once the machine is halted, no sequence
/// of events leads it anywhere else, and every action it asks for along the
/// way is the idle spin: no further bus operation, in particular no write,
/// ever occurs.
pub proof fn lemma_terminal_halt(events: Seq<Event>)
    ensures
        phase_after(BootPhase::Halted, events) is Halted,
        actions_from(BootPhase::Halted, events).len() == events.len(),
        forall|i: int|
            0 <= i < events.len() ==> actions_from(BootPhase::Halted, events)[i] is Idle,
    decreases events.len(),
{
    if events.len() > 0 {
        lemma_terminal_halt(events.drop_first());
        let rest = actions_from(BootPhase::Halted, events.drop_first());
        assert forall|i: int|
            0 <= i < events.len() implies actions_from(BootPhase::Halted, events)[i] is Idle by {
            if i > 0 {
                assert(actions_from(BootPhase::Halted, events)[i] == rest[i - 1]);
            }
        }
    }
}

/// Law: poll-then-act ordering. In the bus trace of an entry run, the single
/// data-register write comes strictly after a status read that returned a
/// non-zero value; every read that returned zero is followed by another read,
/// never by a write.
pub proof fn lemma_poll_then_act(dev: DeviceScript, k: int)
    requires
        dev.breaks_at(k),
    ensures
        entry_trace(dev, k).len() == k + 3,
        forall|j: int| 0 <= j < k + 2 ==> entry_trace(dev, k)[j] is StatusRead,
        forall|j: int| 0 <= j < k ==> entry_trace(dev, k)[j]->StatusRead_value == 0,
        entry_trace(dev, k)[k]->StatusRead_value != 0,
        entry_trace(dev, k)[k + 2] == (BusOp::DataWrite {
            byte: dev.read_at(k + 1) as u8,
        }),
        forall|j: int|
            #![trigger entry_trace(dev, k)[j]]
            0 <= j < entry_trace(dev, k).len() && entry_trace(dev, k)[j] is DataWrite
                ==> exists|i: int|
                0 <= i < j && entry_trace(dev, k)[i] is StatusRead && entry_trace(dev, k)[
                    i
                ]->StatusRead_value != 0,
{
    let t = entry_trace(dev, k);
    assert(t[k] == (BusOp::StatusRead { value: dev.read_at(k) }));
    assert forall|j: int| 0 <= j < t.len() && t[j] is DataWrite implies exists|i: int|
        0 <= i < j && t[i] is StatusRead && t[i]->StatusRead_value != 0 by {
        assert(j == k + 2);
        assert(0 <= k < j && t[k] is StatusRead && t[k]->StatusRead_value != 0);
    }
}

/// The entry function: drive the machine from its initial polling phase
/// against a scripted status register until it halts, and return the bus
/// trace alongside the terminal phase.
///
/// The trace is pinned exactly: the reads up to and including the first
/// non-zero status, one fetch read, and one write of the fetched value's low
/// byte; the machine ends in the fatal halt.
pub fn start(dev: &DeviceScript) -> (r: (Vec<BusOp>, BootPhase))
    requires
        dev.fits(),
        dev.eventually_ready(),
    ensures
        r.1 is Halted,
        exists|k: int| dev.breaks_at(k) && r.0@ == entry_trace(*dev, k),
{
    let mut trace: Vec<BusOp> = Vec::new();
    let init = initial();
    let mut phase = init.0;
    let mut action = init.1;
    let mut next_read: usize = 0;
    loop
        invariant
            dev.fits(),
            dev.eventually_ready(),
            phase is Polling ==> {
                &&& action is ReadStatus
                &&& next_read <= dev.script@.len()
                &&& forall|i: int| 0 <= i < next_read ==> dev.read_at(i) == 0
                &&& trace@ == Seq::new(
                    next_read as nat,
                    |i: int| BusOp::StatusRead { value: dev.read_at(i) },
                )
            },
            phase is Fetching ==> {
                &&& action is ReadStatus
                &&& 1 <= next_read <= dev.script@.len() + 1
                &&& dev.breaks_at(next_read - 1)
                &&& trace@ == Seq::new(
                    next_read as nat,
                    |i: int| BusOp::StatusRead { value: dev.read_at(i) },
                )
            },
            phase matches BootPhase::Writing { byte } ==> {
                &&& action == (Action::WriteData { byte })
                &&& 2 <= next_read <= dev.script@.len() + 2
                &&& dev.breaks_at(next_read - 2)
                &&& byte == #[verifier::truncate] (dev.read_at(next_read - 1) as u8)
                &&& trace@ == Seq::new(
                    next_read as nat,
                    |i: int| BusOp::StatusRead { value: dev.read_at(i) },
                )
            },
            phase is Halted ==> {
                &&& action is Idle
                &&& exists|k: int| dev.breaks_at(k) && trace@ == entry_trace(*dev, k)
            },
            action is Idle ==> phase is Halted,
        ensures
            phase is Halted,
            exists|k: int| dev.breaks_at(k) && trace@ == entry_trace(*dev, k),
        decreases dev.script@.len() + 2 - next_read, action_rank(action),
    {
        match action {
            Action::ReadStatus => {
                let value = dev.read(next_read);
                proof {
                    if phase is Polling && next_read == dev.script@.len() && value == 0 {
                        assert forall|i: int|
                            0 <= i < dev.script@.len() implies dev.script@[i] == 0u16 by {
                            assert(dev.read_at(i) == 0);
                        }
                        assert(false);
                    }
                }
                trace.push(BusOp::StatusRead { value });
                proof {
                    assert(trace@ =~= Seq::new(
                        (next_read + 1) as nat,
                        |i: int| BusOp::StatusRead { value: dev.read_at(i) },
                    ));
                }
                next_read = next_read + 1;
                let next = step(phase, Event::Status { value });
                phase = next.0;
                action = next.1;
            },
            Action::WriteData { byte } => {
                trace.push(BusOp::DataWrite { byte });
                proof {
                    let k = next_read - 2;
                    assert(trace@ =~= entry_trace(*dev, k));
                }
                let next = step(phase, Event::Done);
                phase = next.0;
                action = next.1;
            },
            Action::Idle => {
                break ;
            },
        }
    }
    (trace, phase)
}

} // verus!
