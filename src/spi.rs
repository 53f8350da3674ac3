//! Register access over the synchronous serial bus.
//!
//! One register operation is two back-to-back 16-bit frames. A write sends
//! the register address, then the data. A read sends the address with
//! `READ_FLAG` set, then `DUMMY`, and yields the word received during the
//! second frame.
//!
//! Each frame is moved by polling the bus peripheral: wait until the
//! transmit buffer is empty, load the frame, wait until a word has been
//! received, read it. A `Transfer` holds the decisions of that loop; the
//! caller performs each `BusAction` on the peripheral and reports what it
//! saw as a `BusEvent`. A wait that sees more than `max_spins` consecutive
//! unready polls gives up (`Stalled`) instead of blocking forever.
use vstd::prelude::*;

verus! {

/// Address-frame bit that asks for a read.
pub const READ_FLAG: u16 = 0x80;

/// Data frame sent while the reply of a read is shifted in.
pub const DUMMY: u16 = 0x00;

/// The frames of a register write.
pub open spec fn write_frames(address: u16, data: u16) -> Seq<u16> {
    seq![address, data]
}

/// The frames of a register read.
pub open spec fn read_frames(address: u16) -> Seq<u16> {
    seq![address | READ_FLAG, DUMMY]
}

/// Where a transfer stands.
#[derive(Clone, Copy, Debug, PartialEq, Eq, Structural)]
pub enum Phase {
    /// Waiting for the transmit buffer to be empty.
    AwaitTx,
    /// Frame loaded; waiting for a received word.
    AwaitRx,
    /// A word has arrived; waiting for it to be read.
    AwaitData,
    /// Both frames are through.
    Done,
    /// A wait gave up.
    Stalled,
}

/// What the caller saw on the peripheral.
#[derive(Clone, Copy, Debug, PartialEq, Eq, Structural)]
pub enum BusEvent {
    /// The transmit-buffer-empty flag, as polled.
    TxEmpty(bool),
    /// The receive-buffer-not-empty flag, as polled.
    RxNotEmpty(bool),
    /// The word read from the data register.
    Data(u32),
}

/// What the caller is to do next on the peripheral.
#[derive(Clone, Copy, Debug, PartialEq, Eq, Structural)]
pub enum BusAction {
    /// Poll the transmit-buffer-empty flag; report `TxEmpty`.
    PollTx,
    /// Write the frame to the data register, then poll the
    /// receive-buffer-not-empty flag; report `RxNotEmpty`.
    Load(u16),
    /// Poll the receive-buffer-not-empty flag; report `RxNotEmpty`.
    PollRx,
    /// Read the data register; report `Data`.
    ReadData,
    /// The operation is over; the word received during its second frame.
    Complete(u32),
    /// The operation gave up on a stalled peripheral.
    Abort,
}

/// One register operation on the bus: two frames and the state of the
/// polling loop that moves them.
#[derive(Clone, Copy, Debug)]
pub struct Transfer {
    /// Frame sent first.
    pub first: u16,
    /// Frame sent second.
    pub second: u16,
    /// Index of the frame being moved (0 or 1).
    pub index: usize,
    pub phase: Phase,
    /// Consecutive unready polls in the current wait.
    pub spins: u32,
    /// Unready polls tolerated in one wait before giving up.
    pub max_spins: u32,
    /// Last word received.
    pub reply: u32,
}

impl Transfer {
    /// The frames of the operation, in order.
    pub open spec fn frames(self) -> Seq<u16> {
        seq![self.first, self.second]
    }

    pub open spec fn wf(self) -> bool {
        &&& self.index <= 1
        &&& self.spins <= self.max_spins
        &&& self.phase == Phase::Done ==> self.index == 1
    }

    /// Whether the operation is a fresh one over `frames`.
    pub open spec fn fresh(self, frames: Seq<u16>, max_spins: u32) -> bool {
        &&& self.frames() == frames
        &&& self.index == 0
        &&& self.phase == Phase::AwaitTx
        &&& self.spins == 0
        &&& self.max_spins == max_spins
        &&& self.reply == 0
    }

    /// The frame being moved.
    pub open spec fn current_frame(self) -> u16 {
        if self.index == 0 {
            self.first
        } else {
            self.second
        }
    }

    /// The action that the current phase waits on.
    pub open spec fn pending_action(self) -> BusAction {
        match self.phase {
            Phase::AwaitTx => BusAction::PollTx,
            Phase::AwaitRx => BusAction::PollRx,
            Phase::AwaitData => BusAction::ReadData,
            Phase::Done => BusAction::Complete(self.reply),
            Phase::Stalled => BusAction::Abort,
        }
    }

    /// After an unready poll: poll again, or give up once `max_spins`
    /// unready polls have been seen.
    pub open spec fn after_miss(self, retry: BusAction) -> (Transfer, BusAction) {
        if self.spins >= self.max_spins {
            (Transfer { phase: Phase::Stalled, ..self }, BusAction::Abort)
        } else {
            (Transfer { spins: (self.spins + 1) as u32, ..self }, retry)
        }
    }

    /// The next state and action after `event`. An event that does not
    /// answer the pending action changes nothing and repeats it.
    pub open spec fn next(self, event: BusEvent) -> (Transfer, BusAction) {
        match (self.phase, event) {
            (Phase::AwaitTx, BusEvent::TxEmpty(true)) => (
                Transfer { phase: Phase::AwaitRx, spins: 0, ..self },
                BusAction::Load(self.current_frame()),
            ),
            (Phase::AwaitTx, BusEvent::TxEmpty(false)) => self.after_miss(BusAction::PollTx),
            (Phase::AwaitRx, BusEvent::RxNotEmpty(true)) => (
                Transfer { phase: Phase::AwaitData, spins: 0, ..self },
                BusAction::ReadData,
            ),
            (Phase::AwaitRx, BusEvent::RxNotEmpty(false)) => self.after_miss(BusAction::PollRx),
            (Phase::AwaitData, BusEvent::Data(w)) => if self.index == 0 {
                (
                    Transfer { index: 1, phase: Phase::AwaitTx, reply: w, ..self },
                    BusAction::PollTx,
                )
            } else {
                (Transfer { phase: Phase::Done, reply: w, ..self }, BusAction::Complete(w))
            },
            _ => (self, self.pending_action()),
        }
    }

    /// The action to perform first, or again after an event that changed
    /// nothing.
    pub fn action(&self) -> (a: BusAction)
        ensures
            a == self.pending_action(),
    {
        match self.phase {
            Phase::AwaitTx => BusAction::PollTx,
            Phase::AwaitRx => BusAction::PollRx,
            Phase::AwaitData => BusAction::ReadData,
            Phase::Done => BusAction::Complete(self.reply),
            Phase::Stalled => BusAction::Abort,
        }
    }

    fn miss(&mut self, retry: BusAction) -> (a: BusAction)
        requires
            old(self).wf(),
        ensures
            (*final(self), a) == old(self).after_miss(retry),
    {
        if self.spins >= self.max_spins {
            self.phase = Phase::Stalled;
            BusAction::Abort
        } else {
            self.spins = self.spins + 1;
            retry
        }
    }

    /// Advances the operation by what was seen on the peripheral and
    /// returns the next action.
    pub fn step(&mut self, event: BusEvent) -> (a: BusAction)
        requires
            old(self).wf(),
        ensures
            final(self).wf(),
            (*final(self), a) == old(self).next(event),
    {
        match (self.phase, event) {
            (Phase::AwaitTx, BusEvent::TxEmpty(true)) => {
                self.phase = Phase::AwaitRx;
                self.spins = 0;
                BusAction::Load(if self.index == 0 { self.first } else { self.second })
            },
            (Phase::AwaitTx, BusEvent::TxEmpty(false)) => self.miss(BusAction::PollTx),
            (Phase::AwaitRx, BusEvent::RxNotEmpty(true)) => {
                self.phase = Phase::AwaitData;
                self.spins = 0;
                BusAction::ReadData
            },
            (Phase::AwaitRx, BusEvent::RxNotEmpty(false)) => self.miss(BusAction::PollRx),
            (Phase::AwaitData, BusEvent::Data(w)) => {
                self.reply = w;
                if self.index == 0 {
                    self.index = 1;
                    self.phase = Phase::AwaitTx;
                    BusAction::PollTx
                } else {
                    self.phase = Phase::Done;
                    BusAction::Complete(w)
                }
            },
            _ => self.action(),
        }
    }

    /// The word received during the second frame, once both frames are
    /// through.
    pub fn result(&self) -> (r: Option<u32>)
        ensures
            r == (if self.phase == Phase::Done {
                Some(self.reply)
            } else {
                None
            }),
    {
        if self.phase == Phase::Done {
            Some(self.reply)
        } else {
            None
        }
    }
}

/// A register write: the address frame, then the data frame.
pub fn write(address: u16, data: u16, max_spins: u32) -> (t: Transfer)
    ensures
        t.wf(),
        t.fresh(write_frames(address, data), max_spins),
{
    Transfer {
        first: address,
        second: data,
        index: 0,
        phase: Phase::AwaitTx,
        spins: 0,
        max_spins,
        reply: 0,
    }
}

/// A register read: the address frame with the read flag, then the dummy
/// frame, during which the register's content comes back.
pub fn read(address: u16, max_spins: u32) -> (t: Transfer)
    ensures
        t.wf(),
        t.fresh(read_frames(address), max_spins),
{
    Transfer {
        first: address | READ_FLAG,
        second: DUMMY,
        index: 0,
        phase: Phase::AwaitTx,
        spins: 0,
        max_spins,
        reply: 0,
    }
}

/// The outcome of running `t` through a sequence of events.
pub open spec fn run(t: Transfer, events: Seq<BusEvent>) -> (Transfer, Seq<BusAction>)
    decreases events.len(),
{
    if events.len() == 0 {
        (t, seq![])
    } else {
        let (t1, a) = t.next(events[0]);
        let (tn, rest) = run(t1, events.drop_first());
        (tn, seq![a].add(rest))
    }
}

/// On a peripheral that is always ready, a fresh operation loads its two
/// frames in order and completes with the word received during the second
/// one, which is also its result.
pub proof fn lemma_ready_bus_completes(t: Transfer, w0: u32, w1: u32)
    requires
        t.wf(),
        t.fresh(t.frames(), t.max_spins),
    ensures
        ({
            let events = seq![
                BusEvent::TxEmpty(true),
                BusEvent::RxNotEmpty(true),
                BusEvent::Data(w0),
                BusEvent::TxEmpty(true),
                BusEvent::RxNotEmpty(true),
                BusEvent::Data(w1),
            ];
            let (tn, actions) = run(t, events);
            &&& actions == seq![
                BusAction::Load(t.first),
                BusAction::ReadData,
                BusAction::PollTx,
                BusAction::Load(t.second),
                BusAction::ReadData,
                BusAction::Complete(w1),
            ]
            &&& tn.phase == Phase::Done
            &&& tn.reply == w1
        }),
{
    let events = seq![
        BusEvent::TxEmpty(true),
        BusEvent::RxNotEmpty(true),
        BusEvent::Data(w0),
        BusEvent::TxEmpty(true),
        BusEvent::RxNotEmpty(true),
        BusEvent::Data(w1),
    ];
    reveal_with_fuel(run, 7);
    assert(events.drop_first() =~= seq![
        BusEvent::RxNotEmpty(true),
        BusEvent::Data(w0),
        BusEvent::TxEmpty(true),
        BusEvent::RxNotEmpty(true),
        BusEvent::Data(w1),
    ]);
    assert(events.drop_first().drop_first() =~= seq![
        BusEvent::Data(w0),
        BusEvent::TxEmpty(true),
        BusEvent::RxNotEmpty(true),
        BusEvent::Data(w1),
    ]);
    assert(events.drop_first().drop_first().drop_first() =~= seq![
        BusEvent::TxEmpty(true),
        BusEvent::RxNotEmpty(true),
        BusEvent::Data(w1),
    ]);
    assert(events.drop_first().drop_first().drop_first().drop_first() =~= seq![
        BusEvent::RxNotEmpty(true),
        BusEvent::Data(w1),
    ]);
    assert(events.drop_first().drop_first().drop_first().drop_first().drop_first() =~= seq![
        BusEvent::Data(w1),
    ]);
    assert(events.drop_first().drop_first().drop_first().drop_first().drop_first().drop_first()
        =~= Seq::<BusEvent>::empty());
    let (tn, actions) = run(t, events);
    assert(actions =~= seq![
        BusAction::Load(t.first),
        BusAction::ReadData,
        BusAction::PollTx,
        BusAction::Load(t.second),
        BusAction::ReadData,
        BusAction::Complete(w1),
    ]);
}

/// A wait gives up exactly when a miss comes after `max_spins` misses in
/// a row; a transfer that gave up stays stalled whatever follows.
pub proof fn lemma_stall_is_bounded(t: Transfer, event: BusEvent)
    requires
        t.wf(),
    ensures
        t.phase == Phase::Stalled ==> t.next(event) == (t, BusAction::Abort),
        t.next(event).1 == BusAction::Abort && t.phase != Phase::Stalled ==> t.spins
            == t.max_spins,
        t.next(event).0.wf(),
{
}

} // verus!
