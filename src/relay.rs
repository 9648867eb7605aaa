//! The decisions of one stream relay: a pipe drained chunk by chunk, each
//! chunk written to the console, flushed, then written to the log file.
//! The caller performs each action and reports its outcome as the next event.
use vstd::prelude::*;

verus! {

/// What the caller observed after performing the last action.
pub enum RelayEvent {
    /// A read completed with these bytes; none means the stream has ended.
    Read(Vec<u8>),
    /// The last write or flush completed.
    Done,
    /// The last read, write or flush failed.
    Failed,
}

/// What the caller is to do next.
#[derive(Debug, PartialEq, Eq, Structural, Clone, Copy)]
pub enum RelayAction {
    /// Read the next chunk from the pipe.
    Read,
    /// Write the pending chunk to the console.
    WriteConsole,
    /// Flush the console.
    FlushConsole,
    /// Write the pending chunk to the log file.
    WriteLog,
    /// The stream has ended and every byte reached both sinks.
    Finish,
    /// An operation failed; the relay is over.
    Abort,
}

#[derive(Debug, PartialEq, Eq, Structural, Clone, Copy)]
pub enum RelayPhase {
    Reading,
    ToConsole,
    Flushing,
    ToLog,
    Finished,
    Aborted,
}

pub struct Relay {
    phase: RelayPhase,
    chunk: Vec<u8>,
    /// Every byte read from the pipe, in order.
    received: Ghost<Seq<u8>>,
    /// Every byte whose console write completed, in order.
    console: Ghost<Seq<u8>>,
    /// Every byte whose log write completed, in order.
    logged: Ghost<Seq<u8>>,
}

impl Relay {
    pub closed spec fn phase_of(&self) -> RelayPhase {
        self.phase
    }

    pub closed spec fn chunk_of(&self) -> Seq<u8> {
        self.chunk@
    }

    /// Every byte read from the pipe, in order.
    pub closed spec fn received(&self) -> Seq<u8> {
        self.received@
    }

    /// Every byte whose console write completed, in order.
    pub closed spec fn console(&self) -> Seq<u8> {
        self.console@
    }

    /// Every byte whose log write completed, in order.
    pub closed spec fn logged(&self) -> Seq<u8> {
        self.logged@
    }

    /// How far each sink lags behind the pipe in each phase.
    pub open spec fn wf(&self) -> bool {
        let (r, c, l, k) = (self.received(), self.console(), self.logged(), self.chunk_of());
        match self.phase_of() {
            RelayPhase::Reading | RelayPhase::Finished => c == r && l == r,
            RelayPhase::ToConsole => r == c + k && l == c && k.len() > 0,
            RelayPhase::Flushing | RelayPhase::ToLog => c == r && r == l + k && k.len() > 0,
            RelayPhase::Aborted => true,
        }
    }

    /// A relay that has read nothing yet.
    pub fn new() -> (r: Relay)
        ensures
            r.wf(),
            r.phase_of() == RelayPhase::Reading,
            r.received() == Seq::<u8>::empty(),
    {
        Relay {
            phase: RelayPhase::Reading,
            chunk: Vec::new(),
            received: Ghost(Seq::empty()),
            console: Ghost(Seq::empty()),
            logged: Ghost(Seq::empty()),
        }
    }

    /// The action that starts the relay.
    pub fn start(&self) -> (r: RelayAction)
        ensures
            r == RelayAction::Read,
    {
        RelayAction::Read
    }

    pub fn phase(&self) -> (r: RelayPhase)
        ensures
            r == self.phase_of(),
    {
        self.phase
    }

    /// The chunk that the current write is to carry.
    pub fn pending(&self) -> (r: &[u8])
        ensures
            r@ == self.chunk_of(),
    {
        self.chunk.as_slice()
    }

    /// Takes the outcome of the last action and gives the next one. An event
    /// that does not answer the last action, and any failure, end the relay.
    pub fn step(&mut self, ev: RelayEvent) -> (r: RelayAction)
        requires
            old(self).wf(),
        ensures
            final(self).wf(),
            ({
                let (p, k) = (old(self).phase_of(), old(self).chunk_of());
                let (rv, cn, lg) = (old(self).received(), old(self).console(), old(self).logged());
                match (p, ev) {
                    (RelayPhase::Reading, RelayEvent::Read(d)) => if d@.len() == 0 {
                        r == RelayAction::Finish && final(self).phase_of() == RelayPhase::Finished
                            && final(self).received() == rv
                    } else {
                        r == RelayAction::WriteConsole && final(self).phase_of()
                            == RelayPhase::ToConsole && final(self).chunk_of() == d@
                            && final(self).received() == rv + d@ && final(self).console() == cn
                    },
                    (RelayPhase::ToConsole, RelayEvent::Done) => r == RelayAction::FlushConsole
                        && final(self).phase_of() == RelayPhase::Flushing && final(self).chunk_of()
                        == k && final(self).console() == cn + k && final(self).logged() == lg,
                    (RelayPhase::Flushing, RelayEvent::Done) => r == RelayAction::WriteLog
                        && final(self).phase_of() == RelayPhase::ToLog && final(self).chunk_of()
                        == k && final(self).console() == cn && final(self).logged() == lg,
                    (RelayPhase::ToLog, RelayEvent::Done) => r == RelayAction::Read
                        && final(self).phase_of() == RelayPhase::Reading && final(self).logged()
                        == lg + k && final(self).console() == cn,
                    _ => r == RelayAction::Abort && final(self).phase_of() == RelayPhase::Aborted,
                }
            }),
            final(self).received() == old(self).received() || final(self).phase_of()
                == RelayPhase::ToConsole,
    {
        match (self.phase, ev) {
            (RelayPhase::Reading, RelayEvent::Read(d)) => {
                if d.len() == 0 {
                    self.phase = RelayPhase::Finished;
                    RelayAction::Finish
                } else {
                    self.received = Ghost(self.received@ + d@);
                    self.chunk = d;
                    self.phase = RelayPhase::ToConsole;
                    RelayAction::WriteConsole
                }
            },
            (RelayPhase::ToConsole, RelayEvent::Done) => {
                self.console = Ghost(self.console@ + self.chunk@);
                self.phase = RelayPhase::Flushing;
                RelayAction::FlushConsole
            },
            (RelayPhase::Flushing, RelayEvent::Done) => {
                self.phase = RelayPhase::ToLog;
                RelayAction::WriteLog
            },
            (RelayPhase::ToLog, RelayEvent::Done) => {
                self.logged = Ghost(self.logged@ + self.chunk@);
                self.phase = RelayPhase::Reading;
                RelayAction::Read
            },
            _ => {
                self.phase = RelayPhase::Aborted;
                RelayAction::Abort
            },
        }
    }
}

/// A relay that finished has handed every byte it read, in order, to the
/// console and to the log file alike.
pub proof fn finished_relay_copies_exactly(r: &Relay)
    requires
        r.wf(),
        r.phase_of() == RelayPhase::Finished,
    ensures
        r.console() == r.received(),
        r.logged() == r.received(),
{
}

/// A relay hands the console a chunk, and flushes it, before the log file
/// sees it: the log never runs ahead of the console.
pub proof fn log_never_ahead_of_console(r: &Relay)
    requires
        r.wf(),
        r.phase_of() != RelayPhase::Aborted,
    ensures
        r.console().len() >= r.logged().len(),
        r.logged() == r.console().subrange(0, r.logged().len() as int),
{
    let (rv, c, l, k) = (r.received(), r.console(), r.logged(), r.chunk_of());
    match r.phase_of() {
        RelayPhase::Flushing | RelayPhase::ToLog => {
            assert((l + k).subrange(0, l.len() as int) =~= l);
        },
        _ => {
            assert(c.subrange(0, l.len() as int) =~= l);
        },
    }
}

/// What a finished relay wrote depends on the bytes it read alone: two runs
/// over the same input leave the same console output and the same log.
pub proof fn relay_output_determined_by_input(a: &Relay, b: &Relay)
    requires
        a.wf(),
        b.wf(),
        a.phase_of() == RelayPhase::Finished,
        b.phase_of() == RelayPhase::Finished,
        a.received() == b.received(),
    ensures
        a.console() == b.console(),
        a.logged() == b.logged(),
{
}

} // verus!
