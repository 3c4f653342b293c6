//! The bookkeeping of a splice: two connections, `A` and `B`, joined by two
//! copies that run side by side, one from `A` to `B` and one from `B` to `A`.
//!
//! A copy ends when its source is at end of stream or when it fails. The
//! write half of its sink is then shut down, so that the peer behind the sink
//! sees the end of the stream, while the other copy goes on. The connections
//! are released when both copies have ended.

use vstd::prelude::*;

verus! {

/// One of the two spliced connections.
#[derive(Clone, Copy, Debug, PartialEq, Eq, Structural)]
pub enum Endpoint {
    A,
    B,
}

/// One of the two copies.
#[derive(Clone, Copy, Debug, PartialEq, Eq, Structural)]
pub enum Direction {
    /// Reads from `A` and writes to `B`.
    AToB,
    /// Reads from `B` and writes to `A`.
    BToA,
}

impl Direction {
    /// The connection that the copy reads from.
    pub open spec fn spec_source(self) -> Endpoint {
        match self {
            Direction::AToB => Endpoint::A,
            Direction::BToA => Endpoint::B,
        }
    }

    /// The connection that the copy writes to.
    pub open spec fn spec_sink(self) -> Endpoint {
        match self {
            Direction::AToB => Endpoint::B,
            Direction::BToA => Endpoint::A,
        }
    }

    /// The copy that runs the other way.
    pub open spec fn spec_reverse(self) -> Direction {
        match self {
            Direction::AToB => Direction::BToA,
            Direction::BToA => Direction::AToB,
        }
    }

    /// The connection that the copy reads from.
    #[verifier::when_used_as_spec(spec_source)]
    pub fn source(self) -> (endpoint: Endpoint)
        ensures
            endpoint == self.spec_source(),
    {
        match self {
            Direction::AToB => Endpoint::A,
            Direction::BToA => Endpoint::B,
        }
    }

    /// The connection that the copy writes to.
    #[verifier::when_used_as_spec(spec_sink)]
    pub fn sink(self) -> (endpoint: Endpoint)
        ensures
            endpoint == self.spec_sink(),
    {
        match self {
            Direction::AToB => Endpoint::B,
            Direction::BToA => Endpoint::A,
        }
    }

    /// The copy that runs the other way.
    #[verifier::when_used_as_spec(spec_reverse)]
    pub fn reverse(self) -> (direction: Direction)
        ensures
            direction == self.spec_reverse(),
    {
        match self {
            Direction::AToB => Direction::BToA,
            Direction::BToA => Direction::AToB,
        }
    }
}

/// How far a copy has come.
#[derive(Clone, Copy, Debug, PartialEq, Eq, Structural)]
pub enum Progress {
    /// The copy reads and writes.
    Running,
    /// The source was at end of stream.
    Finished,
    /// A read or a write failed.
    Failed,
}

/// What to do on the connections of a splice.
#[derive(Clone, Copy, Debug, PartialEq, Eq, Structural)]
pub enum SpliceAction {
    /// Write to this connection all of the bytes just read, this many, then
    /// read again.
    Forward(Endpoint, usize),
    /// Shut down the write half of this connection. The copy has ended.
    ShutdownWrite(Endpoint),
    /// Nothing: the copy had ended before.
    Nothing,
}

/// The state of a splice.
#[derive(Clone, Copy, Debug)]
pub struct Splice {
    a_to_b: Progress,
    b_to_a: Progress,
}

/// What a `Splice` stands for: how far each copy has come.
pub ghost struct SpliceView {
    pub a_to_b: Progress,
    pub b_to_a: Progress,
}

impl SpliceView {
    /// How far the copy in `direction` has come.
    pub open spec fn progress(self, direction: Direction) -> Progress {
        match direction {
            Direction::AToB => self.a_to_b,
            Direction::BToA => self.b_to_a,
        }
    }

    /// The state in which the copy in `direction` stands at `progress`.
    pub open spec fn with(self, direction: Direction, progress: Progress) -> SpliceView {
        match direction {
            Direction::AToB => SpliceView { a_to_b: progress, ..self },
            Direction::BToA => SpliceView { b_to_a: progress, ..self },
        }
    }

    /// Whether both copies have ended.
    pub open spec fn complete(self) -> bool {
        self.a_to_b != Progress::Running && self.b_to_a != Progress::Running
    }

    /// The answer to a read of `read_len` bytes by the copy in `direction`.
    pub open spec fn read_action(self, direction: Direction, read_len: usize) -> SpliceAction {
        if self.progress(direction) != Progress::Running {
            SpliceAction::Nothing
        } else if read_len == 0 {
            SpliceAction::ShutdownWrite(direction.spec_sink())
        } else {
            SpliceAction::Forward(direction.spec_sink(), read_len)
        }
    }

    /// The state after a read of `read_len` bytes by the copy in `direction`.
    pub open spec fn after_read(self, direction: Direction, read_len: usize) -> SpliceView {
        if self.progress(direction) == Progress::Running && read_len == 0 {
            self.with(direction, Progress::Finished)
        } else {
            self
        }
    }

    /// The answer to a failure of the copy in `direction`.
    pub open spec fn error_action(self, direction: Direction) -> SpliceAction {
        if self.progress(direction) != Progress::Running {
            SpliceAction::Nothing
        } else {
            SpliceAction::ShutdownWrite(direction.spec_sink())
        }
    }

    /// The state after a failure of the copy in `direction`.
    pub open spec fn after_error(self, direction: Direction) -> SpliceView {
        if self.progress(direction) == Progress::Running {
            self.with(direction, Progress::Failed)
        } else {
            self
        }
    }
}

impl View for Splice {
    type V = SpliceView;

    closed spec fn view(&self) -> SpliceView {
        SpliceView { a_to_b: self.a_to_b, b_to_a: self.b_to_a }
    }
}

impl Splice {
    /// A splice whose two copies run.
    pub fn new() -> (splice: Splice)
        ensures
            splice@ == (SpliceView { a_to_b: Progress::Running, b_to_a: Progress::Running }),
    {
        Splice { a_to_b: Progress::Running, b_to_a: Progress::Running }
    }

    /// How far the copy in `direction` has come.
    pub fn progress(&self, direction: Direction) -> (progress: Progress)
        ensures
            progress == self@.progress(direction),
    {
        match direction {
            Direction::AToB => self.a_to_b,
            Direction::BToA => self.b_to_a,
        }
    }

    /// Whether both copies have ended, so that the connections may be
    /// released.
    pub fn is_complete(&self) -> (complete: bool)
        ensures
            complete == self@.complete(),
    {
        self.a_to_b != Progress::Running && self.b_to_a != Progress::Running
    }

    /// Records where the copy in `direction` now stands.
    fn set(&mut self, direction: Direction, progress: Progress)
        ensures
            final(self)@ == old(self)@.with(direction, progress),
    {
        match direction {
            Direction::AToB => {
                self.a_to_b = progress;
            },
            Direction::BToA => {
                self.b_to_a = progress;
            },
        }
    }

    /// The copy in `direction` has read `read_len` bytes from its source.
    ///
    /// While the copy runs, every byte read is forwarded to the sink, and a
    /// read of nothing, the end of the stream, ends the copy with a shutdown
    /// of the sink's write half. The other copy is left as it is.
    pub fn on_read(&mut self, direction: Direction, read_len: usize) -> (action: SpliceAction)
        ensures
            action == old(self)@.read_action(direction, read_len),
            final(self)@ == old(self)@.after_read(direction, read_len),
    {
        if self.progress(direction) != Progress::Running {
            SpliceAction::Nothing
        } else if read_len == 0 {
            self.set(direction, Progress::Finished);
            SpliceAction::ShutdownWrite(direction.sink())
        } else {
            SpliceAction::Forward(direction.sink(), read_len)
        }
    }

    /// A read or a write of the copy in `direction` has failed.
    ///
    /// The copy ends with a shutdown of the sink's write half. The other copy
    /// is left as it is.
    pub fn on_error(&mut self, direction: Direction) -> (action: SpliceAction)
        ensures
            action == old(self)@.error_action(direction),
            final(self)@ == old(self)@.after_error(direction),
    {
        if self.progress(direction) != Progress::Running {
            SpliceAction::Nothing
        } else {
            self.set(direction, Progress::Failed);
            SpliceAction::ShutdownWrite(direction.sink())
        }
    }
}

/// While a copy runs, every byte it reads goes to the connection on the
/// other side, and only the end of the stream or a failure ends it.
pub proof fn lemma_running_copy_forwards(splice: SpliceView, direction: Direction, read_len: usize)
    requires
        splice.progress(direction) == Progress::Running,
        read_len > 0,
    ensures
        splice.read_action(direction, read_len) == SpliceAction::Forward(
            direction.spec_sink(),
            read_len,
        ),
        splice.after_read(direction, read_len) == splice,
{
}

/// A half-close leaves the other direction open: when one copy ends, by end
/// of stream or by failure, the write half of its sink is shut down, and the
/// copy that runs the other way stays as it was. While that one runs, the
/// splice is not complete and the bytes it reads still reach the connection
/// whose stream has ended.
pub proof fn lemma_half_close_keeps_other_copy(
    splice: SpliceView,
    ended: Direction,
    read_len: usize,
)
    requires
        splice.progress(ended) == Progress::Running,
        read_len > 0,
    ensures
        splice.read_action(ended, 0) == SpliceAction::ShutdownWrite(ended.spec_sink()),
        splice.error_action(ended) == SpliceAction::ShutdownWrite(ended.spec_sink()),
        splice.after_read(ended, 0).progress(ended.spec_reverse()) == splice.progress(
            ended.spec_reverse(),
        ),
        splice.after_error(ended).progress(ended.spec_reverse()) == splice.progress(
            ended.spec_reverse(),
        ),
        splice.progress(ended.spec_reverse()) == Progress::Running ==> {
            &&& !splice.after_read(ended, 0).complete()
            &&& !splice.after_error(ended).complete()
            &&& splice.after_read(ended, 0).read_action(ended.spec_reverse(), read_len)
                == SpliceAction::Forward(ended.spec_source(), read_len)
            &&& splice.after_error(ended).read_action(ended.spec_reverse(), read_len)
                == SpliceAction::Forward(ended.spec_source(), read_len)
        },
{
}

/// A splice is complete exactly when each copy has ended, and a copy that has
/// ended stays so.
pub proof fn lemma_ended_copy_stays_ended(splice: SpliceView, direction: Direction, read_len: usize)
    requires
        splice.progress(direction) != Progress::Running,
    ensures
        splice.read_action(direction, read_len) == SpliceAction::Nothing,
        splice.error_action(direction) == SpliceAction::Nothing,
        splice.after_read(direction, read_len) == splice,
        splice.after_error(direction) == splice,
        splice.complete() <==> splice.progress(direction.spec_reverse()) != Progress::Running,
{
}

} // verus!
