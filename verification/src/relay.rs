//! One direction of a relay: what is read from one connection is written to
//! the other, unchanged and in order, until the reading side ends.
//!
//! A pair is relayed by two directions that run side by side and know nothing
//! of each other. Reading, writing and closing are the caller's work. The
//! direction says which of them is due, and is told how it ended.

use vstd::prelude::*;

verus! {

/// The size of the buffer that a direction reads into.
pub const BUFFER_SIZE: usize = 8192;

/// Where one direction stands.
#[derive(Clone, Debug, PartialEq, Eq)]
pub enum Direction {
    /// Nothing is held; the direction waits for bytes from its source.
    Reading,
    /// These bytes were read and are being written to the sink.
    Writing(Vec<u8>),
    /// The source has ended; the sink is being told so.
    Closing,
    /// The direction is over.
    Finished,
}

/// The operation that a direction waits for.
#[derive(Clone, Copy, Debug, PartialEq, Eq, Structural)]
pub enum CopyAction {
    /// Read from the source.
    Read,
    /// Write the held bytes, all of them, to the sink.
    Write,
    /// Shut down the writing half of the sink, so that its peer sees the end of the stream.
    Shutdown,
    /// Stop: nothing is left to do.
    Stop,
}

/// How the awaited operation ended.
#[derive(Clone, Debug, PartialEq, Eq)]
pub enum CopyEvent {
    /// The read returned these bytes. None at all is the end of the stream.
    Read(Vec<u8>),
    /// The read failed.
    ReadFailed,
    /// The held bytes were written.
    Written,
    /// The write failed.
    WriteFailed,
    /// The shutdown returned, with or without an error.
    Closed,
}

/// A direction as the contracts see it: the held bytes by their values.
pub enum DirectionView {
    Reading,
    Writing(Seq<u8>),
    Closing,
    Finished,
}

/// An event as the contracts see it.
pub enum CopyEventView {
    Read(Seq<u8>),
    ReadFailed,
    Written,
    WriteFailed,
    Closed,
}

impl View for Direction {
    type V = DirectionView;

    open spec fn view(&self) -> DirectionView {
        match self {
            Direction::Reading => DirectionView::Reading,
            Direction::Writing(chunk) => DirectionView::Writing(chunk@),
            Direction::Closing => DirectionView::Closing,
            Direction::Finished => DirectionView::Finished,
        }
    }
}

impl View for CopyEvent {
    type V = CopyEventView;

    open spec fn view(&self) -> CopyEventView {
        match self {
            CopyEvent::Read(chunk) => CopyEventView::Read(chunk@),
            CopyEvent::ReadFailed => CopyEventView::ReadFailed,
            CopyEvent::Written => CopyEventView::Written,
            CopyEvent::WriteFailed => CopyEventView::WriteFailed,
            CopyEvent::Closed => CopyEventView::Closed,
        }
    }
}

impl DirectionView {
    /// The bytes that were read and are not written yet.
    pub open spec fn held(self) -> Seq<u8> {
        match self {
            DirectionView::Writing(chunk) => chunk,
            _ => Seq::empty(),
        }
    }

    /// The operation that the direction waits for in this state.
    pub open spec fn pending(self) -> CopyAction {
        match self {
            DirectionView::Reading => CopyAction::Read,
            DirectionView::Writing(_) => CopyAction::Write,
            DirectionView::Closing => CopyAction::Shutdown,
            DirectionView::Finished => CopyAction::Stop,
        }
    }

    /// The state after `event`.
    ///
    /// Bytes that were read are written next, as they are. The end of the
    /// source, or a failure to read from it, is passed on by shutting the sink
    /// down. A failed write ends the direction at once. Nothing is tried
    /// again. An event that the state does not wait for changes nothing.
    pub open spec fn next(self, event: CopyEventView) -> DirectionView {
        match (self, event) {
            (DirectionView::Reading, CopyEventView::Read(chunk)) => if chunk.len() > 0 {
                DirectionView::Writing(chunk)
            } else {
                DirectionView::Closing
            },
            (DirectionView::Reading, CopyEventView::ReadFailed) => DirectionView::Closing,
            (DirectionView::Writing(_), CopyEventView::Written) => DirectionView::Reading,
            (DirectionView::Writing(_), CopyEventView::WriteFailed) => DirectionView::Finished,
            (DirectionView::Closing, CopyEventView::Closed) => DirectionView::Finished,
            _ => self,
        }
    }

    /// The bytes that `event` brings in from the source.
    pub open spec fn taken(self, event: CopyEventView) -> Seq<u8> {
        match (self, event) {
            (DirectionView::Reading, CopyEventView::Read(chunk)) => chunk,
            _ => Seq::empty(),
        }
    }

    /// The bytes that `event` reports as arrived at the sink.
    pub open spec fn given(self, event: CopyEventView) -> Seq<u8> {
        match (self, event) {
            (DirectionView::Writing(chunk), CopyEventView::Written) => chunk,
            _ => Seq::empty(),
        }
    }

    /// The state after the events of `events`, in order.
    pub open spec fn run(self, events: Seq<CopyEventView>) -> DirectionView
        decreases events.len(),
    {
        if events.len() == 0 {
            self
        } else {
            self.run(events.drop_last()).next(events.last())
        }
    }

    /// All bytes read from the source in the course of `events`.
    pub open spec fn bytes_read(self, events: Seq<CopyEventView>) -> Seq<u8>
        decreases events.len(),
    {
        if events.len() == 0 {
            Seq::empty()
        } else {
            self.bytes_read(events.drop_last()) + self.run(events.drop_last()).taken(events.last())
        }
    }

    /// All bytes written to the sink in the course of `events`.
    pub open spec fn bytes_written(self, events: Seq<CopyEventView>) -> Seq<u8>
        decreases events.len(),
    {
        if events.len() == 0 {
            Seq::empty()
        } else {
            self.bytes_written(events.drop_last()) + self.run(events.drop_last()).given(
                events.last(),
            )
        }
    }
}

impl Direction {
    /// A direction that has read nothing yet.
    pub fn new() -> (d: Direction)
        ensures
            d@ == DirectionView::Reading,
    {
        Direction::Reading
    }

    /// The operation to carry out now.
    pub fn action(&self) -> (a: CopyAction)
        ensures
            a == self@.pending(),
    {
        match self {
            Direction::Reading => CopyAction::Read,
            Direction::Writing(_) => CopyAction::Write,
            Direction::Closing => CopyAction::Shutdown,
            Direction::Finished => CopyAction::Stop,
        }
    }

    /// The bytes to write, while a write is due.
    pub fn chunk(&self) -> (held: Option<&Vec<u8>>)
        ensures
            match held {
                Some(chunk) => self@ == DirectionView::Writing(chunk@),
                None => !(self@ is Writing),
            },
    {
        match self {
            Direction::Writing(chunk) => Some(chunk),
            _ => None,
        }
    }

    /// Takes note of how the awaited operation ended.
    pub fn step(self, event: CopyEvent) -> (d: Direction)
        ensures
            d@ == self@.next(event@),
    {
        match (self, event) {
            (Direction::Reading, CopyEvent::Read(chunk)) => {
                if chunk.len() > 0 {
                    Direction::Writing(chunk)
                } else {
                    Direction::Closing
                }
            },
            (Direction::Reading, CopyEvent::ReadFailed) => Direction::Closing,
            (Direction::Writing(_), CopyEvent::Written) => Direction::Reading,
            (Direction::Writing(_), CopyEvent::WriteFailed) => Direction::Finished,
            (Direction::Closing, CopyEvent::Closed) => Direction::Finished,
            (state, _) => state,
        }
    }
}

/// Whether no event of `events` reports a failed write.
pub open spec fn no_write_failed(events: Seq<CopyEventView>) -> bool {
    forall|i: int| 0 <= i < events.len() ==> !(#[trigger] events[i] is WriteFailed)
}

/// The account of the bytes of a direction that started in `start`.
proof fn lemma_account(start: DirectionView, events: Seq<CopyEventView>)
    ensures
        !(start.run(events) is Finished) || no_write_failed(events) ==> start.held()
            + start.bytes_read(events) == start.bytes_written(events) + start.run(events).held(),
        start.bytes_written(events).is_prefix_of(start.held() + start.bytes_read(events)),
    decreases events.len(),
{
    if events.len() > 0 {
        let before = events.drop_last();
        let event = events.last();
        let state = start.run(before);
        lemma_account(start, before);
        if no_write_failed(events) {
            assert(no_write_failed(before));
        }
        if !(state is Finished) && !(state.next(event) is Finished) {
            assert((start.bytes_written(before) + state.held()) + state.taken(event)
                =~= start.bytes_written(events) + state.next(event).held());
        }
    }
}

/// What has reached the sink is the beginning of what came from the source:
/// a direction makes up no byte, changes none and moves none, however the
/// reads cut the stream into pieces and whatever fails on the way.
pub proof fn lemma_written_is_prefix_of_read(events: Seq<CopyEventView>)
    ensures
        DirectionView::Reading.bytes_written(events).is_prefix_of(
            DirectionView::Reading.bytes_read(events),
        ),
{
    lemma_account(DirectionView::Reading, events);
    assert(DirectionView::Reading.held() + DirectionView::Reading.bytes_read(events)
        =~= DirectionView::Reading.bytes_read(events));
}

/// As long as no write has failed, every byte that came from the source has
/// reached the sink, but for the bytes that are being written at this moment.
pub proof fn lemma_nothing_is_lost(events: Seq<CopyEventView>)
    requires
        no_write_failed(events),
    ensures
        DirectionView::Reading.bytes_read(events) == DirectionView::Reading.bytes_written(events)
            + DirectionView::Reading.run(events).held(),
{
    lemma_account(DirectionView::Reading, events);
    assert(DirectionView::Reading.held() + DirectionView::Reading.bytes_read(events)
        =~= DirectionView::Reading.bytes_read(events));
}

/// A direction that is over stays over, whatever is reported to it.
pub proof fn lemma_finished_is_final(events: Seq<CopyEventView>)
    ensures
        DirectionView::Finished.run(events) == DirectionView::Finished,
    decreases events.len(),
{
    if events.len() > 0 {
        lemma_finished_is_final(events.drop_last());
    }
}

} // verus!
