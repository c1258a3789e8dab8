//! Bridging a Unix stream and a QUIC stream: what the end of each direction means.

use vstd::prelude::*;

verus! {

/// The two directions of a bridge.
#[derive(Debug, Clone, Copy, PartialEq, Eq, Structural)]
pub enum Direction {
    /// From the Unix stream to the QUIC stream.
    Up,
    /// From the QUIC stream to the Unix stream.
    Down,
}

/// The kinds of errors that copying a stream may end with, as far as they matter.
#[derive(Debug, Clone, Copy, PartialEq, Eq, Structural)]
pub enum StreamErrorKind {
    ConnectionReset,
    BrokenPipe,
    UnexpectedEof,
    Other,
}

/// Whether an error is what the other side's leaving looks like.
pub open spec fn is_departure(kind: StreamErrorKind) -> bool {
    ||| kind == StreamErrorKind::ConnectionReset
    ||| kind == StreamErrorKind::BrokenPipe
    ||| kind == StreamErrorKind::UnexpectedEof
}

/// Whether the end of a direction deserves a warning: an error that is no departure.
pub open spec fn deserves_warning(outcome: Result<(), StreamErrorKind>) -> bool {
    outcome matches Err(kind) && !is_departure(kind)
}

/// What to do when a direction has ended.
#[derive(Debug, Clone, Copy, PartialEq, Eq, Structural)]
pub struct DirectionEnd {
    /// Tell the remote peer that nothing more will be written.
    pub finish_send: bool,
    /// Warn about the error.
    pub warn: bool,
}

/// Which directions of a bridge have ended.
#[derive(Debug, Clone, Copy, PartialEq, Eq, Structural)]
pub struct BridgeProgress {
    pub up_over: bool,
    pub down_over: bool,
}

/// Whether a direction has ended.
pub open spec fn direction_ended(progress: BridgeProgress, direction: Direction) -> bool {
    match direction {
        Direction::Up => progress.up_over,
        Direction::Down => progress.down_over,
    }
}

/// A bridge on which the given directions have ended, one after the other.
pub open spec fn progress_after(ends: Seq<Direction>) -> BridgeProgress
    decreases ends.len(),
{
    if ends.len() == 0 {
        BridgeProgress { up_over: false, down_over: false }
    } else {
        end_direction(progress_after(ends.drop_last()), ends.last())
    }
}

/// The bridge once a direction has ended.
pub open spec fn end_direction(progress: BridgeProgress, direction: Direction) -> BridgeProgress {
    match direction {
        Direction::Up => BridgeProgress { up_over: true, ..progress },
        Direction::Down => BridgeProgress { down_over: true, ..progress },
    }
}

/// Whether a bridge is over: both directions have ended.
pub open spec fn bridge_over(progress: BridgeProgress) -> bool {
    progress.up_over && progress.down_over
}

/// Whether `end` is what to do when a direction has ended in this way.
pub open spec fn end_handled(
    direction: Direction,
    outcome: Result<(), StreamErrorKind>,
    end: DirectionEnd,
) -> bool {
    &&& end.finish_send <==> direction == Direction::Up
    &&& end.warn <==> deserves_warning(outcome)
}

impl BridgeProgress {
    /// A bridge on which data flows in both directions.
    pub fn new() -> (progress: BridgeProgress)
        ensures
            progress == progress_after(Seq::empty()),
    {
        BridgeProgress { up_over: false, down_over: false }
    }

    /// Takes note that a direction has ended, and says what to do about it. The sending side is
    /// finished when the way up has ended, well or not.
    pub fn end(&mut self, direction: Direction, outcome: Result<(), StreamErrorKind>) -> (end:
        DirectionEnd)
        ensures
            *final(self) == end_direction(*old(self), direction),
            end_handled(direction, outcome, end),
            end.finish_send <==> direction == Direction::Up,
            end.warn <==> deserves_warning(outcome),
    {
        let finish_send = match direction {
            Direction::Up => {
                self.up_over = true;
                true
            },
            Direction::Down => {
                self.down_over = true;
                false
            },
        };
        let warn = match outcome {
            Ok(()) => false,
            Err(kind) => kind != StreamErrorKind::ConnectionReset && kind
                != StreamErrorKind::BrokenPipe && kind != StreamErrorKind::UnexpectedEof,
        };
        DirectionEnd { finish_send, warn }
    }

    /// Whether the bridge is over.
    pub fn is_over(&self) -> (over: bool)
        ensures
            over == bridge_over(*self),
    {
        self.up_over && self.down_over
    }
}

/// Law: when one direction ends, the other may go on until it ends too; the bridge is over
/// exactly when both have ended, in whatever order.
pub proof fn bridge_waits_for_both_directions(ends: Seq<Direction>)
    ensures
        bridge_over(progress_after(ends)) <==> ends.contains(Direction::Up) && ends.contains(
            Direction::Down,
        ),
        forall|direction: Direction| #[trigger]
            direction_ended(progress_after(ends), direction) <==> ends.contains(direction),
    decreases ends.len(),
{
    if ends.len() > 0 {
        let before = ends.drop_last();
        bridge_waits_for_both_directions(before);
        assert forall|direction: Direction| #[trigger]
            direction_ended(progress_after(ends), direction) implies ends.contains(direction) by {
            if direction != ends.last() {
                assert(direction_ended(progress_after(before), direction));
                let i = choose|i: int| 0 <= i < before.len() && before[i] == direction;
                assert(ends[i] == direction);
            } else {
                assert(ends[ends.len() - 1] == direction);
            }
        }
        assert forall|direction: Direction| #[trigger] ends.contains(
            direction,
        ) implies direction_ended(progress_after(ends), direction) by {
            if direction != ends.last() {
                let i = choose|i: int| 0 <= i < ends.len() && ends[i] == direction;
                assert(before[i] == direction);
                assert(direction_ended(progress_after(before), direction));
            }
        }
    }
    assert(direction_ended(progress_after(ends), Direction::Up) <==> ends.contains(Direction::Up));
    assert(direction_ended(progress_after(ends), Direction::Down) <==> ends.contains(
        Direction::Down,
    ));
}

/// Law: the remote peer is told that nothing more will come whenever the way up has ended, well or
/// not, and never when the way down has.
pub proof fn way_up_is_finished_however_it_ends(
    direction: Direction,
    outcome: Result<(), StreamErrorKind>,
    end: DirectionEnd,
)
    requires
        end_handled(direction, outcome, end),
    ensures
        direction == Direction::Up ==> end.finish_send,
        direction == Direction::Down ==> !end.finish_send,
{
}

/// Law: that the other side leaves is no reason for a warning, in either direction, and neither is
/// a good end. Every other error is.
pub proof fn only_other_errors_deserve_a_warning(
    direction: Direction,
    outcome: Result<(), StreamErrorKind>,
    end: DirectionEnd,
)
    requires
        end_handled(direction, outcome, end),
    ensures
        match outcome {
            Ok(_) => !end.warn,
            Err(StreamErrorKind::ConnectionReset) => !end.warn,
            Err(StreamErrorKind::BrokenPipe) => !end.warn,
            Err(StreamErrorKind::UnexpectedEof) => !end.warn,
            Err(StreamErrorKind::Other) => end.warn,
        },
{
}

/// Law: the end of one direction leaves the other as it is, and a bridge is over exactly when both
/// have ended.
pub proof fn end_of_one_direction_leaves_the_other(progress: BridgeProgress)
    ensures
        end_direction(progress, Direction::Up).up_over,
        end_direction(progress, Direction::Up).down_over == progress.down_over,
        end_direction(progress, Direction::Down).down_over,
        end_direction(progress, Direction::Down).up_over == progress.up_over,
        bridge_over(progress) <==> progress.up_over && progress.down_over,
{
}

} // verus!
