//! What the write protocol asks of the transport, stated over a sequence of
//! requests and answers: the framing of one or two transfers by the select
//! line, and the rule that a control write is skipped when the register
//! already holds the value.

use vstd::prelude::*;
use crate::interface::{BusEvent, BusOp};
use crate::register::Config;
use crate::types::{Error, PhaseRegister};
use crate::wire::{
    be_bytes_u16, control_word, frequency_high_word, frequency_low_word, phase_word,
};

verus! {

/// The payload of one select-framed window.
pub enum Frame {
    /// One transfer.
    Single(Seq<u8>),
    /// Two transfers in the same window, in this order.
    Pair(Seq<u8>, Seq<u8>),
}

impl Frame {
    /// The byte sequences that the frame hands to the bus, in order.
    pub open spec fn payloads(self) -> Seq<Seq<u8>> {
        match self {
            Frame::Single(bytes) => seq![bytes],
            Frame::Pair(first, second) => seq![first, second],
        }
    }
}

/// `events` is one single-transfer frame of `bytes`: the line is selected;
/// if that fails nothing else happens; otherwise the bytes are transferred
/// and, whether or not the bus accepted them, the line is released.
pub open spec fn is_single_frame<E>(events: Seq<BusEvent<E>>, bytes: Seq<u8>) -> bool {
    &&& events.len() >= 1
    &&& events[0].op == BusOp::Select
    &&& if events[0].result is Err {
        events.len() == 1
    } else {
        &&& events.len() == 3
        &&& events[1].op == BusOp::Transfer(bytes)
        &&& events[2].op == BusOp::Deselect
    }
}

/// What a single-transfer frame reports: a select-line fault if selecting or
/// releasing failed, else a bus fault if the transfer failed, else success.
pub open spec fn single_frame_result<E>(events: Seq<BusEvent<E>>) -> Result<(), Error<E>> {
    if events[0].result is Err {
        Err(Error::CSPinError(events[0].result->Err_0))
    } else if events[2].result is Err {
        Err(Error::CSPinError(events[2].result->Err_0))
    } else if events[1].result is Err {
        Err(Error::Spi(events[1].result->Err_0))
    } else {
        Ok(())
    }
}

/// The requests of a two-transfer frame, in order.
pub open spec fn pair_plan(first: Seq<u8>, second: Seq<u8>) -> Seq<BusOp> {
    seq![BusOp::Select, BusOp::Transfer(first), BusOp::Transfer(second), BusOp::Deselect]
}

/// `events` is one two-transfer frame of `first` then `second`: the requests
/// of `pair_plan` are made in order, and the frame is abandoned at the first
/// request that fails.
pub open spec fn is_pair_frame<E>(
    events: Seq<BusEvent<E>>,
    first: Seq<u8>,
    second: Seq<u8>,
) -> bool {
    &&& 1 <= events.len() <= 4
    &&& forall|i: int|
        0 <= i < events.len() ==> (#[trigger] events[i]).op == pair_plan(first, second)[i]
    &&& forall|i: int| 0 <= i < events.len() - 1 ==> (#[trigger] events[i]).result is Ok
    &&& events.len() < 4 ==> events.last().result is Err
}

/// What a two-transfer frame reports: the fault of the request at which it
/// was abandoned, by the kind of that request, else success.
pub open spec fn pair_frame_result<E>(events: Seq<BusEvent<E>>) -> Result<(), Error<E>> {
    match events.last().result {
        Ok(_) => Ok(()),
        Err(e) => match events.last().op {
            BusOp::Transfer(_) => Err(Error::Spi(e)),
            _ => Err(Error::CSPinError(e)),
        },
    }
}

/// `events` is exactly one frame with the payload `frame`.
pub open spec fn is_frame<E>(events: Seq<BusEvent<E>>, frame: Frame) -> bool {
    match frame {
        Frame::Single(bytes) => is_single_frame(events, bytes),
        Frame::Pair(first, second) => is_pair_frame(events, first, second),
    }
}

/// What the frame `events` reports.
pub open spec fn frame_result<E>(events: Seq<BusEvent<E>>, frame: Frame) -> Result<(), Error<E>> {
    match frame {
        Frame::Single(_) => single_frame_result(events),
        Frame::Pair(_, _) => pair_frame_result(events),
    }
}

/// The frame that loads the 28-bit `value` into the frequency register tagged
/// `tag`: the low half first, the high half second.
pub open spec fn frequency_frame(tag: u16, value: u32) -> Frame {
    Frame::Pair(
        be_bytes_u16(frequency_low_word(tag, value)),
        be_bytes_u16(frequency_high_word(tag, value)),
    )
}

/// The frame that loads the 14-bit `value` into one half of the frequency
/// register tagged `tag`.
pub open spec fn half_frame(tag: u16, value: u16) -> Frame {
    Frame::Single(be_bytes_u16(tag | value))
}

/// The frame that loads the 12-bit `value` into the phase register
/// `register`.
pub open spec fn phase_frame(register: PhaseRegister, value: u16) -> Frame {
    Frame::Single(be_bytes_u16(phase_word(register, value)))
}

/// The frame that carries a control register value.
pub open spec fn control_frame(control: Config) -> Frame {
    Frame::Single(be_bytes_u16(control_word(control)))
}

/// `events` is a control update from `cached` to `target`: nothing at all
/// when the two are equal, else one frame with the control word of `target`.
pub open spec fn is_control_update<E>(
    events: Seq<BusEvent<E>>,
    cached: Config,
    target: Config,
) -> bool {
    if target == cached {
        events.len() == 0
    } else {
        is_frame(events, control_frame(target))
    }
}

/// What a control update reports.
pub open spec fn control_update_result<E>(
    events: Seq<BusEvent<E>>,
    cached: Config,
    target: Config,
) -> Result<(), Error<E>> {
    if target == cached {
        Ok(())
    } else {
        frame_result(events, control_frame(target))
    }
}

/// How many of the leading `events` belong to a control update from `cached`
/// to `target` that starts there.
pub open spec fn control_update_len<E>(
    events: Seq<BusEvent<E>>,
    cached: Config,
    target: Config,
) -> int {
    if target == cached {
        0
    } else if events.len() > 0 && events[0].result is Ok {
        3
    } else {
        1
    }
}

/// The control update at the start of `events`.
pub open spec fn update_part<E>(events: Seq<BusEvent<E>>, cached: Config, target: Config) -> Seq<
    BusEvent<E>,
> {
    events.take(control_update_len(events, cached, target))
}

/// What follows the control update at the start of `events`.
pub open spec fn data_part<E>(events: Seq<BusEvent<E>>, cached: Config, target: Config) -> Seq<
    BusEvent<E>,
> {
    events.skip(control_update_len(events, cached, target))
}

/// `events` is a register load: a control update from `cached` to `target`
/// and, only if that succeeded, one frame with the payload `data`.
pub open spec fn is_load<E>(
    events: Seq<BusEvent<E>>,
    cached: Config,
    target: Config,
    data: Frame,
) -> bool {
    &&& control_update_len(events, cached, target) <= events.len()
    &&& is_control_update(update_part(events, cached, target), cached, target)
    &&& if control_update_result(update_part(events, cached, target), cached, target) is Ok {
        is_frame(data_part(events, cached, target), data)
    } else {
        data_part(events, cached, target).len() == 0
    }
}

/// What a register load reports: the fault of the control update if it
/// failed, else what the data frame reports.
pub open spec fn load_result<E>(
    events: Seq<BusEvent<E>>,
    cached: Config,
    target: Config,
    data: Frame,
) -> Result<(), Error<E>> {
    match control_update_result(update_part(events, cached, target), cached, target) {
        Ok(_) => frame_result(data_part(events, cached, target), data),
        Err(e) => Err(e),
    }
}

/// The control value that the handle holds after a register load: `target`
/// once the control update has succeeded, whatever becomes of the data
/// frame, else `cached`.
pub open spec fn load_control<E>(
    events: Seq<BusEvent<E>>,
    cached: Config,
    target: Config,
) -> Config {
    if control_update_result(update_part(events, cached, target), cached, target) is Ok {
        target
    } else {
        cached
    }
}

/// A control update that failed is a whole register load: no data frame
/// follows it.
pub proof fn lemma_load_stopped<E>(events: Seq<BusEvent<E>>, cached: Config, target: Config)
    requires
        is_control_update(events, cached, target),
        control_update_result(events, cached, target) is Err,
    ensures
        update_part(events, cached, target) == events,
        data_part(events, cached, target).len() == 0,
{
    assert(events.take(events.len() as int) =~= events);
}

/// A control update that succeeded, followed by further requests, splits
/// into these two parts again: `before`, `between` and `after` are the traces
/// at the start, after the update and at the end.
pub proof fn lemma_load_completed<E>(
    before: Seq<BusEvent<E>>,
    between: Seq<BusEvent<E>>,
    after: Seq<BusEvent<E>>,
    cached: Config,
    target: Config,
)
    requires
        before.is_prefix_of(between),
        between.is_prefix_of(after),
        is_control_update(between.skip(before.len() as int), cached, target),
        control_update_result(between.skip(before.len() as int), cached, target) is Ok,
    ensures
        before.is_prefix_of(after),
        update_part(after.skip(before.len() as int), cached, target) == between.skip(
            before.len() as int,
        ),
        data_part(after.skip(before.len() as int), cached, target) == after.skip(
            between.len() as int,
        ),
{
    let events = after.skip(before.len() as int);
    let update = between.skip(before.len() as int);
    let n = control_update_len(events, cached, target);
    assert(n == update.len());
    assert(events.take(n) =~= update);
    assert(events.skip(n) =~= after.skip(between.len() as int));
}

} // verus!
