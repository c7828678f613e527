//! Properties that relate several operations, proved from the contracts of
//! the operations alone.

use vstd::prelude::*;
use crate::device::Ad983x;
use crate::interface::{transfers, BusEvent, BusOp, SerialBus};
use crate::protocol::{
    control_frame, data_part, frame_result, frequency_frame, is_frame, is_load, is_pair_frame,
    is_single_frame, load_result, pair_plan, update_part, Frame,
};
use crate::register::{BitFlags, Config};
use crate::types::{Error, FrequencyRegister};
use crate::wire::{
    be_bytes_u16, be_bytes_u32, be_value, control_word, frequency_high_word, frequency_low_word,
    frequency_of_words, frequency_tag,
};

verus! {

/// Replacing a field changes the bits of the field and no others.
pub proof fn lemma_with_field(control: Config, mask: u16, value: u16)
    requires
        value & !mask == 0,
    ensures
        control.with_field(mask, value).bits & mask == value,
        control.with_field(mask, value).bits & !mask == control.bits & !mask,
{
    let bits = control.bits;
    assert(((bits & !mask) | value) & mask == value) by (bit_vector)
        requires
            value & !mask == 0,
    ;
    assert(((bits & !mask) | value) & !mask == bits & !mask) by (bit_vector)
        requires
            value & !mask == 0,
    ;
}

/// A control word carries the address tag `00`: only the low fourteen bits
/// of a control value reach the wire.
pub proof fn lemma_control_word_is_untagged(control: Config)
    ensures
        control_word(control) < 0x4000,
        control_word(control) == control.bits % 0x4000,
{
    let bits = control.bits;
    assert(bits & 0x3FFF < 0x4000) by (bit_vector);
    assert(bits & 0x3FFF == bits % 0x4000) by (bit_vector);
}

/// The two bytes of a 16-bit word denote that word when read most
/// significant byte first.
pub proof fn lemma_be_bytes_u16_value(x: u16)
    ensures
        be_bytes_u16(x).len() == 2,
        be_value(be_bytes_u16(x)) == x,
{
    let bytes = be_bytes_u16(x);
    assert(bytes.drop_last() =~= seq![bytes[0]]);
    assert(bytes.drop_last().drop_last() =~= Seq::<u8>::empty());
    reveal_with_fuel(be_value, 3);
}

/// The four bytes of a 32-bit word denote that word when read most
/// significant byte first.
pub proof fn lemma_be_bytes_u32_value(x: u32)
    ensures
        be_bytes_u32(x).len() == 4,
        be_value(be_bytes_u32(x)) == x,
{
    let bytes = be_bytes_u32(x);
    let three = bytes.drop_last();
    let two = three.drop_last();
    let one = two.drop_last();
    assert(three =~= seq![bytes[0], bytes[1], bytes[2]]);
    assert(two =~= seq![bytes[0], bytes[1]]);
    assert(one =~= seq![bytes[0]]);
    assert(one.drop_last() =~= Seq::<u8>::empty());
    reveal_with_fuel(be_value, 5);
}

/// Splitting a 28-bit value into its two tagged words loses nothing: each
/// word keeps the address tag of the register, and the payloads of the low
/// word and of the high word give the value back.
pub proof fn lemma_frequency_round_trip(register: FrequencyRegister, value: u32)
    requires
        value < 0x1000_0000,
    ensures
        frequency_of_words(
            frequency_low_word(frequency_tag(register), value),
            frequency_high_word(frequency_tag(register), value),
        ) == value,
        frequency_low_word(frequency_tag(register), value) / 0x4000 == frequency_tag(register)
            / 0x4000,
        frequency_high_word(frequency_tag(register), value) / 0x4000 == frequency_tag(register)
            / 0x4000,
{
    let tag = frequency_tag(register);
    let low: u16 = (value % 0x4000) as u16;
    let high: u16 = (value / 0x4000 % 0x4000) as u16;
    assert(tag == 0x4000 || tag == 0x8000);
    assert((tag | low) % 0x4000 == low && (tag | low) / 0x4000 == tag / 0x4000) by (bit_vector)
        requires
            tag == 0x4000 || tag == 0x8000,
            low < 0x4000,
    ;
    assert((tag | high) % 0x4000 == high && (tag | high) / 0x4000 == tag / 0x4000) by (bit_vector)
        requires
            tag == 0x4000 || tag == 0x8000,
            high < 0x4000,
    ;
}

/// The same over the bytes on the wire: reading each of the two transfers of
/// a frequency frame as a big-endian word and joining the payloads gives the
/// value back.
pub proof fn lemma_frequency_frame_round_trip(register: FrequencyRegister, value: u32)
    requires
        value < 0x1000_0000,
    ensures
        frequency_frame(frequency_tag(register), value) is Pair,
        frequency_of_words(
            be_value(frequency_frame(frequency_tag(register), value)->Pair_0) as u16,
            be_value(frequency_frame(frequency_tag(register), value)->Pair_1) as u16,
        ) == value,
{
    let tag = frequency_tag(register);
    lemma_frequency_round_trip(register, value);
    lemma_be_bytes_u16_value(frequency_low_word(tag, value));
    lemma_be_bytes_u16_value(frequency_high_word(tag, value));
}

/// The transfers of two runs of requests, one after the other, are those of
/// the first followed by those of the second.
pub proof fn lemma_transfers_concat<E>(first: Seq<BusEvent<E>>, second: Seq<BusEvent<E>>)
    ensures
        transfers(first + second) == transfers(first) + transfers(second),
    decreases second.len(),
{
    if second.len() == 0 {
        assert(first + second =~= first);
        assert(transfers(first) + transfers(second) =~= transfers(first));
    } else {
        assert((first + second).drop_last() =~= first + second.drop_last());
        lemma_transfers_concat(first, second.drop_last());
        match second.last().op {
            BusOp::Transfer(bytes) => {
                assert(transfers(first) + transfers(second.drop_last()).push(bytes) =~= (transfers(
                    first,
                ) + transfers(second.drop_last())).push(bytes));
            },
            _ => {},
        }
    }
}

/// A single-transfer frame hands its bytes to the bus exactly once, unless
/// the line could not be selected, in which case the bus is not used.
pub proof fn lemma_transfers_of_single_frame<E>(events: Seq<BusEvent<E>>, bytes: Seq<u8>)
    requires
        is_single_frame(events, bytes),
    ensures
        transfers(events) == if events[0].result is Ok {
            seq![bytes]
        } else {
            Seq::<Seq<u8>>::empty()
        },
{
    reveal_with_fuel(transfers, 5);
    if events[0].result is Ok {
        let two = events.drop_last();
        let one = two.drop_last();
        assert(one.drop_last() =~= Seq::<BusEvent<E>>::empty());
        assert(one.last() == events[0]);
        assert(two.last() == events[1]);
        assert(transfers(one) =~= Seq::<Seq<u8>>::empty());
        assert(transfers(two) =~= seq![bytes]);
    } else {
        assert(events.drop_last() =~= Seq::<BusEvent<E>>::empty());
    }
}

/// A two-transfer frame that ran to its end handed the bus the first bytes
/// and then the second, and nothing else.
pub proof fn lemma_transfers_of_pair_frame<E>(
    events: Seq<BusEvent<E>>,
    first: Seq<u8>,
    second: Seq<u8>,
)
    requires
        is_pair_frame(events, first, second),
        events.len() == 4,
    ensures
        transfers(events) == seq![first, second],
{
    reveal_with_fuel(transfers, 6);
    let plan = pair_plan(first, second);
    let three = events.drop_last();
    let two = three.drop_last();
    let one = two.drop_last();
    assert(one.drop_last() =~= Seq::<BusEvent<E>>::empty());
    assert(events[0].op == plan[0]);
    assert(events[1].op == plan[1]);
    assert(events[2].op == plan[2]);
    assert(events[3].op == plan[3]);
    assert(one.last() == events[0]);
    assert(two.last() == events[1]);
    assert(three.last() == events[2]);
    assert(transfers(one) =~= Seq::<Seq<u8>>::empty());
    assert(transfers(two) =~= seq![first]);
    assert(transfers(three) =~= seq![first, second]);
}

/// A frame that reported success handed the bus exactly its payloads.
pub proof fn lemma_transfers_of_frame<E>(events: Seq<BusEvent<E>>, frame: Frame)
    requires
        is_frame(events, frame),
        frame_result(events, frame) is Ok,
    ensures
        transfers(events) == frame.payloads(),
{
    match frame {
        Frame::Single(bytes) => {
            lemma_transfers_of_single_frame(events, bytes);
        },
        Frame::Pair(first, second) => {
            lemma_transfers_of_pair_frame(events, first, second);
        },
    }
}

/// A register load that reported success handed the bus the control word of
/// the new mode, unless the device was in that mode already, and then the
/// payloads of the data frame, and nothing else.
pub proof fn lemma_transfers_of_load<E>(
    events: Seq<BusEvent<E>>,
    cached: Config,
    target: Config,
    data: Frame,
)
    requires
        is_load(events, cached, target, data),
        load_result(events, cached, target, data) is Ok,
    ensures
        transfers(events) == if target == cached {
            data.payloads()
        } else {
            seq![be_bytes_u16(control_word(target))] + data.payloads()
        },
{
    let update = update_part(events, cached, target);
    let rest = data_part(events, cached, target);
    assert(events =~= update + rest);
    lemma_transfers_concat(update, rest);
    lemma_transfers_of_frame(rest, data);
    if target == cached {
        assert(update =~= Seq::<BusEvent<E>>::empty());
        assert(Seq::<Seq<u8>>::empty() + data.payloads() =~= data.payloads());
    } else {
        lemma_transfers_of_frame(update, control_frame(target));
    }
}

/// What a handle has issued since `start` is what it had issued by `middle`
/// followed by what it has issued since.
pub proof fn lemma_issued_since_splits<DEV: SerialBus, CS, IC>(
    start: Ad983x<DEV, CS, IC>,
    middle: Ad983x<DEV, CS, IC>,
    end: Ad983x<DEV, CS, IC>,
)
    requires
        middle.continues(start),
        end.continues(middle),
    ensures
        end.continues(start),
        end.issued_since(start) == middle.issued_since(start) + end.issued_since(middle),
{
    assert(end.issued_since(start) =~= middle.issued_since(start) + end.issued_since(middle));
}

/// Updating the control register to the same value twice in a row sends it
/// at most once: when the first update has succeeded, the second sends
/// nothing and leaves the handle as it is, so the two together make exactly
/// one transfer if the value was new and none if it was cached before.
pub proof fn lemma_repeated_control_update<DEV: SerialBus, CS, IC>(
    start: Ad983x<DEV, CS, IC>,
    middle: Ad983x<DEV, CS, IC>,
    end: Ad983x<DEV, CS, IC>,
    target: Config,
    first: Result<(), Error<DEV::Error>>,
    second: Result<(), Error<DEV::Error>>,
)
    requires
        middle.updated_control(start, target, first),
        first is Ok,
        end.updated_control(middle, target, second),
    ensures
        second is Ok,
        end == middle,
        end.issued_since(middle).len() == 0,
        transfers(end.issued_since(start)) == if target == start.control() {
            Seq::<Seq<u8>>::empty()
        } else {
            seq![be_bytes_u16(control_word(target))]
        },
{
    lemma_issued_since_splits(start, middle, end);
    let events = middle.issued_since(start);
    assert(events + end.issued_since(middle) =~= events);
    if target != start.control() {
        lemma_transfers_of_single_frame(events, be_bytes_u16(control_word(target)));
    } else {
        assert(events =~= Seq::<BusEvent<DEV::Error>>::empty());
    }
}

/// Enabling is never skipped: a second `enable` right after a first sends
/// its frame again, and when both succeed the bus has seen the same control
/// word twice.
pub proof fn lemma_enable_twice_sends_twice<DEV: SerialBus, CS, IC>(
    start: Ad983x<DEV, CS, IC>,
    middle: Ad983x<DEV, CS, IC>,
    end: Ad983x<DEV, CS, IC>,
    first: Result<(), Error<DEV::Error>>,
    second: Result<(), Error<DEV::Error>>,
)
    requires
        middle.wrote_control(start, start.control().enabled(), first),
        end.wrote_control(middle, middle.control().enabled(), second),
    ensures
        end.issued_since(middle).len() >= 1,
        end.issued_since(middle)[0].op == BusOp::Select,
        first is Ok && second is Ok ==> transfers(end.issued_since(start)) == seq![
            be_bytes_u16(control_word(start.control().enabled())),
            be_bytes_u16(control_word(start.control().enabled())),
        ],
{
    if first is Ok && second is Ok {
        let bits = start.control().bits;
        assert((((bits & !0x0100u16) | 0u16) & !0x0100u16) | 0u16 == (bits & !0x0100u16) | 0u16)
            by (bit_vector);
        let word = be_bytes_u16(control_word(start.control().enabled()));
        lemma_issued_since_splits(start, middle, end);
        lemma_transfers_concat(middle.issued_since(start), end.issued_since(middle));
        lemma_transfers_of_single_frame(middle.issued_since(start), word);
        lemma_transfers_of_single_frame(end.issued_since(middle), word);
        assert(seq![word] + seq![word] =~= seq![word, word]);
    }
}

/// `reset` and `disable` are one operation: from the same handle, each sends
/// the control word of the cached value with the reset bit set, and each
/// caches that value once the write has succeeded.
pub proof fn lemma_reset_is_disable<DEV: SerialBus, CS, IC>(
    start: Ad983x<DEV, CS, IC>,
    after_reset: Ad983x<DEV, CS, IC>,
    after_disable: Ad983x<DEV, CS, IC>,
    reset: Result<(), Error<DEV::Error>>,
    disable: Result<(), Error<DEV::Error>>,
)
    requires
        after_reset.wrote_control(start, start.control().disabled(), reset),
        after_disable.wrote_control(start, start.control().disabled(), disable),
        reset is Ok,
        disable is Ok,
    ensures
        transfers(after_reset.issued_since(start)) == transfers(after_disable.issued_since(start)),
        transfers(after_reset.issued_since(start)) == seq![
            be_bytes_u16(control_word(start.control().disabled())),
        ],
        after_reset.control() == after_disable.control(),
        after_reset.control().has(BitFlags::RESET),
{
    let word = be_bytes_u16(control_word(start.control().disabled()));
    lemma_transfers_of_single_frame(after_reset.issued_since(start), word);
    lemma_transfers_of_single_frame(after_disable.issued_since(start), word);
    let bits = start.control().bits;
    assert(((bits & !0x0100u16) | 0x0100u16) & 0x0100u16 == 0x0100u16) by (bit_vector);
}

/// The cache never runs ahead of the wire: a control write or a control
/// update changes the cached value only when its frame has gone through
/// whole, and then the one transfer made was the control word of the new
/// value.
pub proof fn lemma_cache_follows_control_write<DEV: SerialBus, CS, IC>(
    start: Ad983x<DEV, CS, IC>,
    end: Ad983x<DEV, CS, IC>,
    target: Config,
    r: Result<(), Error<DEV::Error>>,
)
    requires
        end.wrote_control(start, target, r) || end.updated_control(start, target, r),
        end.control() != start.control(),
    ensures
        r is Ok,
        end.control() == target,
        transfers(end.issued_since(start)) == seq![be_bytes_u16(control_word(target))],
{
    lemma_transfers_of_frame(end.issued_since(start), control_frame(target));
}

/// The same for a register load: it changes the cached value only when its
/// control update has gone through whole, and then the first transfer made
/// was the control word of the new value.
pub proof fn lemma_cache_follows_load<DEV: SerialBus, CS, IC>(
    start: Ad983x<DEV, CS, IC>,
    end: Ad983x<DEV, CS, IC>,
    target: Config,
    data: Frame,
    r: Result<(), Error<DEV::Error>>,
)
    requires
        end.loaded(start, target, data, r),
        end.control() != start.control(),
    ensures
        end.control() == target,
        transfers(end.issued_since(start)).len() >= 1,
        transfers(end.issued_since(start))[0] == be_bytes_u16(control_word(target)),
{
    let events = end.issued_since(start);
    let update = update_part(events, start.control(), target);
    let rest = data_part(events, start.control(), target);
    assert(events =~= update + rest);
    lemma_transfers_concat(update, rest);
    lemma_transfers_of_frame(update, control_frame(target));
}

} // verus!
