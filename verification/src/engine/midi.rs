//! MIDI continuous-controller messages: how a control value becomes one of the
//! 128 controller values, and the outbound queue that the audio callback reads.

use std::collections::VecDeque;
use vstd::prelude::*;
use vstd::arithmetic::div_mod::*;
use vstd::arithmetic::power2::*;
use crate::engine::MidiMessage;
use crate::number::{exact_sign, Single};

verus! {

/// The controller for track volume: the standard MIDI volume controller.
pub const CC_VOLUME: u8 = 7;

/// The controller for track panning: the standard MIDI pan controller.
pub const CC_PAN: u8 = 10;

/// The controller for track mute, bound in the DAW by MIDI learn.
pub const CC_MUTE: u8 = 119;

/// The controller for track solo, bound in the DAW by MIDI learn.
pub const CC_SOLO: u8 = 118;

/// The status byte of a control change on channel 0.
pub const CONTROL_CHANGE: u8 = 0xB0;

/// The highest controller value.
pub const CC_MAX: u8 = 127;

/// The controller value for the position `a / b` of a range of width `b`,
/// where `b` is not negative: 0 at or before the start, 127 at or after the
/// end, and between them 127 times the position, rounded to the nearest
/// integer, a half upwards.
pub open spec fn ratio_value(a: int, b: int) -> int {
    if a <= 0 {
        0
    } else if a >= b {
        127
    } else {
        (254 * a + b) / (2 * b)
    }
}

/// Whether the width of a range with these finite ends is the negative zero of
/// binary32 subtraction: only when negative zero stands over positive zero.
pub open spec fn negative_zero_width(min: Single, max: Single) -> bool {
    max.bits == 0x8000_0000 && min.bits == 0
}

/// The direction of a range with finite ends: 1 where it rises from `min` to
/// `max`, -1 where it falls. A range of no width follows the sign of its zero.
pub open spec fn direction(min: Single, max: Single) -> int {
    let b = max.scaled() - min.scaled();
    if b > 0 || (b == 0 && !negative_zero_width(min, max)) {
        1
    } else {
        -1
    }
}

/// The controller value for `value` on the range from `min` to `max`.
///
/// For three finite numbers it is `ratio_value` of the exact distances, taken
/// in the direction of the range. Where a number is missing (a NaN among the
/// three, an infinite end) it is 0. An infinite value lies beyond the end that
/// it points to.
pub open spec fn midi_value(min: Single, max: Single, value: Single) -> int {
    if min.is_nan() || max.is_nan() || value.is_nan() {
        0
    } else if !min.is_finite() || !max.is_finite() {
        0
    } else if !value.is_finite() {
        if value.negative() == (direction(min, max) < 0) {
            127
        } else {
            0
        }
    } else {
        ratio_value(
            direction(min, max) * (value.scaled() - min.scaled()),
            direction(min, max) * (max.scaled() - min.scaled()),
        )
    }
}

/// A quotient that lies between two neighbours is the lower one.
proof fn lemma_quotient_between(x: int, d: int, k: int)
    requires
        d > 0,
        k * d <= x < (k + 1) * d,
    ensures
        x / d == k,
{
    assert((k + 1) * d == k * d + d) by (nonlinear_arith);
    lemma_fundamental_div_mod_converse(x, d, k, x - k * d);
}

/// A weighted comparison of a distance from the start with the width of the
/// range, written over the three numbers: `c` times the directed distance of
/// `v` from `lo`, less `s` times the directed width from `lo` to `hi`.
proof fn lemma_directed_form(dir: int, c: int, s: int, v: int, hi: int, lo: int)
    requires
        dir == 1 || dir == -1,
    ensures
        (c * dir) * v + (-s * dir) * hi + ((s - c) * dir) * lo == c * (dir * (v - lo)) - s * (dir
            * (hi - lo)),
{
    if dir == 1 {
        assert((c * dir) * v == c * v) by (nonlinear_arith)
            requires
                dir == 1,
        ;
        assert((-s * dir) * hi == -(s * hi)) by (nonlinear_arith)
            requires
                dir == 1,
        ;
        assert(((s - c) * dir) * lo == s * lo - c * lo) by (nonlinear_arith)
            requires
                dir == 1,
        ;
        assert(c * (dir * (v - lo)) == c * v - c * lo) by (nonlinear_arith)
            requires
                dir == 1,
        ;
        assert(s * (dir * (hi - lo)) == s * hi - s * lo) by (nonlinear_arith)
            requires
                dir == 1,
        ;
    } else {
        assert((c * dir) * v == -(c * v)) by (nonlinear_arith)
            requires
                dir == -1,
        ;
        assert((-s * dir) * hi == s * hi) by (nonlinear_arith)
            requires
                dir == -1,
        ;
        assert(((s - c) * dir) * lo == c * lo - s * lo) by (nonlinear_arith)
            requires
                dir == -1,
        ;
        assert(c * (dir * (v - lo)) == c * lo - c * v) by (nonlinear_arith)
            requires
                dir == -1,
        ;
        assert(s * (dir * (hi - lo)) == s * lo - s * hi) by (nonlinear_arith)
            requires
                dir == -1,
        ;
    }
}

/// The controller value for `value` between two finite ends, by exact
/// comparisons: no distance is rounded.
fn ratio_cc(dir: i32, min: Single, max: Single, value: Single) -> (cc: u8)
    requires
        min.is_finite(),
        max.is_finite(),
        value.is_finite(),
        dir == 1 || dir == -1,
        dir * (max.scaled() - min.scaled()) >= 0,
    ensures
        cc == ratio_value(
            dir * (value.scaled() - min.scaled()),
            dir * (max.scaled() - min.scaled()),
        ),
{
    let ghost a = dir * (value.scaled() - min.scaled());
    let ghost b = dir * (max.scaled() - min.scaled());
    let ghost v = value.scaled();
    let ghost lo = min.scaled();
    let ghost hi = max.scaled();
    let from_start = exact_sign(dir, value, 0, max, -dir, min);
    proof {
        lemma_directed_form(dir as int, 1, 0, v, hi, lo);
    }
    assert(dir * v + 0 * hi + (-dir) * lo == a);
    if from_start <= 0 {
        return 0;
    }
    let from_end = exact_sign(dir, value, -dir, max, 0, min);
    proof {
        lemma_directed_form(dir as int, 1, 1, v, hi, lo);
    }
    assert(dir * v + (-dir) * hi + 0 * lo == a - b);
    if from_end >= 0 {
        return 127;
    }
    let mut k: u8 = 0;
    while k < 127
        invariant_except_break
            k <= 127,
            k == 0 || 254 * a >= (2 * k - 1) * b,
        invariant
            min.is_finite(),
            max.is_finite(),
            value.is_finite(),
            dir == 1 || dir == -1,
            a == dir * (v - lo),
            b == dir * (hi - lo),
            v == value.scaled(),
            lo == min.scaled(),
            hi == max.scaled(),
            0 < a < b,
        ensures
            k <= 127,
            k == 0 || 254 * a >= (2 * k - 1) * b,
            k < 127 ==> 254 * a < (2 * k + 1) * b,
        decreases 127 - k,
    {
        let step: i32 = 2 * (k as i32) + 1;
        let s = exact_sign(254 * dir, value, -step * dir, max, (step - 254) * dir, min);
        proof {
            lemma_directed_form(dir as int, 254, step as int, v, hi, lo);
        }
        assert((254 * dir) * v + (-step * dir) * hi + ((step - 254) * dir) * lo == 254 * a - step
            * b);
        if s < 0 {
            break ;
        }
        k = k + 1;
    }
    proof {
        if k < 127 {
            assert((k + 1) * (2 * b) == (2 * k + 1) * b + b) by (nonlinear_arith);
            assert(k * (2 * b) == (2 * k - 1) * b + b) by (nonlinear_arith);
            lemma_quotient_between(254 * a + b, 2 * b, k as int);
        } else {
            assert((2 * 127 - 1) * b == 253 * b) by (nonlinear_arith);
            assert(127 * (2 * b) == 254 * b) by (nonlinear_arith);
            assert((127 + 1) * (2 * b) == 256 * b) by (nonlinear_arith);
            lemma_quotient_between(254 * a + b, 2 * b, 127);
        }
    }
    k
}

/// Maps `value` on the range from `min` to `max` to a controller value from 0
/// to 127: the position in the range, held to the range, times 127, rounded
/// to the nearest integer.
pub fn midi_cc(min: Single, max: Single, value: Single) -> (cc: u8)
    ensures
        cc == midi_value(min, max, value),
        cc <= CC_MAX,
{
    if min.nan() || max.nan() || value.nan() {
        return 0;
    }
    if !min.finite() || !max.finite() {
        return 0;
    }
    let width = exact_sign(0, max, 1, max, -1, min);
    let rising = width > 0 || (width == 0 && !(max.bits == 0x8000_0000 && min.bits == 0));
    assert(rising == (direction(min, max) == 1));
    if !value.finite() {
        return if value.sign_bit() == !rising {
            127
        } else {
            0
        };
    }
    let dir: i32 = if rising {
        1
    } else {
        -1
    };
    let cc = ratio_cc(dir, min, max, value);
    proof {
        lemma_ratio_value_bounds(
            dir * (value.scaled() - min.scaled()),
            dir * (max.scaled() - min.scaled()),
        );
    }
    cc
}

/// A controller value lies between 0 and 127.
pub proof fn lemma_ratio_value_bounds(a: int, b: int)
    requires
        b >= 0,
    ensures
        0 <= ratio_value(a, b) <= 127,
{
    if 0 < a < b {
        assert(0 * (2 * b) <= 254 * a + b);
        lemma_div_is_ordered(0, 254 * a + b, 2 * b);
        assert(254 * a + b <= 127 * (2 * b) + b);
        lemma_div_is_ordered(254 * a + b, 127 * (2 * b) + b, 2 * b);
        lemma_quotient_between(127 * (2 * b) + b, 2 * b, 127);
        lemma_quotient_between(0, 2 * b, 0);
    }
}

/// The controller value of the position `a` is monotonic in `a`.
pub proof fn lemma_ratio_value_monotonic(a1: int, a2: int, b: int)
    requires
        b >= 0,
        a1 <= a2,
    ensures
        ratio_value(a1, b) <= ratio_value(a2, b),
{
    lemma_ratio_value_bounds(a1, b);
    lemma_ratio_value_bounds(a2, b);
    if 0 < a1 && a2 < b {
        lemma_div_is_ordered(254 * a1 + b, 254 * a2 + b, 2 * b);
    }
}

/// The mapping is monotonic: of two values that are numbers, the one that is
/// not smaller gets a controller value that is not smaller where the range
/// rises, and not larger where it falls. (Where an end of the range is not
/// finite, every value maps to 0.)
pub proof fn lemma_mapping_is_monotonic(min: Single, max: Single, v1: Single, v2: Single)
    requires
        !v1.is_nan(),
        !v2.is_nan(),
        v1.at_most(v2),
    ensures
        direction(min, max) == 1 ==> midi_value(min, max, v1) <= midi_value(min, max, v2),
        direction(min, max) == -1 ==> midi_value(min, max, v1) >= midi_value(min, max, v2),
{
    if min.is_finite() && max.is_finite() {
        let d = direction(min, max);
        let b = d * (max.scaled() - min.scaled());
        assert(b >= 0) by (nonlinear_arith)
            requires
                b == d * (max.scaled() - min.scaled()),
                d == 1 && max.scaled() - min.scaled() >= 0 || d == -1 && max.scaled()
                    - min.scaled() <= 0,
        ;
        if v1.is_finite() {
            lemma_ratio_value_bounds(d * (v1.scaled() - min.scaled()), b);
        }
        if v2.is_finite() {
            lemma_ratio_value_bounds(d * (v2.scaled() - min.scaled()), b);
        }
        if v1.is_finite() && v2.is_finite() {
            let a1 = d * (v1.scaled() - min.scaled());
            let a2 = d * (v2.scaled() - min.scaled());
            if d == 1 {
                assert(a1 <= a2) by (nonlinear_arith)
                    requires
                        d == 1,
                        a1 == d * (v1.scaled() - min.scaled()),
                        a2 == d * (v2.scaled() - min.scaled()),
                        v1.scaled() <= v2.scaled(),
                ;
                lemma_ratio_value_monotonic(a1, a2, b);
            } else {
                assert(a2 <= a1) by (nonlinear_arith)
                    requires
                        d == -1,
                        a1 == d * (v1.scaled() - min.scaled()),
                        a2 == d * (v2.scaled() - min.scaled()),
                        v1.scaled() <= v2.scaled(),
                ;
                lemma_ratio_value_monotonic(a2, a1, b);
            }
        }
    }
}

/// The mapping clamps: on a range that rises between two finite ends, a value
/// at or below `min` maps to 0 and a value at or above `max` maps to 127; on a
/// range that falls, the same holds with the order turned round.
pub proof fn lemma_mapping_clamps(min: Single, max: Single, value: Single)
    requires
        min.is_finite(),
        max.is_finite(),
        min.scaled() != max.scaled(),
        !value.is_nan(),
    ensures
        min.scaled() < max.scaled() && value.at_most(min) ==> midi_value(min, max, value) == 0,
        min.scaled() < max.scaled() && max.at_most(value) ==> midi_value(min, max, value) == 127,
        min.scaled() > max.scaled() && min.at_most(value) ==> midi_value(min, max, value) == 0,
        min.scaled() > max.scaled() && value.at_most(max) ==> midi_value(min, max, value) == 127,
{
    let d = direction(min, max);
    if value.is_finite() {
        let a = d * (value.scaled() - min.scaled());
        let b = d * (max.scaled() - min.scaled());
        assert(d == 1 ==> a == value.scaled() - min.scaled() && b == max.scaled() - min.scaled())
            by (nonlinear_arith)
            requires
                a == d * (value.scaled() - min.scaled()),
                b == d * (max.scaled() - min.scaled()),
        ;
        assert(d == -1 ==> a == min.scaled() - value.scaled() && b == min.scaled() - max.scaled())
            by (nonlinear_arith)
            requires
                a == d * (value.scaled() - min.scaled()),
                b == d * (max.scaled() - min.scaled()),
        ;
    }
}

/// The midpoint of the pan range maps to exactly 64, whichever zero stands for it.
pub proof fn lemma_pan_midpoint(pan: Single)
    requires
        pan.bits == 0 || pan.bits == 0x8000_0000,
    ensures
        pan_value(pan) == 64,
{
    lemma2_to64();
    lemma_pow2_adds(23, 126);
    let p = pow2(149) as int;
    let hi = Single { bits: 0x3F80_0000 };
    let lo = Single { bits: 0xBF80_0000 };
    assert(hi.scaled() == p);
    assert(lo.scaled() == -p);
    assert(pan.significand() == 0);
    assert(pan.significand() * pow2(pan.shift()) == 0) by (nonlinear_arith)
        requires
            pan.significand() == 0,
    ;
    assert(pan.scaled() == 0);
    lemma_pow2_pos(149);
    assert(direction(lo, hi) == 1);
    assert(1 * (pan.scaled() - lo.scaled()) == p);
    assert(1 * (hi.scaled() - lo.scaled()) == 2 * p);
    assert(64 * (2 * (2 * p)) == 254 * p + 2 * p);
    lemma_quotient_between(254 * p + 2 * p, 2 * (2 * p), 64);
}

/// The controller value of a track volume: the linear gain on the range from 0 to 1.
pub open spec fn volume_value(volume: Single) -> int {
    midi_value(Single { bits: 0 }, Single { bits: 0x3F80_0000 }, volume)
}

/// The controller value of a track panning, on the range from -1 to 1.
pub open spec fn pan_value(pan: Single) -> int {
    midi_value(Single { bits: 0xBF80_0000 }, Single { bits: 0x3F80_0000 }, pan)
}

/// The controller value of a switch: 127 for on, 0 for off.
pub open spec fn switch_value(on: bool) -> int {
    if on {
        127
    } else {
        0
    }
}

/// Maps a linear gain from 0 to 1 to a controller value.
pub fn volume_cc(volume: Single) -> (cc: u8)
    ensures
        cc == volume_value(volume),
        cc <= CC_MAX,
{
    midi_cc(Single::zero(), Single::one(), volume)
}

/// Maps a panning from -1 to 1 to a controller value. The centre maps to 64.
pub fn pan_cc(pan: Single) -> (cc: u8)
    ensures
        cc == pan_value(pan),
        cc <= CC_MAX,
{
    midi_cc(Single::minus_one(), Single::one(), pan)
}

/// Maps a switch to a controller value.
pub fn switch_cc(on: bool) -> (cc: u8)
    ensures
        cc == switch_value(on),
{
    if on {
        127
    } else {
        0
    }
}

/// The status byte of a control change on `channel`.
pub open spec fn status_byte(channel: u8) -> u8 {
    CONTROL_CHANGE | channel
}

/// On the sixteen MIDI channels the status byte is `0xB0` plus the channel.
pub proof fn lemma_status_byte_of_channel(channel: u8)
    requires
        channel < 16,
    ensures
        status_byte(channel) == 0xB0 + channel,
{
    assert(channel < 16 ==> 0xB0u8 | channel == 0xB0u8 + channel) by (bit_vector);
}

/// The control-change message that sets `controller` to `value` on `channel`.
pub fn control_change(channel: u8, controller: u8, value: u8) -> (message: MidiMessage)
    ensures
        message == (MidiMessage { status: status_byte(channel), controller: controller, value: value }),
{
    MidiMessage { status: CONTROL_CHANGE | channel, controller, value }
}

/// A MIDI message with its place in a processing cycle.
#[derive(Debug, Clone, Copy, PartialEq, Eq, Structural)]
pub struct TimedMidi {
    /// The frame offset in the cycle.
    pub time: u32,
    pub message: MidiMessage,
}

/// What a cycle offers to the audio server: each waiting message in the order
/// in which it was queued, at the frame offset of its place in the queue.
pub open spec fn timed(messages: Seq<MidiMessage>) -> Seq<TimedMidi> {
    Seq::new(messages.len(), |i: int| TimedMidi { time: i as u32, message: messages[i] })
}

/// What stays in a queue of which the first `written` messages reached the
/// port: the others, in their order.
pub open spec fn unwritten(queue: Seq<MidiMessage>, written: int) -> Seq<MidiMessage> {
    if written <= 0 {
        queue
    } else if written >= queue.len() {
        Seq::empty()
    } else {
        queue.subrange(written, queue.len() as int)
    }
}

/// The outbound queue of MIDI messages, first in, first out. Command handlers
/// push. The audio callback reads it once per processing cycle, and only in a
/// cycle in which it gets the queue without waiting; a message leaves the
/// queue when the host confirms that the port has taken it.
pub struct MidiQueue {
    pending: VecDeque<MidiMessage>,
}

impl View for MidiQueue {
    type V = Seq<MidiMessage>;

    closed spec fn view(&self) -> Seq<MidiMessage> {
        self.pending@
    }
}

impl MidiQueue {
    /// An empty queue.
    pub fn new() -> (queue: MidiQueue)
        ensures
            queue@ == Seq::<MidiMessage>::empty(),
    {
        MidiQueue { pending: VecDeque::new() }
    }

    /// The number of messages that wait.
    pub fn len(&self) -> (n: usize)
        ensures
            n == self@.len(),
    {
        self.pending.len()
    }

    /// Queues a message behind those that wait.
    pub fn push(&mut self, message: MidiMessage)
        ensures
            final(self)@ == old(self)@.push(message),
    {
        self.pending.push_back(message);
    }

    /// Appends every waiting message to `out`, in the order of arrival, each
    /// at the frame offset of its place. The messages stay in the queue.
    pub fn offer_into(&self, out: &mut Vec<TimedMidi>)
        ensures
            final(out)@ == old(out)@ + timed(self@),
    {
        let ghost start = out@;
        let waiting = self.pending.len();
        let mut t: usize = 0;
        while t < waiting
            invariant
                waiting == self.pending@.len(),
                t <= waiting,
                out@.len() == start.len() + t,
                forall|i: int| 0 <= i < start.len() ==> out@[i] == start[i],
                forall|i: int|
                    0 <= i < t ==> out@[start.len() + i] == (TimedMidi {
                        time: i as u32,
                        message: self.pending@[i],
                    }),
            decreases waiting - t,
        {
            let message = self.pending[t];
            out.push(TimedMidi { time: #[verifier::truncate] (t as u32), message });
            t = t + 1;
        }
        assert(out@ =~= start + timed(self@));
    }

    /// Takes the first `written` messages out of the queue: those that the
    /// port has taken in this cycle. The others wait for the next cycle, in
    /// their order and before every message that arrives later.
    pub fn confirm(&mut self, written: usize)
        ensures
            final(self)@ == unwritten(old(self)@, written as int),
    {
        let ghost all = self.pending@;
        let waiting = self.pending.len();
        let mut taken: usize = 0;
        while taken < written && self.pending.len() > 0
            invariant
                all.len() == waiting,
                taken <= written,
                taken + self.pending@.len() == all.len(),
                self.pending@ == all.subrange(taken as int, all.len() as int),
            decreases self.pending@.len(),
        {
            let _ = self.pending.pop_front();
            taken = taken + 1;
        }
        assert(self.pending@ =~= unwritten(all, written as int));
    }
}

/// One processing cycle of the audio callback. The callback tries to take the
/// queue without waiting and hands in what it got. With the queue, every
/// waiting message is offered to the port in order; the host writes them one
/// after the other, stops at the first that the port refuses, and confirms
/// the number written. Without the queue the cycle offers nothing, and the
/// messages wait for the next cycle.
pub fn process_cycle(queue: Option<&MidiQueue>, out: &mut Vec<TimedMidi>)
    ensures
        match queue {
            Some(q) => final(out)@ == old(out)@ + timed(q@),
            None => final(out)@ == old(out)@,
        },
{
    match queue {
        Some(q) => {
            q.offer_into(out);
        },
        None => {},
    }
}

/// No message is lost, doubled or out of place. Of a queue of which the port
/// took the first `written` messages, the written ones and those that stay
/// are the queue as it was; and in the next cycle those that stay are offered
/// first, in their order, before the messages that came `later`.
pub proof fn lemma_queue_keeps_order(queue: Seq<MidiMessage>, written: int, later: Seq<MidiMessage>)
    requires
        0 <= written <= queue.len(),
    ensures
        queue.subrange(0, written) + unwritten(queue, written) == queue,
        timed(unwritten(queue, written) + later).len() == queue.len() - written + later.len(),
        forall|i: int|
            0 <= i < queue.len() - written ==> (#[trigger] timed(
                unwritten(queue, written) + later,
            )[i]).message == queue[written + i],
        forall|i: int|
            0 <= i < later.len() ==> (#[trigger] timed(unwritten(queue, written) + later)[queue.len()
                - written + i]).message == later[i],
{
    assert(queue.subrange(0, written) + unwritten(queue, written) =~= queue);
}

} // verus!
