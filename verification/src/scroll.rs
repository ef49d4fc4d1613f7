//! Pending scroll movement: what the wheel reported since it was last read.
//!
//! A hook delivers wheel movement as events; a query wants the movement since
//! the previous query. The accumulator between them keeps one signed counter
//! per axis, adds each event to it and hands the counters out on a drain,
//! leaving zero behind. The counters wrap on overflow.

use vstd::prelude::*;
use crate::mouse_state::ScrollDelta;

verus! {

/// The direction a wheel moves in.
#[derive(Debug, PartialEq, Eq, Structural, Clone, Copy)]
pub enum Axis {
    /// Up (positive) and down (negative).
    Vertical,
    /// Right (positive) and left (negative).
    Horizontal,
}

/// One wheel movement as a hook delivers it.
#[derive(Debug, PartialEq, Eq, Structural, Clone, Copy)]
pub struct ScrollEvent {
    /// The axis that moved.
    pub axis: Axis,
    /// By how many ticks, signed.
    pub delta: i32,
}

/// One step in the life of an accumulator: an event comes in, or a query
/// drains what is pending.
#[derive(Debug, PartialEq, Eq, Structural, Clone, Copy)]
pub enum ScrollOp {
    /// The hook delivers an event.
    Add(ScrollEvent),
    /// A query takes what is pending.
    Drain,
}

/// The 32-bit signed integer that differs from `x` by a multiple of 2^32.
pub open spec fn wrap_i32(x: int) -> i32 {
    let m = x % 0x1_0000_0000;
    if m >= 0x8000_0000 {
        (m - 0x1_0000_0000) as i32
    } else {
        m as i32
    }
}

/// The ticks that `events` carry on `axis`, summed without bound.
pub open spec fn axis_total(events: Seq<ScrollEvent>, axis: Axis) -> int
    decreases events.len(),
{
    if events.len() == 0 {
        0
    } else {
        let last = events.last();
        axis_total(events.drop_last(), axis) + if last.axis == axis {
            last.delta as int
        } else {
            0
        }
    }
}

impl ScrollDelta {
    /// The counters after one more movement of `delta` ticks on `axis`.
    pub open spec fn plus(self, axis: Axis, delta: i32) -> ScrollDelta {
        match axis {
            Axis::Vertical => ScrollDelta {
                vertical: wrap_i32(self.vertical + delta),
                horizontal: self.horizontal,
            },
            Axis::Horizontal => ScrollDelta {
                vertical: self.vertical,
                horizontal: wrap_i32(self.horizontal + delta),
            },
        }
    }

    /// The counters after all of `events`, first to last.
    pub open spec fn plus_all(self, events: Seq<ScrollEvent>) -> ScrollDelta
        decreases events.len(),
    {
        if events.len() == 0 {
            self
        } else {
            self.plus_all(events.drop_last()).plus(events.last().axis, events.last().delta)
        }
    }

    /// What a drain of these counters hands out, and what it leaves behind.
    pub open spec fn drained(self) -> (ScrollDelta, ScrollDelta) {
        (self, ScrollDelta::zero())
    }

    /// The counter of `axis`.
    pub open spec fn on(self, axis: Axis) -> i32 {
        match axis {
            Axis::Vertical => self.vertical,
            Axis::Horizontal => self.horizontal,
        }
    }

    /// The counters after `ops`, first to last.
    pub open spec fn after(self, ops: Seq<ScrollOp>) -> ScrollDelta
        decreases ops.len(),
    {
        if ops.len() == 0 {
            self
        } else {
            let before = self.after(ops.drop_last());
            match ops.last() {
                ScrollOp::Add(event) => before.plus(event.axis, event.delta),
                ScrollOp::Drain => before.drained().1,
            }
        }
    }
}

/// The ticks that the events among `ops` carry on `axis`, summed without
/// bound.
pub open spec fn added_total(ops: Seq<ScrollOp>, axis: Axis) -> int
    decreases ops.len(),
{
    if ops.len() == 0 {
        0
    } else {
        added_total(ops.drop_last(), axis) + match ops.last() {
            ScrollOp::Add(event) => if event.axis == axis {
                event.delta as int
            } else {
                0
            },
            ScrollOp::Drain => 0,
        }
    }
}

/// What the drains among `ops` hand out on `axis`, summed without bound,
/// where the run starts with `start` pending.
pub open spec fn drained_total(start: ScrollDelta, ops: Seq<ScrollOp>, axis: Axis) -> int
    decreases ops.len(),
{
    if ops.len() == 0 {
        0
    } else {
        drained_total(start, ops.drop_last(), axis) + match ops.last() {
            ScrollOp::Add(_) => 0,
            ScrollOp::Drain => start.after(ops.drop_last()).drained().0.on(axis) as int,
        }
    }
}

/// The pending scroll movement of both axes.
#[derive(Debug)]
pub struct ScrollAccumulator {
    vertical: i32,
    horizontal: i32,
}

impl View for ScrollAccumulator {
    type V = ScrollDelta;

    /// The movement that is pending.
    closed spec fn view(&self) -> ScrollDelta {
        ScrollDelta { vertical: self.vertical, horizontal: self.horizontal }
    }
}

impl ScrollAccumulator {
    /// An accumulator with nothing pending.
    pub fn new() -> (acc: ScrollAccumulator)
        ensures
            acc@ == ScrollDelta::zero(),
    {
        ScrollAccumulator { vertical: 0, horizontal: 0 }
    }

    /// The pending movement, left in place.
    pub fn pending(&self) -> (delta: ScrollDelta)
        ensures
            delta == self@,
    {
        ScrollDelta { vertical: self.vertical, horizontal: self.horizontal }
    }

    /// Adds `delta` ticks to the counter of `axis`, wrapping on overflow.
    pub fn add(&mut self, axis: Axis, delta: i32)
        ensures
            final(self)@ == old(self)@.plus(axis, delta),
    {
        proof {
            lemma_wrapping_add_is_wrap(self.vertical, delta);
            lemma_wrapping_add_is_wrap(self.horizontal, delta);
        }
        match axis {
            Axis::Vertical => {
                self.vertical = self.vertical.wrapping_add(delta);
            },
            Axis::Horizontal => {
                self.horizontal = self.horizontal.wrapping_add(delta);
            },
        }
    }

    /// Hands out the pending movement and resets both counters to zero.
    pub fn drain(&mut self) -> (delta: ScrollDelta)
        ensures
            (delta, final(self)@) == old(self)@.drained(),
    {
        let delta = ScrollDelta { vertical: self.vertical, horizontal: self.horizontal };
        self.vertical = 0;
        self.horizontal = 0;
        delta
    }
}

/// The machine's wrapping addition is addition followed by `wrap_i32`.
pub proof fn lemma_wrapping_add_is_wrap(x: i32, y: i32)
    ensures
        x.wrapping_add(y) == wrap_i32(x + y),
{
}

/// Wrapping before a further addition changes nothing: only the sum counts.
pub proof fn lemma_wrap_absorbs(a: int, b: int)
    ensures
        wrap_i32(wrap_i32(a) + b) == wrap_i32(a + b),
{
    let r: int = 0x1_0000_0000;
    let k = a / r;
    let m = a % r;
    assert(a == r * k + m) by {
        vstd::arithmetic::div_mod::lemma_fundamental_div_mod(a, r);
    }
    if m >= 0x8000_0000 {
        assert(wrap_i32(a) + b == (a + b) + r * (-k - 1)) by (nonlinear_arith)
            requires
                wrap_i32(a) == m - r,
                a == r * k + m,
        ;
        vstd::arithmetic::div_mod::lemma_mod_multiples_vanish(-k - 1, a + b, r);
    } else {
        assert(wrap_i32(a) + b == (a + b) + r * (-k)) by (nonlinear_arith)
            requires
                wrap_i32(a) == m,
                a == r * k + m,
        ;
        vstd::arithmetic::div_mod::lemma_mod_multiples_vanish(-k, a + b, r);
    }
}

/// A value that fits in 32 bits is what it wraps to.
pub proof fn lemma_wrap_in_range(x: int)
    requires
        i32::MIN <= x <= i32::MAX,
    ensures
        wrap_i32(x) == x,
{
    let r: int = 0x1_0000_0000;
    if x >= 0 {
        vstd::arithmetic::div_mod::lemma_small_mod(x as nat, r as nat);
    } else {
        vstd::arithmetic::div_mod::lemma_small_mod((x + r) as nat, r as nat);
        vstd::arithmetic::div_mod::lemma_mod_multiples_vanish(1, x, r);
    }
}

/// The ticks of two runs of events, one after the other, add up.
pub proof fn lemma_axis_total_concat(first: Seq<ScrollEvent>, second: Seq<ScrollEvent>, axis: Axis)
    ensures
        axis_total(first + second, axis) == axis_total(first, axis) + axis_total(second, axis),
    decreases second.len(),
{
    if second.len() == 0 {
        assert(first + second =~= first);
    } else {
        assert((first + second).drop_last() =~= first + second.drop_last());
        assert((first + second).last() == second.last());
        lemma_axis_total_concat(first, second.drop_last(), axis);
    }
}

/// Adding events one by one leaves on each axis what was there plus the ticks
/// of that axis, wrapped once at the end.
pub proof fn lemma_plus_all_is_total(start: ScrollDelta, events: Seq<ScrollEvent>)
    ensures
        start.plus_all(events) == (ScrollDelta {
            vertical: wrap_i32(start.vertical + axis_total(events, Axis::Vertical)),
            horizontal: wrap_i32(start.horizontal + axis_total(events, Axis::Horizontal)),
        }),
    decreases events.len(),
{
    if events.len() == 0 {
        lemma_wrap_in_range(start.vertical as int);
        lemma_wrap_in_range(start.horizontal as int);
    } else {
        let before = events.drop_last();
        let last = events.last();
        lemma_plus_all_is_total(start, before);
        let v = start.vertical + axis_total(before, Axis::Vertical);
        let h = start.horizontal + axis_total(before, Axis::Horizontal);
        match last.axis {
            Axis::Vertical => {
                lemma_wrap_absorbs(v, last.delta as int);
            },
            Axis::Horizontal => {
                lemma_wrap_absorbs(h, last.delta as int);
            },
        }
    }
}

/// Law of the single drain. Whatever events reach an accumulator with nothing
/// pending, one drain after them hands out, on each axis, the sum of the ticks
/// of that axis as it wraps to 32 bits, which is the sum itself where it fits;
/// and a drain that follows with no event between hands out zero.
pub proof fn lemma_drain_returns_sum(events: Seq<ScrollEvent>)
    ensures
        ({
            let (first, left) = ScrollDelta::zero().plus_all(events).drained();
            let (second, _) = left.drained();
            let vertical = axis_total(events, Axis::Vertical);
            let horizontal = axis_total(events, Axis::Horizontal);
            &&& first.vertical == wrap_i32(vertical)
            &&& first.horizontal == wrap_i32(horizontal)
            &&& i32::MIN <= vertical <= i32::MAX ==> first.vertical == vertical
            &&& i32::MIN <= horizontal <= i32::MAX ==> first.horizontal == horizontal
            &&& second == ScrollDelta::zero()
        }),
{
    lemma_plus_all_is_total(ScrollDelta::zero(), events);
    let vertical = axis_total(events, Axis::Vertical);
    let horizontal = axis_total(events, Axis::Horizontal);
    if i32::MIN <= vertical <= i32::MAX {
        lemma_wrap_in_range(vertical);
    }
    if i32::MIN <= horizontal <= i32::MAX {
        lemma_wrap_in_range(horizontal);
    }
}

/// Law of the split drain. Cut any run of events at any point `k`: a drain
/// after the first `k` events and a drain after the rest hand out, on each
/// axis, two values whose wrapped sum is what one drain after all the events
/// hands out. No tick is lost or counted twice by draining in between.
pub proof fn lemma_split_drains_sum(events: Seq<ScrollEvent>, k: int)
    requires
        0 <= k <= events.len(),
    ensures
        ({
            let head = events.subrange(0, k);
            let tail = events.subrange(k, events.len() as int);
            let (a, left) = ScrollDelta::zero().plus_all(head).drained();
            let (b, _) = left.plus_all(tail).drained();
            let (whole, _) = ScrollDelta::zero().plus_all(events).drained();
            &&& wrap_i32(a.vertical + b.vertical) == whole.vertical
            &&& wrap_i32(a.horizontal + b.horizontal) == whole.horizontal
        }),
{
    let head = events.subrange(0, k);
    let tail = events.subrange(k, events.len() as int);
    assert(head + tail =~= events);
    lemma_plus_all_is_total(ScrollDelta::zero(), head);
    lemma_plus_all_is_total(ScrollDelta::zero(), tail);
    lemma_plus_all_is_total(ScrollDelta::zero(), events);
    lemma_axis_total_concat(head, tail, Axis::Vertical);
    lemma_axis_total_concat(head, tail, Axis::Horizontal);
    let hv = axis_total(head, Axis::Vertical);
    let tv = axis_total(tail, Axis::Vertical);
    let hh = axis_total(head, Axis::Horizontal);
    let th = axis_total(tail, Axis::Horizontal);
    // wrap(wrap(hv) + wrap(tv)) == wrap(hv + tv), one absorption on each side
    lemma_wrap_absorbs(hv, wrap_i32(tv) as int);
    lemma_wrap_absorbs(tv, hv);
    lemma_wrap_absorbs(hh, wrap_i32(th) as int);
    lemma_wrap_absorbs(th, hh);
}

/// Law of conservation. Through any run of events and drains, in any order,
/// what was pending at the start and what the events added is, on each axis,
/// what the drains handed out and what is pending at the end, up to wrapping:
/// no tick vanishes and none is handed out twice.
pub proof fn lemma_nothing_lost(start: ScrollDelta, ops: Seq<ScrollOp>, axis: Axis)
    ensures
        wrap_i32(start.on(axis) + added_total(ops, axis)) == wrap_i32(
            drained_total(start, ops, axis) + start.after(ops).on(axis),
        ),
    decreases ops.len(),
{
    if ops.len() > 0 {
        let before = ops.drop_last();
        lemma_nothing_lost(start, before, axis);
        let added = start.on(axis) + added_total(before, axis);
        let drained = drained_total(start, before, axis);
        let pending = start.after(before).on(axis) as int;
        // by induction, `added` and `drained + pending` wrap to the same value
        match ops.last() {
            ScrollOp::Add(event) => {
                if event.axis == axis {
                    let d = event.delta as int;
                    lemma_wrap_absorbs(added, d);
                    lemma_wrap_absorbs(drained + pending, d);
                    lemma_wrap_absorbs(pending + d, drained);
                    assert(wrap_i32(drained + wrap_i32(pending + d)) == wrap_i32(
                        drained + pending + d,
                    ));
                }
            },
            ScrollOp::Drain => {},
        }
    }
}

} // verus!
