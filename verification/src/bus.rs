//! Parallel bus adapter.
//!
//! Aggregates `BUS_WIDTH` exclusively owned output lines into one logical
//! data register. A write sets line `i` to bit `i` of the value, for every
//! `i` in `[0, BUS_WIDTH)`; no strobe is touched here — strobing belongs to
//! the control-line sequencer. Setting a line's level cannot fail, so the
//! adapter has no failure path.

use vstd::prelude::*;

use crate::level::{Level, Line};

verus! {

/// Number of data lines composing the logical data register.
pub const BUS_WIDTH: usize = 16;

/// Bit `i` of `value`, as the level line `i` is driven to.
pub open spec fn bit_of(value: u16, i: u16) -> Level {
    if (value >> i) & 1 == 1 {
        Level::High
    } else {
        Level::Low
    }
}

/// The levels of all `BUS_WIDTH` lines, in line order.
pub open spec fn bits_of(value: u16) -> Seq<Level> {
    Seq::new(BUS_WIDTH as nat, |i: int| bit_of(value, i as u16))
}

/// The fixed-width data register: exactly `BUS_WIDTH` output lines,
/// indexed 0 (least significant bit) to `BUS_WIDTH - 1`.
pub struct ParallelBus {
    pub lines: Vec<Line>,
}

impl View for ParallelBus {
    type V = Seq<Level>;

    open spec fn view(&self) -> Seq<Level> {
        Seq::new(self.lines@.len(), |i: int| self.lines@[i].level)
    }
}

impl ParallelBus {
    /// All lines present: the adapter owns one line per bus bit.
    pub open spec fn wf(self) -> bool {
        self.lines.len() == BUS_WIDTH
    }

    /// Take exclusive ownership of the data lines, line `i` carrying bit `i`.
    pub fn new(lines: Vec<Line>) -> (r: ParallelBus)
        requires
            lines.len() == BUS_WIDTH,
        ensures
            r.wf(),
            forall|i: int| 0 <= i < BUS_WIDTH ==> r@[i] == lines@[i].level,
    {
        ParallelBus { lines }
    }

    /// Drive every line to the matching bit of `value`.
    pub fn write(&mut self, value: u16)
        requires
            old(self).wf(),
        ensures
            final(self).wf(),
            final(self)@ == bits_of(value),
    {
        let mut i: usize = 0;
        while i < BUS_WIDTH
            invariant
                self.lines.len() == BUS_WIDTH,
                i <= BUS_WIDTH,
                forall|j: int| 0 <= j < i ==> self.lines@[j].level == bit_of(value, j as u16),
            decreases BUS_WIDTH - i,
        {
            let bit: u16 = (value >> (i as u16)) & 1;
            let l = if bit == 1 {
                Level::High
            } else {
                Level::Low
            };
            self.lines.set(i, Line { level: l });
            i = i + 1;
        }
        assert(self@ =~= bits_of(value));
    }

    /// Read back the level each line is currently driven to, reassembled as
    /// a value: bit `i` of the result is the level of line `i`.
    pub fn read_back(&self) -> (r: u16)
        requires
            self.wf(),
        ensures
            forall|i: u16| i < 16 ==> bit_of(r, i) == self@[i as int],
    {
        proof {
            assert(forall|j: u16| j < 16 ==> (0u16 >> j) & 1 == 0) by (bit_vector);
        }
        let mut r: u16 = 0;
        let mut i: usize = 0;
        while i < BUS_WIDTH
            invariant
                self.wf(),
                i <= BUS_WIDTH,
                forall|j: u16| j < i ==> bit_of(r, j) == self@[j as int],
                forall|j: u16| i <= j < 16 ==> bit_of(r, j) == Level::Low,
            decreases BUS_WIDTH - i,
        {
            let ghost r0 = r;
            let ghost iu = i as u16;
            let hi = self.lines[i].is_high();
            if hi {
                r = r | (1u16 << (i as u16));
            }
            proof {
                if hi {
                    assert(forall|j: u16|
                        j < 16 && j != iu ==> ((r0 | (1u16 << iu)) >> j) & 1 == (r0 >> j) & 1)
                        by (bit_vector)
                        requires
                            iu < 16,
                    ;
                    assert(((r0 | (1u16 << iu)) >> iu) & 1 == 1) by (bit_vector)
                        requires
                            iu < 16,
                    ;
                    assert(bit_of(r, iu) == Level::High);
                    assert(self@[iu as int] == Level::High);
                } else {
                    assert(self.lines@[iu as int].level == Level::Low);
                    assert(bit_of(r, iu) == Level::Low);
                }
                assert(forall|j: u16| j < 16 && j != iu ==> bit_of(r, j) == bit_of(r0, j));
            }
            i = i + 1;
        }
        r
    }
}

/// Two values whose every bus bit agrees are the same value: the bus image
/// of a value determines the value.
pub proof fn lemma_bits_determine_value(a: u16, b: u16)
    requires
        forall|i: u16| i < 16 ==> #[trigger] bit_of(a, i) == bit_of(b, i),
    ensures
        a == b,
{
    assert forall|i: u16| i < 16 implies (a >> i) & 1 == (b >> i) & 1 by {
        assert(bit_of(a, i) == bit_of(b, i));
        assert((a >> i) & 1 == 0 || (a >> i) & 1 == 1) by (bit_vector);
        assert((b >> i) & 1 == 0 || (b >> i) & 1 == 1) by (bit_vector);
    }
    assert((a >> 0u16) & 1 == (b >> 0u16) & 1);
    assert((a >> 1u16) & 1 == (b >> 1u16) & 1);
    assert((a >> 2u16) & 1 == (b >> 2u16) & 1);
    assert((a >> 3u16) & 1 == (b >> 3u16) & 1);
    assert((a >> 4u16) & 1 == (b >> 4u16) & 1);
    assert((a >> 5u16) & 1 == (b >> 5u16) & 1);
    assert((a >> 6u16) & 1 == (b >> 6u16) & 1);
    assert((a >> 7u16) & 1 == (b >> 7u16) & 1);
    assert((a >> 8u16) & 1 == (b >> 8u16) & 1);
    assert((a >> 9u16) & 1 == (b >> 9u16) & 1);
    assert((a >> 10u16) & 1 == (b >> 10u16) & 1);
    assert((a >> 11u16) & 1 == (b >> 11u16) & 1);
    assert((a >> 12u16) & 1 == (b >> 12u16) & 1);
    assert((a >> 13u16) & 1 == (b >> 13u16) & 1);
    assert((a >> 14u16) & 1 == (b >> 14u16) & 1);
    assert((a >> 15u16) & 1 == (b >> 15u16) & 1);
    assert(a == b) by (bit_vector)
        requires
            (a >> 0u16) & 1 == (b >> 0u16) & 1,
            (a >> 1u16) & 1 == (b >> 1u16) & 1,
            (a >> 2u16) & 1 == (b >> 2u16) & 1,
            (a >> 3u16) & 1 == (b >> 3u16) & 1,
            (a >> 4u16) & 1 == (b >> 4u16) & 1,
            (a >> 5u16) & 1 == (b >> 5u16) & 1,
            (a >> 6u16) & 1 == (b >> 6u16) & 1,
            (a >> 7u16) & 1 == (b >> 7u16) & 1,
            (a >> 8u16) & 1 == (b >> 8u16) & 1,
            (a >> 9u16) & 1 == (b >> 9u16) & 1,
            (a >> 10u16) & 1 == (b >> 10u16) & 1,
            (a >> 11u16) & 1 == (b >> 11u16) & 1,
            (a >> 12u16) & 1 == (b >> 12u16) & 1,
            (a >> 13u16) & 1 == (b >> 13u16) & 1,
            (a >> 14u16) & 1 == (b >> 14u16) & 1,
            (a >> 15u16) & 1 == (b >> 15u16) & 1,
    ;
}

/// Round trip: writing `value` drives the lines to `bits_of(value)`, so a
/// read that reproduces those levels bit for bit reproduces `value` exactly.
pub proof fn lemma_bus_roundtrip(value: u16, r: u16)
    requires
        forall|i: u16| i < 16 ==> #[trigger] bit_of(r, i) == bits_of(value)[i as int],
    ensures
        r == value,
{
    assert forall|i: u16| i < 16 implies #[trigger] bit_of(r, i) == bit_of(value, i) by {
        assert(bits_of(value)[i as int] == bit_of(value, i));
    }
    lemma_bits_determine_value(r, value);
}

} // verus!
