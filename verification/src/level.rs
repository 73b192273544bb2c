//! Logic levels and output lines.
//!
//! A [`Line`] stands for one GPIO pin committed to output mode: it carries
//! the level the pin is currently driven to. A line is owned exclusively by
//! whichever component drives it, and ownership moves by Rust moves; no line
//! is ever shared or aliased.

use vstd::prelude::*;

verus! {

/// A digital logic level.
#[derive(Clone, Copy, PartialEq, Eq, Structural, Debug)]
pub enum Level {
    Low,
    High,
}

/// The opposite level.
pub open spec fn flipped(l: Level) -> Level {
    match l {
        Level::Low => Level::High,
        Level::High => Level::Low,
    }
}

/// One GPIO pin in output mode, holding the level it is driven to.
#[derive(Debug)]
pub struct Line {
    pub level: Level,
}

impl Line {
    /// Configure a pin as an output driven to `initial`.
    pub fn new(initial: Level) -> (r: Line)
        ensures
            r.level == initial,
    {
        Line { level: initial }
    }

    pub fn set_high(&mut self)
        ensures
            final(self).level == Level::High,
    {
        self.level = Level::High;
    }

    pub fn set_low(&mut self)
        ensures
            final(self).level == Level::Low,
    {
        self.level = Level::Low;
    }

    pub fn set_level(&mut self, l: Level)
        ensures
            final(self).level == l,
    {
        self.level = l;
    }

    /// Drive the line to the opposite of its current level.
    pub fn toggle(&mut self)
        ensures
            final(self).level == flipped(old(self).level),
    {
        match self.level {
            Level::Low => self.level = Level::High,
            Level::High => self.level = Level::Low,
        }
    }

    pub fn is_high(&self) -> (r: bool)
        ensures
            r == (self.level == Level::High),
    {
        match self.level {
            Level::High => true,
            Level::Low => false,
        }
    }
}

} // verus!
