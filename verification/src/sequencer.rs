//! Display control-line sequencer.
//!
//! Owns the parallel bus together with the data/command-select and
//! write-strobe lines, and offers the two transport primitives the display
//! controller protocol needs: `write_command` and `write_data`. Either one
//! first selects command or data mode, then drives all bus lines (the whole
//! register is set before the strobe moves — no interleaved strobe), then
//! pulses the write-strobe: assert (low), deassert (high); the controller
//! latches on the rising edge. The host issues writes far slower than the
//! electrical limit, so the strobe width is modeled as instantaneous; a port
//! to faster hosts must insert the manufacturer's minimum strobe low-time.
//!
//! Every pin-level action is recorded in order, so the exact transition
//! sequence of a write is part of the contract.

use vstd::prelude::*;

use crate::bus::{bits_of, ParallelBus};
use crate::level::{Level, Line};

verus! {

/// One pin-level action of the transport, in the order it was issued.
#[derive(Clone, Copy, PartialEq, Eq, Structural, Debug)]
pub enum PortEvent {
    /// Data/command-select driven to a level (low selects command mode).
    DcSet(Level),
    /// All bus lines driven to the bits of a value.
    BusWrite(u16),
    /// Write-strobe driven to a level.
    WrSet(Level),
}

/// Mathematical state of the transport: line levels plus the ordered record
/// of every pin-level action issued so far.
#[verifier::ext_equal]
pub struct PortModel {
    pub bus: Seq<Level>,
    pub dc: Level,
    pub wr: Level,
    pub log: Seq<PortEvent>,
}

/// The pin-level actions one write issues, in order: mode select, full bus
/// register, strobe assert, strobe deassert.
pub open spec fn write_events(dc: Level, value: u16) -> Seq<PortEvent> {
    seq![
        PortEvent::DcSet(dc),
        PortEvent::BusWrite(value),
        PortEvent::WrSet(Level::Low),
        PortEvent::WrSet(Level::High),
    ]
}

/// Effect of one write on the transport state.
pub open spec fn port_write(m: PortModel, dc: Level, value: u16) -> PortModel {
    PortModel {
        bus: bits_of(value),
        dc: dc,
        wr: Level::High,
        log: m.log + write_events(dc, value),
    }
}

/// `write_command(code)` in the model: a write in command mode.
pub open spec fn port_command(m: PortModel, code: u16) -> PortModel {
    port_write(m, Level::Low, code)
}

/// `write_data(value)` in the model: a write in data mode.
pub open spec fn port_data(m: PortModel, value: u16) -> PortModel {
    port_write(m, Level::High, value)
}

/// The transport: bus adapter plus the two lines the write protocol drives.
pub struct Sequencer {
    pub bus: ParallelBus,
    pub dc: Line,
    pub wr: Line,
    pub log: Vec<PortEvent>,
}

impl View for Sequencer {
    type V = PortModel;

    open spec fn view(&self) -> PortModel {
        PortModel { bus: self.bus@, dc: self.dc.level, wr: self.wr.level, log: self.log@ }
    }
}

impl Sequencer {
    pub open spec fn wf(self) -> bool {
        self.bus.wf()
    }

    /// Take exclusive ownership of the bus and the two control lines.
    pub fn new(bus: ParallelBus, dc: Line, wr: Line) -> (r: Sequencer)
        requires
            bus.wf(),
        ensures
            r.wf(),
            r@.bus == bus@,
            r@.dc == dc.level,
            r@.wr == wr.level,
            r@.log == Seq::<PortEvent>::empty(),
    {
        let r = Sequencer { bus, dc, wr, log: Vec::new() };
        assert(r@.log =~= Seq::<PortEvent>::empty());
        r
    }

    /// Write a controller command: data/command-select low, then the code on
    /// the bus, then one strobe pulse.
    pub fn write_command(&mut self, code: u16)
        requires
            old(self).wf(),
        ensures
            final(self).wf(),
            final(self)@ == port_command(old(self)@, code),
    {
        self.dc.set_low();
        self.log.push(PortEvent::DcSet(Level::Low));
        self.bus.write(code);
        self.log.push(PortEvent::BusWrite(code));
        self.wr.set_low();
        self.log.push(PortEvent::WrSet(Level::Low));
        self.wr.set_high();
        self.log.push(PortEvent::WrSet(Level::High));
        assert(self@.log =~= old(self)@.log + write_events(Level::Low, code));
        assert(self@ =~= port_command(old(self)@, code));
    }

    /// Write pixel or parameter data: identical to a command write, but with
    /// data/command-select high.
    pub fn write_data(&mut self, value: u16)
        requires
            old(self).wf(),
        ensures
            final(self).wf(),
            final(self)@ == port_data(old(self)@, value),
    {
        self.dc.set_high();
        self.log.push(PortEvent::DcSet(Level::High));
        self.bus.write(value);
        self.log.push(PortEvent::BusWrite(value));
        self.wr.set_low();
        self.log.push(PortEvent::WrSet(Level::Low));
        self.wr.set_high();
        self.log.push(PortEvent::WrSet(Level::High));
        assert(self@.log =~= old(self)@.log + write_events(Level::High, value));
        assert(self@ =~= port_data(old(self)@, value));
    }
}

} // verus!
