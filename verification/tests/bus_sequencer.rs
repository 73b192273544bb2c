use bringup::bus::{ParallelBus, BUS_WIDTH};
use bringup::level::{Level, Line};
use bringup::sequencer::{PortEvent, Sequencer};

fn low_lines() -> Vec<Line> {
    let mut lines = Vec::new();
    for _ in 0..BUS_WIDTH {
        lines.push(Line::new(Level::Low));
    }
    lines
}

#[test]
fn write_sets_each_line_to_its_bit() {
    let mut bus = ParallelBus::new(low_lines());
    bus.write(0xA5C3);
    for i in 0..BUS_WIDTH {
        let expected = (0xA5C3u16 >> i) & 1 == 1;
        assert_eq!(bus.lines[i].level == Level::High, expected, "bit {}", i);
    }
}

#[test]
fn roundtrip_reconstructs_value_exactly() {
    let mut bus = ParallelBus::new(low_lines());
    for value in [0u16, 1, 0x8000, 0xFFFF, 0xA5C3, 0x00FF, 0xFF00, 12345] {
        bus.write(value);
        assert_eq!(bus.read_back(), value);
    }
}

#[test]
fn all_low_reads_zero() {
    let bus = ParallelBus::new(low_lines());
    assert_eq!(bus.read_back(), 0);
}

#[test]
fn command_write_orders_select_bus_strobe() {
    let bus = ParallelBus::new(low_lines());
    let mut port = Sequencer::new(bus, Line::new(Level::Low), Line::new(Level::High));
    port.write_command(0x2C);
    assert_eq!(
        port.log,
        vec![
            PortEvent::DcSet(Level::Low),
            PortEvent::BusWrite(0x2C),
            PortEvent::WrSet(Level::Low),
            PortEvent::WrSet(Level::High),
        ]
    );
    assert_eq!(port.dc.level, Level::Low);
    assert_eq!(port.wr.level, Level::High);
    assert_eq!(port.bus.read_back(), 0x2C);
}

#[test]
fn data_write_selects_data_mode_and_appends() {
    let bus = ParallelBus::new(low_lines());
    let mut port = Sequencer::new(bus, Line::new(Level::Low), Line::new(Level::High));
    port.write_command(0x2C);
    port.write_data(0xF800);
    assert_eq!(port.log.len(), 8);
    assert_eq!(
        &port.log[4..],
        &[
            PortEvent::DcSet(Level::High),
            PortEvent::BusWrite(0xF800),
            PortEvent::WrSet(Level::Low),
            PortEvent::WrSet(Level::High),
        ]
    );
    assert_eq!(port.dc.level, Level::High);
    assert_eq!(port.bus.read_back(), 0xF800);
}
