use bringup::bringup::{
    BringUpPhase, BringUpTask, ControllerModel, StepEffect, Timings, TraceEvent,
};
use bringup::bus::BUS_WIDTH;
use bringup::level::{Level, Line};

fn low_lines() -> Vec<Line> {
    let mut lines = Vec::new();
    for _ in 0..BUS_WIDTH {
        lines.push(Line::new(Level::Low));
    }
    lines
}

fn task(accepts_init: bool) -> BringUpTask {
    BringUpTask::new(
        Line::new(Level::Low),
        Line::new(Level::Low),
        Line::new(Level::Low),
        Line::new(Level::Low),
        low_lines(),
        Line::new(Level::Low),
        Line::new(Level::High),
        Timings::default(),
        ControllerModel {
            accepts_init,
            init_commands: vec![0x01, 0x11, 0x29],
            fill_command: 0x2C,
        },
        0xF800,
        4,
    )
}

#[test]
fn successful_bringup_issues_the_fixed_order() {
    let mut t = task(true);
    assert_eq!(t.phase, BringUpPhase::Start);

    assert_eq!(t.step(), StepEffect::Sleep(50));
    assert_eq!(t.phase, BringUpPhase::PowerSettleWait);
    assert_eq!(t.power.level, Level::High);
    assert_eq!(t.cs.level, Level::Low);

    assert_eq!(t.step(), StepEffect::Sleep(10));
    assert_eq!(t.reset.level, Level::Low);

    assert_eq!(t.step(), StepEffect::Sleep(120));
    assert_eq!(t.reset.level, Level::High);

    assert_eq!(t.step(), StepEffect::Park);
    assert_eq!(t.phase, BringUpPhase::Parked);
    assert_eq!(t.backlight.level, Level::High);

    let expected = vec![
        TraceEvent::Power(Level::High),
        TraceEvent::ChipSelect(Level::Low),
        TraceEvent::DelayMs(50),
        TraceEvent::Reset(Level::Low),
        TraceEvent::DelayMs(10),
        TraceEvent::Reset(Level::High),
        TraceEvent::DelayMs(120),
        TraceEvent::Command(0x01),
        TraceEvent::Command(0x11),
        TraceEvent::Command(0x29),
        TraceEvent::Backlight(Level::High),
        TraceEvent::Command(0x2C),
        TraceEvent::Data(0xF800),
        TraceEvent::Data(0xF800),
        TraceEvent::Data(0xF800),
        TraceEvent::Data(0xF800),
    ];
    assert_eq!(t.log, expected);
    // the fill's last data write leaves the bus driven to the fill color
    assert_eq!(t.port.bus.read_back(), 0xF800);
}

#[test]
fn parked_task_does_nothing_more() {
    let mut t = task(true);
    for _ in 0..4 {
        t.step();
    }
    let log_before = t.log.clone();
    for _ in 0..3 {
        assert_eq!(t.step(), StepEffect::Park);
    }
    assert_eq!(t.phase, BringUpPhase::Parked);
    assert_eq!(t.log, log_before);
}

#[test]
fn custom_timings_appear_in_the_delays() {
    let mut t = BringUpTask::new(
        Line::new(Level::Low),
        Line::new(Level::Low),
        Line::new(Level::Low),
        Line::new(Level::Low),
        low_lines(),
        Line::new(Level::Low),
        Line::new(Level::High),
        Timings { power_settle_ms: 7, reset_hold_ms: 3, reset_settle_ms: 9 },
        ControllerModel { accepts_init: true, init_commands: vec![0x11], fill_command: 0x2C },
        0x07E0,
        1,
    );
    assert_eq!(t.step(), StepEffect::Sleep(7));
    assert_eq!(t.step(), StepEffect::Sleep(3));
    assert_eq!(t.step(), StepEffect::Sleep(9));
    assert_eq!(t.step(), StepEffect::Park);
    assert_eq!(t.log[2], TraceEvent::DelayMs(7));
    assert_eq!(t.log[4], TraceEvent::DelayMs(3));
    assert_eq!(t.log[6], TraceEvent::DelayMs(9));
}

#[test]
fn failed_init_halts_without_backlight_or_data() {
    let mut t = task(false);
    assert_eq!(t.step(), StepEffect::Sleep(50));
    assert_eq!(t.step(), StepEffect::Sleep(10));
    assert_eq!(t.step(), StepEffect::Sleep(120));
    assert_eq!(t.step(), StepEffect::Halt);
    assert_eq!(t.phase, BringUpPhase::Halted);
    assert_eq!(t.backlight.level, Level::Low);
    for e in &t.log {
        assert_ne!(*e, TraceEvent::Backlight(Level::High));
        assert!(!matches!(e, TraceEvent::Data(_)));
        assert!(!matches!(e, TraceEvent::Command(_)));
    }
    // the trace ends with the reset settle delay: nothing visible happened
    assert_eq!(t.log.last(), Some(&TraceEvent::DelayMs(120)));
    assert_eq!(t.log.len(), 7);
}
