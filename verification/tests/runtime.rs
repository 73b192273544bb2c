use bringup::blink::BlinkTask;
use bringup::bringup::{BringUpPhase, BringUpTask, ControllerModel, Timings, TraceEvent};
use bringup::bus::BUS_WIDTH;
use bringup::level::{Level, Line};
use bringup::sched::{Scheduler, SpawnError, TaskKind, TaskState};

fn low_lines() -> Vec<Line> {
    let mut lines = Vec::new();
    for _ in 0..BUS_WIDTH {
        lines.push(Line::new(Level::Low));
    }
    lines
}

fn bringup_task(accepts_init: bool, timings: Timings) -> BringUpTask {
    BringUpTask::new(
        Line::new(Level::Low),
        Line::new(Level::Low),
        Line::new(Level::Low),
        Line::new(Level::Low),
        low_lines(),
        Line::new(Level::Low),
        Line::new(Level::High),
        timings,
        ControllerModel {
            accepts_init,
            init_commands: vec![0x01, 0x11, 0x29],
            fill_command: 0x2C,
        },
        0xF800,
        4,
    )
}

fn led_level(s: &Scheduler) -> Level {
    match &s.tasks[0].kind {
        TaskKind::Blink(b) => b.led.level,
        _ => panic!("slot 0 is the blink task"),
    }
}

fn display(s: &Scheduler) -> &BringUpTask {
    match &s.tasks[1].kind {
        TaskKind::BringUp(t) => t,
        _ => panic!("slot 1 is the display task"),
    }
}

#[test]
fn spawn_fails_only_at_capacity() {
    let mut s = Scheduler::new(1);
    assert_eq!(s.spawn(TaskKind::Blink(BlinkTask::new(Line::new(Level::Low), 500))), Ok(0));
    assert_eq!(
        s.spawn(TaskKind::Blink(BlinkTask::new(Line::new(Level::Low), 250))),
        Err(SpawnError::CapacityExceeded)
    );
    assert_eq!(s.tasks.len(), 1);
}

#[test]
fn blink_and_bringup_timeline() {
    let mut s = Scheduler::new(2);
    assert_eq!(s.spawn(TaskKind::Blink(BlinkTask::new(Line::new(Level::Low), 500))), Ok(0));
    assert_eq!(s.spawn(TaskKind::BringUp(bringup_task(true, Timings::default()))), Ok(1));

    // t = 0: both tasks take their first turn; the LED shows its initial
    // low level, the display is powered but far from initialized.
    s.poll_round();
    assert_eq!(led_level(&s), Level::Low);
    assert_eq!(display(&s).phase, BringUpPhase::PowerSettleWait);
    assert_eq!(display(&s).backlight.level, Level::Low);

    // t = 1: the settle delay is running; nothing is due, nothing moves.
    s.advance_to(1);
    s.poll_round();
    assert_eq!(led_level(&s), Level::Low);
    assert_eq!(display(&s).log.len(), 3);

    // t = 50: the reset pulse begins.
    s.advance_to(50);
    s.poll_round();
    assert_eq!(display(&s).reset.level, Level::Low);

    // t = 60: reset released, settle wait running.
    s.advance_to(60);
    s.poll_round();
    assert_eq!(display(&s).reset.level, Level::High);

    // t = 180: init, backlight, fill; the display task parks for good.
    s.advance_to(180);
    s.poll_round();
    assert_eq!(display(&s).phase, BringUpPhase::Parked);
    assert_eq!(display(&s).backlight.level, Level::High);
    assert_eq!(s.tasks[1].state, TaskState::SuspendedForever);
    let log_after_park = display(&s).log.clone();

    // t = 500: first blink toggle.
    s.advance_to(500);
    s.poll_round();
    assert_eq!(led_level(&s), Level::High);

    // t = 1000: second toggle.
    s.advance_to(1000);
    s.poll_round();
    assert_eq!(led_level(&s), Level::Low);

    // the display task never re-enters bring-up: many more rounds later its
    // machine and its suspension are exactly as they were.
    for t in [1500u64, 2000, 2500, 3000] {
        s.advance_to(t);
        s.poll_round();
    }
    assert_eq!(led_level(&s), Level::Low);
    assert_eq!(display(&s).phase, BringUpPhase::Parked);
    assert_eq!(display(&s).log, log_after_park);
    assert_eq!(s.tasks[1].state, TaskState::SuspendedForever);
}

#[test]
fn toggles_count_half_periods() {
    let mut s = Scheduler::new(1);
    s.spawn(TaskKind::Blink(BlinkTask::new(Line::new(Level::Low), 500))).unwrap();
    s.poll_round();
    for k in 1..=8u64 {
        s.advance_to(k * 500);
        s.poll_round();
    }
    match &s.tasks[0].kind {
        TaskKind::Blink(b) => {
            assert_eq!(b.toggles, 8);
            assert_eq!(b.led.level, Level::Low);
        }
        _ => panic!("slot 0 is the blink task"),
    }
}

#[test]
fn no_resume_before_the_deadline() {
    let mut s = Scheduler::new(1);
    s.spawn(TaskKind::Blink(BlinkTask::new(Line::new(Level::Low), 500))).unwrap();
    s.poll_round();
    assert_eq!(s.tasks[0].state, TaskState::SuspendedUntil(500));
    for t in [1u64, 100, 250, 499] {
        s.advance_to(t);
        s.poll_round();
        assert_eq!(led_level(&s), Level::Low);
        assert_eq!(s.tasks[0].state, TaskState::SuspendedUntil(500));
    }
    s.advance_to(499);
    s.poll_round();
    assert_eq!(led_level(&s), Level::Low);
    s.advance_to(500);
    s.poll_round();
    assert_eq!(led_level(&s), Level::High);
}

#[test]
fn display_fault_halts_the_whole_runtime() {
    let mut s = Scheduler::new(2);
    s.spawn(TaskKind::Blink(BlinkTask::new(Line::new(Level::Low), 500))).unwrap();
    s.spawn(
        TaskKind::BringUp(bringup_task(
            false,
            Timings { power_settle_ms: 1, reset_hold_ms: 1, reset_settle_ms: 1 },
        )),
    )
    .unwrap();
    for t in [0u64, 1, 2, 3] {
        s.advance_to(t);
        s.poll_round();
    }
    assert!(s.halted);
    assert_eq!(display(&s).phase, BringUpPhase::Halted);
    assert!(!display(&s).log.contains(&TraceEvent::Backlight(Level::High)));
    // the fault stops everything: the blink never reaches its first toggle
    s.advance_to(500);
    s.poll_round();
    s.advance_to(1000);
    s.poll_round();
    assert_eq!(led_level(&s), Level::Low);
    match &s.tasks[0].kind {
        TaskKind::Blink(b) => assert_eq!(b.toggles, 0),
        _ => panic!("slot 0 is the blink task"),
    }
}
