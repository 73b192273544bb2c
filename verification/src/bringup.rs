//! Display bring-up procedure.
//!
//! A strictly sequential, open-loop state machine: the controller exposes no
//! readiness signal to this design, so correctness rests on conservative
//! fixed delays, not polling. The machine asserts power-enable, asserts
//! chip-select, waits a settle delay, pulses reset (low for a hold time,
//! then high, then a settle time), runs the controller's standard
//! initialization command sequence through the transport, asserts the
//! backlight, issues a full-frame fill, and then suspends indefinitely. A
//! failed initialization is fatal: the machine halts without touching the
//! backlight or writing any pixel data, so no partial visible state exists.
//!
//! Every externally visible transition — line levels, delays, command and
//! data writes — is recorded in order, and the fixed order is proved.

use vstd::prelude::*;

use crate::bus::{ParallelBus, BUS_WIDTH};
use crate::level::{Level, Line};
use crate::sequencer::{port_command, port_data, PortModel, Sequencer};

verus! {

/// The configurable hardware timing constants, all in milliseconds. The
/// exact values are controller-specific; the defaults are conservative.
#[derive(Clone, Copy, PartialEq, Eq, Structural, Debug)]
pub struct Timings {
    /// Wait after power-enable and chip-select before the reset pulse.
    pub power_settle_ms: u64,
    /// Minimum time the reset line is held low.
    pub reset_hold_ms: u64,
    /// Wait after releasing reset before the first command.
    pub reset_settle_ms: u64,
}

impl Default for Timings {
    /// Conservative defaults: 50 ms power settle, 10 ms reset hold,
    /// 120 ms reset settle.
    fn default() -> (r: Timings)
        ensures
            r.power_settle_ms == 50,
            r.reset_hold_ms == 10,
            r.reset_settle_ms == 120,
    {
        Timings { power_settle_ms: 50, reset_hold_ms: 10, reset_settle_ms: 120 }
    }
}

/// Stand-in for the external display-controller driver: whether it accepts
/// its initialization, the standard initialization command sequence it
/// issues through the transport, and the command that opens a frame write.
/// The real driver decides these; the procedure only supplies the transport.
#[derive(Debug)]
pub struct ControllerModel {
    pub accepts_init: bool,
    pub init_commands: Vec<u16>,
    pub fill_command: u16,
}

/// One externally visible transition of the bring-up procedure.
#[derive(Clone, Copy, PartialEq, Eq, Structural, Debug)]
pub enum TraceEvent {
    Power(Level),
    ChipSelect(Level),
    Reset(Level),
    Backlight(Level),
    DelayMs(u64),
    Command(u16),
    Data(u16),
}

/// Where the procedure stands; the `...Wait` phases name the delay the
/// machine is suspended for.
#[derive(Clone, Copy, PartialEq, Eq, Structural, Debug)]
pub enum BringUpPhase {
    /// Not yet run.
    Start,
    /// Power and chip-select asserted; waiting out the power settle delay.
    PowerSettleWait,
    /// Reset asserted low; waiting out the reset hold time.
    ResetHoldWait,
    /// Reset released; waiting out the reset settle time.
    ResetSettleWait,
    /// Initialized, backlight on, frame filled; suspended indefinitely.
    Parked,
    /// Initialization failed; the procedure stopped, fatally.
    Halted,
}

/// What a scheduling turn of the procedure asks of the runtime.
#[derive(Clone, Copy, PartialEq, Eq, Structural, Debug)]
pub enum StepEffect {
    /// Suspend for at least this many milliseconds.
    Sleep(u64),
    /// Suspend indefinitely; never resume.
    Park,
    /// Fatal failure: the whole runtime stops.
    Halt,
}

/// Mathematical state of the bring-up procedure.
#[verifier::ext_equal]
pub struct BringUpModel {
    pub phase: BringUpPhase,
    pub power: Level,
    pub cs: Level,
    pub reset: Level,
    pub backlight: Level,
    pub port: PortModel,
    pub timings: Timings,
    pub accepts_init: bool,
    pub init_commands: Seq<u16>,
    pub fill_command: u16,
    pub fill_color: u16,
    pub pixel_count: usize,
    pub log: Seq<TraceEvent>,
}

/// Transitions of the first turn: power-enable up, chip-select down
/// (active), then the power settle delay.
pub open spec fn power_trace(t: Timings) -> Seq<TraceEvent> {
    seq![
        TraceEvent::Power(Level::High),
        TraceEvent::ChipSelect(Level::Low),
        TraceEvent::DelayMs(t.power_settle_ms),
    ]
}

/// Reset asserted, then held low.
pub open spec fn reset_low_trace(t: Timings) -> Seq<TraceEvent> {
    seq![TraceEvent::Reset(Level::Low), TraceEvent::DelayMs(t.reset_hold_ms)]
}

/// Reset released, then the settle wait.
pub open spec fn reset_high_trace(t: Timings) -> Seq<TraceEvent> {
    seq![TraceEvent::Reset(Level::High), TraceEvent::DelayMs(t.reset_settle_ms)]
}

/// The command writes of the controller's initialization sequence.
pub open spec fn commands_trace(cmds: Seq<u16>) -> Seq<TraceEvent> {
    Seq::new(cmds.len(), |i: int| TraceEvent::Command(cmds[i]))
}

/// The data writes of a full-frame fill.
pub open spec fn data_trace(value: u16, n: nat) -> Seq<TraceEvent> {
    Seq::new(n, |i: int| TraceEvent::Data(value))
}

/// Transitions of the final turn when the controller accepted its
/// initialization: the init commands, backlight up, then the fill — the
/// frame-open command and one data write per pixel.
pub open spec fn finish_trace(m: BringUpModel) -> Seq<TraceEvent> {
    commands_trace(m.init_commands) + seq![
        TraceEvent::Backlight(Level::High),
        TraceEvent::Command(m.fill_command),
    ] + data_trace(m.fill_color, m.pixel_count as nat)
}

/// Transport state after a sequence of command writes, issued in order.
pub open spec fn port_run_commands(s: PortModel, cmds: Seq<u16>) -> PortModel
    decreases cmds.len(),
{
    if cmds.len() == 0 {
        s
    } else {
        port_command(port_run_commands(s, cmds.drop_last()), cmds.last())
    }
}

/// Transport state after `n` data writes of the same value.
pub open spec fn port_run_data(s: PortModel, value: u16, n: nat) -> PortModel
    decreases n,
{
    if n == 0 {
        s
    } else {
        port_data(port_run_data(s, value, (n - 1) as nat), value)
    }
}

/// One scheduling turn of the bring-up procedure.
pub open spec fn bringup_step_model(m: BringUpModel) -> BringUpModel {
    match m.phase {
        BringUpPhase::Start => BringUpModel {
            phase: BringUpPhase::PowerSettleWait,
            power: Level::High,
            cs: Level::Low,
            log: m.log + power_trace(m.timings),
            ..m
        },
        BringUpPhase::PowerSettleWait => BringUpModel {
            phase: BringUpPhase::ResetHoldWait,
            reset: Level::Low,
            log: m.log + reset_low_trace(m.timings),
            ..m
        },
        BringUpPhase::ResetHoldWait => BringUpModel {
            phase: BringUpPhase::ResetSettleWait,
            reset: Level::High,
            log: m.log + reset_high_trace(m.timings),
            ..m
        },
        BringUpPhase::ResetSettleWait => if m.accepts_init {
            BringUpModel {
                phase: BringUpPhase::Parked,
                backlight: Level::High,
                port: port_run_data(
                    port_command(port_run_commands(m.port, m.init_commands), m.fill_command),
                    m.fill_color,
                    m.pixel_count as nat,
                ),
                log: m.log + finish_trace(m),
                ..m
            }
        } else {
            BringUpModel { phase: BringUpPhase::Halted, ..m }
        },
        BringUpPhase::Parked => m,
        BringUpPhase::Halted => m,
    }
}

/// What the turn from each phase asks of the runtime.
pub open spec fn bringup_effect_model(m: BringUpModel) -> StepEffect {
    match m.phase {
        BringUpPhase::Start => StepEffect::Sleep(m.timings.power_settle_ms),
        BringUpPhase::PowerSettleWait => StepEffect::Sleep(m.timings.reset_hold_ms),
        BringUpPhase::ResetHoldWait => StepEffect::Sleep(m.timings.reset_settle_ms),
        BringUpPhase::ResetSettleWait => if m.accepts_init {
            StepEffect::Park
        } else {
            StepEffect::Halt
        },
        BringUpPhase::Parked => StepEffect::Park,
        BringUpPhase::Halted => StepEffect::Halt,
    }
}

/// The transitions recorded so far, determined by the phase: the procedure
/// never reorders, repeats or skips a step.
pub open spec fn expected_log(m: BringUpModel) -> Seq<TraceEvent> {
    match m.phase {
        BringUpPhase::Start => Seq::<TraceEvent>::empty(),
        BringUpPhase::PowerSettleWait => power_trace(m.timings),
        BringUpPhase::ResetHoldWait => power_trace(m.timings) + reset_low_trace(m.timings),
        BringUpPhase::ResetSettleWait => power_trace(m.timings) + reset_low_trace(m.timings)
            + reset_high_trace(m.timings),
        BringUpPhase::Parked => power_trace(m.timings) + reset_low_trace(m.timings)
            + reset_high_trace(m.timings) + finish_trace(m),
        BringUpPhase::Halted => power_trace(m.timings) + reset_low_trace(m.timings)
            + reset_high_trace(m.timings),
    }
}

/// Invariant of the procedure: the recorded trace is exactly the fixed
/// prefix its phase prescribes, the end phases record how initialization
/// went, and the backlight is lit only once the frame path succeeded.
pub open spec fn bringup_inv(m: BringUpModel) -> bool {
    &&& m.log == expected_log(m)
    &&& (m.phase is Parked ==> m.accepts_init)
    &&& (m.phase is Halted ==> !m.accepts_init)
    &&& (!(m.phase is Parked) ==> m.backlight == Level::Low)
    &&& (m.phase is Parked ==> m.backlight == Level::High)
    &&& (!(m.phase is Start) ==> m.power == Level::High && m.cs == Level::Low)
    &&& (m.phase is ResetHoldWait ==> m.reset == Level::Low)
    &&& ((m.phase is ResetSettleWait || m.phase is Parked || m.phase is Halted) ==> m.reset
        == Level::High)
}

/// The bring-up task: the machine together with every line it exclusively
/// owns and the modeled controller driver.
pub struct BringUpTask {
    pub phase: BringUpPhase,
    pub power: Line,
    pub cs: Line,
    pub reset: Line,
    pub backlight: Line,
    pub port: Sequencer,
    pub timings: Timings,
    pub controller: ControllerModel,
    pub fill_color: u16,
    pub pixel_count: usize,
    pub log: Vec<TraceEvent>,
}

impl View for BringUpTask {
    type V = BringUpModel;

    open spec fn view(&self) -> BringUpModel {
        BringUpModel {
            phase: self.phase,
            power: self.power.level,
            cs: self.cs.level,
            reset: self.reset.level,
            backlight: self.backlight.level,
            port: self.port@,
            timings: self.timings,
            accepts_init: self.controller.accepts_init,
            init_commands: self.controller.init_commands@,
            fill_command: self.controller.fill_command,
            fill_color: self.fill_color,
            pixel_count: self.pixel_count,
            log: self.log@,
        }
    }
}

impl BringUpTask {
    pub open spec fn wf(self) -> bool {
        self.port.wf() && bringup_inv(self@)
    }

    /// Take exclusive ownership of the control lines and the data lines
    /// (one per bus bit), and build the transport. The bus and sequencer are
    /// assembled here, up front; nothing drives them before the settle
    /// delay has passed.
    pub fn new(
        power: Line,
        cs: Line,
        reset: Line,
        backlight: Line,
        data_lines: Vec<Line>,
        dc: Line,
        wr: Line,
        timings: Timings,
        controller: ControllerModel,
        fill_color: u16,
        pixel_count: usize,
    ) -> (r: BringUpTask)
        requires
            data_lines.len() == BUS_WIDTH,
            backlight.level == Level::Low,
        ensures
            r.wf(),
            r.phase == BringUpPhase::Start,
            r.log@ == Seq::<TraceEvent>::empty(),
            r@.timings == timings,
            r@.accepts_init == controller.accepts_init,
            r@.init_commands == controller.init_commands@,
            r@.fill_command == controller.fill_command,
            r@.fill_color == fill_color,
            r@.pixel_count == pixel_count,
    {
        let bus = ParallelBus::new(data_lines);
        let port = Sequencer::new(bus, dc, wr);
        let r = BringUpTask {
            phase: BringUpPhase::Start,
            power,
            cs,
            reset,
            backlight,
            port,
            timings,
            controller,
            fill_color,
            pixel_count,
            log: Vec::new(),
        };
        assert(r.log@ =~= Seq::<TraceEvent>::empty());
        r
    }

    /// One scheduling turn: run to the next suspension point, recording
    /// every transition, and say how to suspend.
    pub fn step(&mut self) -> (e: StepEffect)
        requires
            old(self).wf(),
        ensures
            final(self).wf(),
            final(self)@ == bringup_step_model(old(self)@),
            e == bringup_effect_model(old(self)@),
    {
        let ghost m0 = self@;
        match self.phase {
            BringUpPhase::Start => {
                self.power.set_high();
                self.log.push(TraceEvent::Power(Level::High));
                self.cs.set_low();
                self.log.push(TraceEvent::ChipSelect(Level::Low));
                let d = self.timings.power_settle_ms;
                self.log.push(TraceEvent::DelayMs(d));
                self.phase = BringUpPhase::PowerSettleWait;
                proof {
                    assert(self@.log =~= m0.log + power_trace(m0.timings));
                    assert(self@ =~= bringup_step_model(m0));
                }
                StepEffect::Sleep(d)
            }
            BringUpPhase::PowerSettleWait => {
                self.reset.set_low();
                self.log.push(TraceEvent::Reset(Level::Low));
                let d = self.timings.reset_hold_ms;
                self.log.push(TraceEvent::DelayMs(d));
                self.phase = BringUpPhase::ResetHoldWait;
                proof {
                    assert(self@.log =~= m0.log + reset_low_trace(m0.timings));
                    assert(self@ =~= bringup_step_model(m0));
                }
                StepEffect::Sleep(d)
            }
            BringUpPhase::ResetHoldWait => {
                self.reset.set_high();
                self.log.push(TraceEvent::Reset(Level::High));
                let d = self.timings.reset_settle_ms;
                self.log.push(TraceEvent::DelayMs(d));
                self.phase = BringUpPhase::ResetSettleWait;
                proof {
                    assert(self@.log =~= m0.log + reset_high_trace(m0.timings));
                    assert(self@ =~= bringup_step_model(m0));
                }
                StepEffect::Sleep(d)
            }
            BringUpPhase::ResetSettleWait => {
                if self.controller.accepts_init {
                    let n = self.controller.init_commands.len();
                    let mut i: usize = 0;
                    while i < n
                        invariant
                            self.port.wf(),
                            n == self.controller.init_commands.len(),
                            i <= n,
                            self.phase == m0.phase,
                            self.power.level == m0.power,
                            self.cs.level == m0.cs,
                            self.reset.level == m0.reset,
                            self.backlight.level == m0.backlight,
                            self.timings == m0.timings,
                            self.controller.accepts_init == m0.accepts_init,
                            self.controller.init_commands@ == m0.init_commands,
                            self.controller.fill_command == m0.fill_command,
                            self.fill_color == m0.fill_color,
                            self.pixel_count == m0.pixel_count,
                            self.port@ == port_run_commands(m0.port, m0.init_commands.take(i as int)),
                            self.log@ == m0.log + commands_trace(m0.init_commands.take(i as int)),
                        decreases n - i,
                    {
                        let c = self.controller.init_commands[i];
                        self.port.write_command(c);
                        self.log.push(TraceEvent::Command(c));
                        proof {
                            let pfx = m0.init_commands.take(i as int);
                            let pfx1 = m0.init_commands.take(i as int + 1);
                            assert(pfx1.drop_last() =~= pfx);
                            assert(pfx1.last() == m0.init_commands[i as int]);
                            assert(self.port@ == port_run_commands(m0.port, pfx1));
                            assert(commands_trace(pfx1) =~= commands_trace(pfx).push(
                                TraceEvent::Command(m0.init_commands[i as int]),
                            ));
                            assert(self.log@ =~= m0.log + commands_trace(pfx1));
                        }
                        i = i + 1;
                    }
                    proof {
                        assert(m0.init_commands.take(n as int) =~= m0.init_commands);
                    }
                    self.backlight.set_high();
                    self.log.push(TraceEvent::Backlight(Level::High));
                    let fc = self.controller.fill_command;
                    self.port.write_command(fc);
                    self.log.push(TraceEvent::Command(fc));
                    let ghost s2 = port_command(port_run_commands(m0.port, m0.init_commands), m0.fill_command);
                    let ghost log2 = m0.log + commands_trace(m0.init_commands) + seq![
                        TraceEvent::Backlight(Level::High),
                        TraceEvent::Command(m0.fill_command),
                    ];
                    assert(self.log@ =~= log2);
                    let count = self.pixel_count;
                    let mut k: usize = 0;
                    while k < count
                        invariant
                            self.port.wf(),
                            count == self.pixel_count,
                            k <= count,
                            self.phase == m0.phase,
                            self.power.level == m0.power,
                            self.cs.level == m0.cs,
                            self.reset.level == m0.reset,
                            self.backlight.level == Level::High,
                            self.timings == m0.timings,
                            self.controller.accepts_init == m0.accepts_init,
                            self.controller.init_commands@ == m0.init_commands,
                            self.controller.fill_command == m0.fill_command,
                            self.fill_color == m0.fill_color,
                            self.pixel_count == m0.pixel_count,
                            self.port@ == port_run_data(s2, m0.fill_color, k as nat),
                            self.log@ == log2 + data_trace(m0.fill_color, k as nat),
                        decreases count - k,
                    {
                        let v = self.fill_color;
                        self.port.write_data(v);
                        self.log.push(TraceEvent::Data(v));
                        proof {
                            assert(data_trace(m0.fill_color, (k + 1) as nat) =~= data_trace(
                                m0.fill_color,
                                k as nat,
                            ).push(TraceEvent::Data(m0.fill_color)));
                            assert(self.log@ =~= log2 + data_trace(m0.fill_color, (k + 1) as nat));
                        }
                        k = k + 1;
                    }
                    self.phase = BringUpPhase::Parked;
                    proof {
                        assert(self@.log =~= m0.log + finish_trace(m0));
                        assert(self@ =~= bringup_step_model(m0));
                        lemma_step_preserves_inv(m0);
                    }
                    StepEffect::Park
                } else {
                    self.phase = BringUpPhase::Halted;
                    proof {
                        assert(self@ =~= bringup_step_model(m0));
                    }
                    StepEffect::Halt
                }
            }
            BringUpPhase::Parked => {
                proof {
                    assert(self@ =~= bringup_step_model(m0));
                }
                StepEffect::Park
            }
            BringUpPhase::Halted => {
                proof {
                    assert(self@ =~= bringup_step_model(m0));
                }
                StepEffect::Halt
            }
        }
    }
}

/// Every turn keeps the procedure's invariant: the trace stays the exact
/// prefix the phase prescribes.
pub proof fn lemma_step_preserves_inv(m: BringUpModel)
    requires
        bringup_inv(m),
    ensures
        bringup_inv(bringup_step_model(m)),
{
    let m1 = bringup_step_model(m);
    match m.phase {
        BringUpPhase::Start => {
            assert(m1.log =~= power_trace(m1.timings));
        }
        BringUpPhase::PowerSettleWait => {}
        BringUpPhase::ResetHoldWait => {}
        BringUpPhase::ResetSettleWait => {
            if m.accepts_init {
                assert(finish_trace(m1) == finish_trace(m));
            }
        }
        BringUpPhase::Parked => {}
        BringUpPhase::Halted => {}
    }
}

/// The bring-up procedure, once parked, has issued exactly the fixed
/// transition order: power-enable up, chip-select down, the power settle
/// delay, reset down, the hold delay, reset up, the settle delay, the
/// controller's command writes, backlight up, then the fill's data writes.
/// Any reordering is ruled out: the whole trace is pinned.
pub proof fn lemma_bringup_order(m: BringUpModel)
    requires
        bringup_inv(m),
        m.phase is Parked,
    ensures
        m.accepts_init,
        m.backlight == Level::High,
        m.log == power_trace(m.timings) + reset_low_trace(m.timings) + reset_high_trace(m.timings)
            + finish_trace(m),
{
}

/// If the controller refused its initialization, the procedure never
/// reaches the backlight or the fill: it is not parked, the backlight line
/// is still low, and the trace holds no backlight-on transition and no data
/// write — no partial visible state.
pub proof fn lemma_failed_init_stays_dark(m: BringUpModel)
    requires
        bringup_inv(m),
        !m.accepts_init,
    ensures
        !(m.phase is Parked),
        m.backlight == Level::Low,
        forall|i: int|
            0 <= i < m.log.len() ==> #[trigger] m.log[i] != TraceEvent::Backlight(Level::High)
                && !(m.log[i] is Data),
{
    let t = m.timings;
    let full = power_trace(t) + reset_low_trace(t) + reset_high_trace(t);
    assert(full =~= seq![
        TraceEvent::Power(Level::High),
        TraceEvent::ChipSelect(Level::Low),
        TraceEvent::DelayMs(t.power_settle_ms),
        TraceEvent::Reset(Level::Low),
        TraceEvent::DelayMs(t.reset_hold_ms),
        TraceEvent::Reset(Level::High),
        TraceEvent::DelayMs(t.reset_settle_ms),
    ]);
    assert forall|i: int| 0 <= i < full.len() implies #[trigger] full[i] != TraceEvent::Backlight(
        Level::High,
    ) && !(full[i] is Data) by {
        if i == 0 {
        } else if i == 1 {
        } else if i == 2 {
        } else if i == 3 {
        } else if i == 4 {
        } else if i == 5 {
        } else {
            assert(i == 6);
        }
    }
    match m.phase {
        BringUpPhase::Start => {}
        BringUpPhase::PowerSettleWait => {
            assert(m.log =~= full.take(3));
        }
        BringUpPhase::ResetHoldWait => {
            assert(m.log =~= full.take(5));
        }
        BringUpPhase::ResetSettleWait => {
            assert(m.log =~= full);
        }
        BringUpPhase::Parked => {}
        BringUpPhase::Halted => {
            assert(m.log =~= full);
        }
    }
}

} // verus!
