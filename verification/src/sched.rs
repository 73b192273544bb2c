//! Cooperative task scheduler.
//!
//! A single logical thread of control multiplexes a fixed set of tasks; a
//! task runs until it voluntarily suspends — on a timer wait (resume
//! guaranteed not before the deadline, with no upper bound) or on the
//! indefinite-suspend primitive, which never resumes. A scheduling round
//! steps every due task once, in round-robin (index) order, against a
//! monotonic clock. A fatal fault raised by a task halts the whole runtime:
//! from the next round on, nothing is stepped again — the documented
//! coupling by which a display fault also stops the blink.

use vstd::prelude::*;

use crate::blink::{blink_run, blink_step_model, lemma_blink_toggle_count, BlinkTask};
use crate::bringup::{
    bringup_effect_model, bringup_step_model, BringUpModel, BringUpTask, StepEffect,
};

verus! {

/// Deadline arithmetic saturates at the clock's top instead of wrapping.
pub open spec fn sat_add(a: u64, b: u64) -> u64 {
    if a + b > u64::MAX {
        u64::MAX
    } else {
        (a + b) as u64
    }
}

fn saturating_add(a: u64, b: u64) -> (r: u64)
    ensures
        r == sat_add(a, b),
{
    if b > u64::MAX - a {
        u64::MAX
    } else {
        a + b
    }
}

/// Scheduling state of one task.
#[derive(Clone, Copy, PartialEq, Eq, Structural, Debug)]
pub enum TaskState {
    /// Due to run at the next round.
    Runnable,
    /// Not to be resumed before the deadline elapses (a lower bound on the
    /// wake delay, never an upper bound).
    SuspendedUntil(u64),
    /// The indefinite suspension: never resumed, by design.
    SuspendedForever,
}

/// The two task machines this system spawns.
pub enum TaskKind {
    Blink(BlinkTask),
    BringUp(BringUpTask),
}

/// One registered task: its machine and its scheduling state.
pub struct TaskSlot {
    pub kind: TaskKind,
    pub state: TaskState,
}

/// Spawning can only fail by exceeding the fixed task capacity.
#[derive(Clone, Copy, PartialEq, Eq, Structural, Debug)]
pub enum SpawnError {
    CapacityExceeded,
}

/// A task machine in the model.
pub enum KindModel {
    Blink(BlinkTask),
    BringUp(BringUpModel),
}

/// One registered task in the model.
#[verifier::ext_equal]
pub struct SlotModel {
    pub kind: KindModel,
    pub state: TaskState,
}

/// The whole runtime in the model.
#[verifier::ext_equal]
pub struct SchedModel {
    pub slots: Seq<SlotModel>,
    pub capacity: usize,
    pub now: u64,
    pub halted: bool,
}

impl View for TaskKind {
    type V = KindModel;

    open spec fn view(&self) -> KindModel {
        match self {
            TaskKind::Blink(b) => KindModel::Blink(*b),
            TaskKind::BringUp(t) => KindModel::BringUp(t@),
        }
    }
}

impl View for TaskSlot {
    type V = SlotModel;

    open spec fn view(&self) -> SlotModel {
        SlotModel { kind: self.kind@, state: self.state }
    }
}

/// A task is due when it is runnable, or suspended on a deadline that has
/// elapsed. A task suspended forever is never due.
pub open spec fn ready(s: TaskState, now: u64) -> bool {
    match s {
        TaskState::Runnable => true,
        TaskState::SuspendedUntil(t) => t <= now,
        TaskState::SuspendedForever => false,
    }
}

/// One turn of a due task: step its machine and suspend it as the machine
/// asked — a timer deadline for a sleep, the final suspension for park and
/// for a fatal halt.
pub open spec fn slot_step_model(s: SlotModel, now: u64) -> SlotModel {
    match s.kind {
        KindModel::Blink(b) => SlotModel {
            kind: KindModel::Blink(blink_step_model(b)),
            state: TaskState::SuspendedUntil(sat_add(now, b.half_period_ms)),
        },
        KindModel::BringUp(m) => SlotModel {
            kind: KindModel::BringUp(bringup_step_model(m)),
            state: match bringup_effect_model(m) {
                StepEffect::Sleep(d) => TaskState::SuspendedUntil(sat_add(now, d)),
                StepEffect::Park => TaskState::SuspendedForever,
                StepEffect::Halt => TaskState::SuspendedForever,
            },
        },
    }
}

/// Whether this turn raises the fatal fault.
pub open spec fn slot_halts(s: SlotModel) -> bool {
    match s.kind {
        KindModel::Blink(_) => false,
        KindModel::BringUp(m) => bringup_effect_model(m) is Halt,
    }
}

/// One scheduling round: every due task is stepped exactly once, the rest
/// are untouched; a fatal fault latches the halt flag, and a halted runtime
/// never moves again.
pub open spec fn round_model(m: SchedModel) -> SchedModel {
    if m.halted {
        m
    } else {
        SchedModel {
            slots: Seq::new(
                m.slots.len(),
                |i: int|
                    if ready(m.slots[i].state, m.now) {
                        slot_step_model(m.slots[i], m.now)
                    } else {
                        m.slots[i]
                    },
            ),
            halted: exists|i: int|
                0 <= i < m.slots.len() && ready(#[trigger] m.slots[i].state, m.now) && slot_halts(
                    m.slots[i],
                ),
            ..m
        }
    }
}

/// A run: advance the monotonic clock to each instant in turn and hold a
/// scheduling round there.
pub open spec fn run_model(m: SchedModel, times: Seq<u64>) -> SchedModel
    decreases times.len(),
{
    if times.len() == 0 {
        m
    } else {
        run_model(round_model(SchedModel { now: times[0], ..m }), times.drop_first())
    }
}

/// Machine-level well-formedness of a registered task.
pub open spec fn slot_exec_wf(s: TaskSlot) -> bool {
    match s.kind {
        TaskKind::Blink(_) => true,
        TaskKind::BringUp(t) => t.wf(),
    }
}

/// The runtime: the registered tasks, the fixed capacity, the monotonic
/// clock, and the fatal-fault latch.
pub struct Scheduler {
    pub tasks: Vec<TaskSlot>,
    pub capacity: usize,
    pub now: u64,
    pub halted: bool,
}

impl View for Scheduler {
    type V = SchedModel;

    open spec fn view(&self) -> SchedModel {
        SchedModel {
            slots: Seq::new(self.tasks@.len(), |i: int| self.tasks@[i]@),
            capacity: self.capacity,
            now: self.now,
            halted: self.halted,
        }
    }
}

impl Scheduler {
    pub open spec fn wf(self) -> bool {
        &&& self.tasks.len() <= self.capacity
        &&& forall|i: int| 0 <= i < self.tasks.len() ==> slot_exec_wf(#[trigger] self.tasks@[i])
    }

    /// An empty runtime with a fixed task capacity, at clock zero.
    pub fn new(capacity: usize) -> (r: Scheduler)
        ensures
            r.wf(),
            r@.slots == Seq::<SlotModel>::empty(),
            r@.capacity == capacity,
            r@.now == 0,
            !r@.halted,
    {
        let r = Scheduler { tasks: Vec::new(), capacity, now: 0, halted: false };
        assert(r@.slots =~= Seq::<SlotModel>::empty());
        r
    }

    /// Register a task, runnable at once. Fails exactly when the fixed
    /// capacity is already reached; the task set never shrinks, so with the
    /// counts of this system that failure path is unreachable in practice —
    /// but it must exist.
    pub fn spawn(&mut self, kind: TaskKind) -> (r: Result<usize, SpawnError>)
        requires
            old(self).wf(),
            slot_exec_wf(TaskSlot { kind: kind, state: TaskState::Runnable }),
        ensures
            final(self).wf(),
            old(self).tasks.len() < old(self).capacity ==> {
                &&& r == Result::<usize, SpawnError>::Ok(old(self).tasks.len())
                &&& final(self)@ == (SchedModel {
                    slots: old(self)@.slots.push(
                        SlotModel { kind: kind@, state: TaskState::Runnable },
                    ),
                    ..old(self)@
                })
            },
            old(self).tasks.len() >= old(self).capacity ==> {
                &&& r == Result::<usize, SpawnError>::Err(SpawnError::CapacityExceeded)
                &&& *final(self) == *old(self)
            },
    {
        if self.tasks.len() < self.capacity {
            let idx = self.tasks.len();
            let ghost kind_m = kind@;
            self.tasks.push(TaskSlot { kind, state: TaskState::Runnable });
            proof {
                assert(self@.slots =~= old(self)@.slots.push(
                    SlotModel { kind: kind_m, state: TaskState::Runnable },
                ));
                assert(self@ =~= (SchedModel {
                    slots: old(self)@.slots.push(
                        SlotModel { kind: kind_m, state: TaskState::Runnable },
                    ),
                    ..old(self)@
                }));
            }
            Ok(idx)
        } else {
            Err(SpawnError::CapacityExceeded)
        }
    }

    /// Advance the monotonic clock; time never runs backwards.
    pub fn advance_to(&mut self, t: u64)
        requires
            old(self).wf(),
            old(self).now <= t,
        ensures
            final(self).wf(),
            final(self)@ == (SchedModel { now: t, ..old(self)@ }),
    {
        self.now = t;
        proof {
            assert(self@ =~= (SchedModel { now: t, ..old(self)@ }));
        }
    }

    /// One scheduling round at the current instant: step every due task
    /// once, in round-robin order; latch the fatal fault if one was raised.
    pub fn poll_round(&mut self)
        requires
            old(self).wf(),
        ensures
            final(self).wf(),
            final(self)@ == round_model(old(self)@),
    {
        let ghost m0 = self@;
        if self.halted {
            return;
        }
        let mut halt_seen: bool = false;
        let n = self.tasks.len();
        let mut i: usize = 0;
        while i < n
            invariant
                !m0.halted,
                n == m0.slots.len(),
                self.tasks.len() == n,
                i <= n,
                self.capacity == m0.capacity,
                self.now == m0.now,
                !self.halted,
                self.tasks.len() <= self.capacity,
                forall|j: int| 0 <= j < n ==> slot_exec_wf(#[trigger] self.tasks@[j]),
                forall|j: int|
                    0 <= j < i ==> #[trigger] self.tasks@[j]@ == (if ready(
                        m0.slots[j].state,
                        m0.now,
                    ) {
                        slot_step_model(m0.slots[j], m0.now)
                    } else {
                        m0.slots[j]
                    }),
                forall|j: int| i <= j < n ==> #[trigger] self.tasks@[j]@ == m0.slots[j],
                halt_seen == exists|j: int|
                    0 <= j < i && ready(#[trigger] m0.slots[j].state, m0.now) && slot_halts(
                        m0.slots[j],
                    ),
            decreases n - i,
        {
            proof {
                assert(self.tasks@[i as int]@ == m0.slots[i as int]);
            }
            let st = self.tasks[i].state;
            let is_due = match st {
                TaskState::Runnable => true,
                TaskState::SuspendedUntil(t) => t <= self.now,
                TaskState::SuspendedForever => false,
            };
            proof {
                assert(st == m0.slots[i as int].state);
                assert(is_due == ready(m0.slots[i as int].state, m0.now));
            }
            if is_due {
                let ghost tasks_before = self.tasks@;
                let slot = self.tasks.remove(i);
                proof {
                    assert(slot@ == m0.slots[i as int]);
                }
                let TaskSlot { kind, state: _ } = slot;
                let new_slot = match kind {
                    TaskKind::Blink(mut b) => {
                        proof {
                            assert(m0.slots[i as int].kind == KindModel::Blink(b));
                            assert(!slot_halts(m0.slots[i as int]));
                        }
                        let d = b.step();
                        let dl = saturating_add(self.now, d);
                        TaskSlot {
                            kind: TaskKind::Blink(b),
                            state: TaskState::SuspendedUntil(dl),
                        }
                    }
                    TaskKind::BringUp(mut t) => {
                        proof {
                            assert(m0.slots[i as int].kind == KindModel::BringUp(t@));
                        }
                        let e = t.step();
                        let next_state = match e {
                            StepEffect::Sleep(d) => TaskState::SuspendedUntil(
                                saturating_add(self.now, d),
                            ),
                            StepEffect::Park => TaskState::SuspendedForever,
                            StepEffect::Halt => {
                                halt_seen = true;
                                TaskState::SuspendedForever
                            }
                        };
                        proof {
                            assert(slot_halts(m0.slots[i as int]) == (e is Halt));
                        }
                        TaskSlot { kind: TaskKind::BringUp(t), state: next_state }
                    }
                };
                proof {
                    assert(new_slot@ == slot_step_model(m0.slots[i as int], m0.now));
                }
                self.tasks.insert(i, new_slot);
                proof {
                    assert(self.tasks@ =~= tasks_before.update(i as int, new_slot));
                }
            } else {
                proof {
                    assert(!ready(m0.slots[i as int].state, m0.now));
                }
            }
            i = i + 1;
        }
        self.halted = halt_seen;
        proof {
            assert(self@.slots =~= round_model(m0).slots);
            assert(self@ =~= round_model(m0));
        }
    }
}

/// The indefinite-suspend primitive is final: whatever instants the clock
/// passes through and however many rounds are held, a task suspended
/// forever is never stepped again — its machine and its state stay exactly
/// as they were, consuming no scheduling turn.
pub proof fn lemma_suspended_forever_never_resumes(m: SchedModel, times: Seq<u64>, i: int)
    requires
        0 <= i < m.slots.len(),
        m.slots[i].state is SuspendedForever,
    ensures
        run_model(m, times).slots.len() == m.slots.len(),
        run_model(m, times).slots[i] == m.slots[i],
    decreases times.len(),
{
    if times.len() > 0 {
        let m1 = SchedModel { now: times[0], ..m };
        let m2 = round_model(m1);
        assert(m2.slots.len() == m.slots.len());
        assert(m2.slots[i] == m.slots[i]);
        lemma_suspended_forever_never_resumes(m2, times.drop_first(), i);
    }
}

/// A timer deadline is a lower bound: as long as the clock has not reached
/// a suspended task's deadline, no round touches that task.
pub proof fn lemma_no_resume_before_deadline(m: SchedModel, times: Seq<u64>, i: int, dl: u64)
    requires
        0 <= i < m.slots.len(),
        m.slots[i].state == TaskState::SuspendedUntil(dl),
        forall|k: int| 0 <= k < times.len() ==> #[trigger] times[k] < dl,
    ensures
        run_model(m, times).slots.len() == m.slots.len(),
        run_model(m, times).slots[i] == m.slots[i],
    decreases times.len(),
{
    if times.len() > 0 {
        let m1 = SchedModel { now: times[0], ..m };
        let m2 = round_model(m1);
        assert(m2.slots[i] == m.slots[i]);
        assert(forall|k: int|
            0 <= k < times.drop_first().len() ==> #[trigger] times.drop_first()[k] < dl);
        lemma_no_resume_before_deadline(m2, times.drop_first(), i, dl);
    }
}

/// The instants `start, start + h, ..., start + (n - 1) * h`: a round held
/// exactly at each successive deadline of a task on period `h`.
pub open spec fn periodic(start: u64, h: u64, n: nat) -> Seq<u64> {
    Seq::new(n, |k: int| (start + k * h) as u64)
}

/// A runtime whose only task is an armed blink task on half-period `h`,
/// polled promptly — one round at each successive deadline — toggles the
/// line exactly once per `h` of elapsed time: after the round at
/// `dl + (n - 1) * h`, that is after `n` half-periods, the count has grown
/// by exactly `n` and the next deadline is one further half-period out.
/// None missed, none duplicated.
pub proof fn lemma_blink_prompt_run_counts(m: SchedModel, b: BlinkTask, dl: u64, n: nat)
    requires
        !m.halted,
        m.slots.len() == 1,
        m.slots[0].kind == KindModel::Blink(b),
        m.slots[0].state == TaskState::SuspendedUntil(dl),
        b.started,
        dl + n * b.half_period_ms <= u64::MAX,
        b.toggles + n <= u64::MAX,
    ensures
        !run_model(m, periodic(dl, b.half_period_ms, n)).halted,
        run_model(m, periodic(dl, b.half_period_ms, n)).slots.len() == 1,
        run_model(m, periodic(dl, b.half_period_ms, n)).slots[0].kind == KindModel::Blink(
            blink_run(b, n),
        ),
        run_model(m, periodic(dl, b.half_period_ms, n)).slots[0].state == TaskState::SuspendedUntil(
            (dl + n * b.half_period_ms) as u64,
        ),
        blink_run(b, n).toggles == b.toggles + n,
    decreases n,
{
    let h = b.half_period_ms;
    let times = periodic(dl, h, n);
    lemma_blink_toggle_count(b, n);
    if n == 0 {
        assert(times =~= Seq::<u64>::empty());
    } else {
        assert(times[0] == dl);
        let m1 = SchedModel { now: dl, ..m };
        let m2 = round_model(m1);
        assert(ready(m1.slots[0].state, dl));
        let b1 = blink_step_model(b);
        assert(blink_run(b, 0) == b);
        assert(blink_run(b, 1) == b1);
        assert(m2.slots[0] == SlotModel {
            kind: KindModel::Blink(b1),
            state: TaskState::SuspendedUntil(sat_add(dl, h)),
        });
        assert(!m2.halted);
        assert(h <= n * h) by (nonlinear_arith)
            requires
                n >= 1,
        ;
        assert(sat_add(dl, h) == (dl + h) as u64);
        let dl1 = (dl + h) as u64;
        assert((n - 1) * h == n * h - h) by (nonlinear_arith)
            requires
                n >= 1,
        ;
        assert(dl1 + (n - 1) * h == dl + n * h);
        lemma_blink_prompt_run_counts(m2, b1, dl1, (n - 1) as nat);
        assert(times.drop_first() =~= periodic(dl1, h, (n - 1) as nat)) by {
            assert forall|k: int| 0 <= k < n - 1 implies times.drop_first()[k] == periodic(
                dl1,
                h,
                (n - 1) as nat,
            )[k] by {
                assert(times.drop_first()[k] == times[k + 1]);
                assert((k + 1) * h == k * h + h) by (nonlinear_arith);
                assert(dl + (k + 1) * h == dl1 + k * h);
            }
        }
        assert(blink_run(b1, (n - 1) as nat) == blink_run(b, n)) by {
            lemma_blink_run_shift(b, (n - 1) as nat);
        }
    }
}

/// Stepping once and then running `k` turns is running `k + 1` turns.
proof fn lemma_blink_run_shift(b: BlinkTask, k: nat)
    ensures
        blink_run(blink_step_model(b), k) == blink_run(b, k + 1),
    decreases k,
{
    let b1 = blink_step_model(b);
    if k == 0 {
        assert(blink_run(b1, 0) == b1);
        assert(blink_run(b, 0) == b);
        assert(blink_run(b, 1) == b1);
    } else {
        lemma_blink_run_shift(b, (k - 1) as nat);
        assert(blink_run(b1, k) == blink_step_model(
            blink_run(b1, (k - 1) as nat),
        ));
        assert(blink_run(b, k + 1) == blink_step_model(
            blink_run(b, k),
        ));
    }
}

/// The fatal-fault latch stops the whole runtime: once halted, no later
/// round steps any task — which is why a display fault also stops the
/// blink.
pub proof fn lemma_halt_stops_everything(m: SchedModel, times: Seq<u64>)
    requires
        m.halted,
    ensures
        run_model(m, times).slots == m.slots,
        run_model(m, times).capacity == m.capacity,
        run_model(m, times).halted,
    decreases times.len(),
{
    if times.len() > 0 {
        let m1 = SchedModel { now: times[0], ..m };
        assert(round_model(m1) == m1);
        lemma_halt_stops_everything(m1, times.drop_first());
    }
}

} // verus!
