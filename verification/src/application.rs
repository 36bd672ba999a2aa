//! Frame pacing: when the next frame is due, how long to sleep until then,
//! and the bookkeeping of time and frame counters around each frame.

use vstd::prelude::*;
use crate::graphics::{Graphics, GraphicsContext, Metrics};
use crate::run_flag::RunFlag;

verus! {

/// Microseconds in one second.
pub const MICROS_PER_SECOND: i64 = 1_000_000;

/// The least distance kept between a frame and the one after it.
pub const MIN_CYCLE_TIME: i64 = 10_000;

/// The longest single sleep between two pacing checks.
pub const MAX_SLEEP_TIME: i64 = 5_000;

/// The latest clock reading the pacer accepts, one second short of the end of `i64`.
pub const MAX_TIME: i64 = 9_223_372_036_853_775_807;

/// What the loop does after a pacing check.
#[derive(Clone, Copy, Debug, PartialEq, Eq)]
pub enum Pace {
    /// A frame is due: simulate and render now.
    Render,
    /// No frame is due: sleep this many microseconds, then check again.
    Sleep(i64),
}

/// The time at which the frame after one fired at `now` is due: one cycle
/// after the previous due time, but never less than the minimum slack after `now`.
pub open spec fn next_due(next_cycle: int, cycle_time: int, now: int) -> int {
    if next_cycle + cycle_time < now + MIN_CYCLE_TIME {
        now + MIN_CYCLE_TIME
    } else {
        next_cycle + cycle_time
    }
}

/// The length of one sleep when the next frame is due at `next_cycle`.
pub open spec fn sleep_time(next_cycle: int, now: int) -> int {
    if next_cycle - now > MAX_SLEEP_TIME {
        MAX_SLEEP_TIME as int
    } else {
        next_cycle - now
    }
}

/// The distance between two frames that are both on time.
pub open spec fn period(cycle_time: int) -> int {
    if cycle_time < MIN_CYCLE_TIME {
        MIN_CYCLE_TIME as int
    } else {
        cycle_time
    }
}

/// Fixed-cadence pacing with catch-up.
pub struct Pacer {
    cycle_time: i64,
    next_cycle: i64,
}

impl Pacer {
    /// Microseconds between two frame starts.
    pub closed spec fn cycle_time(&self) -> int {
        self.cycle_time as int
    }

    /// The time, in microseconds since the reference, at which the next frame is due.
    pub closed spec fn next_cycle(&self) -> int {
        self.next_cycle as int
    }

    pub open spec fn wf(&self) -> bool {
        &&& 0 <= self.cycle_time() <= MICROS_PER_SECOND
        &&& 0 <= self.next_cycle()
    }

    /// A pacer for `frame_rate` frames per second, whose first frame is due at once.
    pub fn new(frame_rate: i32) -> (pacer: Pacer)
        requires
            frame_rate > 0,
        ensures
            pacer.wf(),
            pacer.cycle_time() == MICROS_PER_SECOND as int / frame_rate as int,
            pacer.next_cycle() == 0,
    {
        let rate: i64 = frame_rate as i64;
        let cycle_time: i64 = MICROS_PER_SECOND / rate;
        assert(0 <= 1_000_000int / (rate as int) <= 1_000_000) by (nonlinear_arith)
            requires
                1 <= rate,
        ;
        Pacer { cycle_time, next_cycle: 0 }
    }

    /// The configured cycle time in microseconds.
    pub fn get_cycle_time(&self) -> (micros: i64)
        ensures
            micros == self.cycle_time(),
    {
        self.cycle_time
    }

    /// The time at which the next frame is due.
    pub fn get_next_cycle(&self) -> (micros: i64)
        ensures
            micros == self.next_cycle(),
    {
        self.next_cycle
    }

    /// One pacing check at clock reading `now`.
    ///
    /// When a frame is due it is granted and the due time moves on by one
    /// cycle, clamped so that it lies at least the minimum slack after `now`.
    /// Otherwise the due time stays and the answer is a sleep that ends no
    /// later than the due time and lasts no longer than the maximum sleep.
    pub fn poll(&mut self, now: i64) -> (pace: Pace)
        requires
            old(self).wf(),
            0 <= now <= MAX_TIME,
        ensures
            final(self).wf(),
            final(self).cycle_time() == old(self).cycle_time(),
            now >= old(self).next_cycle() ==> pace == Pace::Render && final(self).next_cycle()
                == next_due(old(self).next_cycle(), old(self).cycle_time(), now as int),
            now < old(self).next_cycle() ==> pace == Pace::Sleep(
                sleep_time(old(self).next_cycle(), now as int) as i64,
            ) && final(self).next_cycle() == old(self).next_cycle(),
            pace is Render ==> final(self).next_cycle() >= now + MIN_CYCLE_TIME,
            pace is Sleep ==> 1 <= pace->Sleep_0 <= MAX_SLEEP_TIME && now + pace->Sleep_0
                <= final(self).next_cycle(),
    {
        if now >= self.next_cycle {
            let mut next: i64 = self.next_cycle + self.cycle_time;
            if next < now + MIN_CYCLE_TIME {
                next = now + MIN_CYCLE_TIME;
            }
            self.next_cycle = next;
            Pace::Render
        } else {
            let remaining: i64 = self.next_cycle - now;
            if remaining > MAX_SLEEP_TIME {
                Pace::Sleep(MAX_SLEEP_TIME)
            } else {
                Pace::Sleep(remaining)
            }
        }
    }
}

/// The length of a statistics window in microseconds.
pub const STATISTICS_WINDOW: i64 = 5_000_000;

/// One thing to do in a frame, in the order in which it is done.
#[derive(Clone, Copy, Debug, PartialEq, Eq)]
pub enum FrameStep {
    /// Tell the logic that the layout changed.
    UpdateLayout,
    /// Publish time, delta and frame counter to the metrics.
    PublishMetrics,
    /// Let the logic simulate one step.
    UpdateState,
    /// Prepare the frame for drawing; a failure ends the loop.
    BeginDraw,
    /// Let the logic issue its draw calls.
    UpdateGraphics,
    /// Count the frame as rendered.
    CountFrame,
    /// Present the frame; a failure ends the loop.
    EndDraw,
}

/// The steps of one frame: the layout update comes first and only if the
/// layout changed; then the metrics are published and the logic simulates;
/// a minimized window skips the rest, otherwise the frame is drawn,
/// counted and presented.
pub open spec fn frame_plan(layout_changed: bool, minimized: bool) -> Seq<FrameStep> {
    (if layout_changed {
        seq![FrameStep::UpdateLayout]
    } else {
        seq![]
    }) + seq![FrameStep::PublishMetrics, FrameStep::UpdateState] + (if minimized {
        seq![]
    } else {
        seq![
            FrameStep::BeginDraw,
            FrameStep::UpdateGraphics,
            FrameStep::CountFrame,
            FrameStep::EndDraw,
        ]
    })
}

/// What the loop does next.
#[derive(Clone, Copy, Debug, PartialEq, Eq)]
pub enum Decision {
    /// Leave the loop and tear down.
    Exit,
    /// Run one frame now.
    Frame,
    /// Sleep this many microseconds, then ask again.
    Sleep(i64),
}

/// The frames counted in a closed statistics window and its length.
#[derive(Clone, Copy, Debug, PartialEq, Eq)]
pub struct FrameRate {
    pub frames: u64,
    pub micros: i64,
}

/// The state of a scheduler as contracts see it.
pub struct SchedulerState {
    pub running: bool,
    pub released: bool,
    pub cycle_time: int,
    pub next_cycle: int,
    pub last_update_time: int,
    pub last_statistics_time: int,
    pub time_micros: int,
    pub delta_micros: int,
    pub frame_counter: nat,
    pub delta_frames: nat,
    pub average: FrameRate,
}

/// The time from `earlier` to `now`, zero if `earlier` is not earlier.
pub open spec fn elapsed(now: int, earlier: int) -> int {
    if now >= earlier {
        now - earlier
    } else {
        0
    }
}

/// The counter after `counter`, back at zero after the last value of `u64`.
pub open spec fn next_count(counter: nat) -> nat {
    if counter >= u64::MAX {
        0
    } else {
        counter + 1
    }
}

/// A token that keeps the graphics context of an application alive.
#[derive(Clone, Copy, Debug, PartialEq, Eq)]
pub struct ApplicationContext {
    _engine_context: GraphicsContext,
}

impl ApplicationContext {
    /// The graphics context that is kept alive.
    pub closed spec fn engine_context(&self) -> GraphicsContext {
        self._engine_context
    }

    pub fn new(engine_context: GraphicsContext) -> (context: Self)
        ensures
            context.engine_context() == engine_context,
    {
        ApplicationContext { _engine_context: engine_context }
    }
}

/// The frame scheduler: pacing, clock bookkeeping, counters and lifecycle.
pub struct Scheduler {
    pacer: Pacer,
    running: bool,
    released: bool,
    last_update_time: i64,
    last_statistics_time: i64,
    time_micros: i64,
    delta_micros: i64,
    frame_counter: u64,
    delta_frames: u64,
    average: FrameRate,
}

impl View for Scheduler {
    type V = SchedulerState;

    closed spec fn view(&self) -> SchedulerState {
        SchedulerState {
            running: self.running,
            released: self.released,
            cycle_time: self.pacer.cycle_time(),
            next_cycle: self.pacer.next_cycle(),
            last_update_time: self.last_update_time as int,
            last_statistics_time: self.last_statistics_time as int,
            time_micros: self.time_micros as int,
            delta_micros: self.delta_micros as int,
            frame_counter: self.frame_counter as nat,
            delta_frames: self.delta_frames as nat,
            average: self.average,
        }
    }
}

impl Scheduler {
    /// The invariant of a scheduler: a valid pacer, and no time before the reference.
    pub closed spec fn wf(&self) -> bool {
        &&& self.pacer.wf()
        &&& 0 <= self.last_update_time
        &&& 0 <= self.last_statistics_time
        &&& 0 <= self.time_micros
        &&& 0 <= self.delta_micros
    }

    /// A scheduler for `frame_rate` frames per second, created at the
    /// reference time: not running, all clocks and counters at zero.
    pub fn new(frame_rate: i32) -> (scheduler: Scheduler)
        requires
            frame_rate > 0,
        ensures
            scheduler.wf(),
            scheduler@ == (SchedulerState {
                running: false,
                released: false,
                cycle_time: MICROS_PER_SECOND as int / frame_rate as int,
                next_cycle: 0,
                last_update_time: 0,
                last_statistics_time: 0,
                time_micros: 0,
                delta_micros: 0,
                frame_counter: 0,
                delta_frames: 0,
                average: FrameRate { frames: 0, micros: 0 },
            }),
    {
        Scheduler {
            pacer: Pacer::new(frame_rate),
            running: false,
            released: false,
            last_update_time: 0,
            last_statistics_time: 0,
            time_micros: 0,
            delta_micros: 0,
            frame_counter: 0,
            delta_frames: 0,
            average: FrameRate { frames: 0, micros: 0 },
        }
    }

    pub fn is_running(&self) -> (running: bool)
        ensures
            running == self@.running,
    {
        self.running
    }

    /// Sets the running flag: `true` on entering the loop, `false` to ask
    /// for the loop to end at its next pacing check.
    pub fn set_running(&mut self, running: bool)
        requires
            old(self).wf(),
        ensures
            final(self).wf(),
            final(self)@ == (SchedulerState { running, ..old(self)@ }),
    {
        self.running = running;
    }

    /// Takes over what the running flag says at this moment, and answers it.
    pub fn observe(&mut self, flag: &RunFlag) -> (running: bool)
        requires
            old(self).wf(),
        ensures
            final(self).wf(),
            final(self)@ == (SchedulerState { running, ..old(self)@ }),
    {
        let running = flag.is_running();
        self.running = running;
        running
    }

    /// One pacing check. `events_ok` is what polling the window's events
    /// answered, `now` the clock in microseconds since the reference time.
    ///
    /// The loop ends if the scheduler is not running or the events said
    /// so. Otherwise a frame is granted if one is due, and the due time
    /// moves on as the pacer's does; if none is due the answer is a sleep.
    pub fn pace(&mut self, events_ok: bool, now: i64) -> (decision: Decision)
        requires
            old(self).wf(),
            0 <= now <= MAX_TIME,
        ensures
            final(self).wf(),
            !old(self)@.running || !events_ok ==> decision == Decision::Exit && final(self)@
                == old(self)@,
            old(self)@.running && events_ok && now >= old(self)@.next_cycle ==> decision
                == Decision::Frame && final(self)@ == (SchedulerState {
                next_cycle: next_due(old(self)@.next_cycle, old(self)@.cycle_time, now as int),
                ..old(self)@
            }),
            old(self)@.running && events_ok && now < old(self)@.next_cycle ==> decision
                == Decision::Sleep(sleep_time(old(self)@.next_cycle, now as int) as i64)
                && final(self)@ == old(self)@,
            decision is Frame ==> final(self)@.next_cycle >= now + MIN_CYCLE_TIME,
            decision is Sleep ==> 1 <= decision->Sleep_0 <= MAX_SLEEP_TIME && now
                + decision->Sleep_0 <= final(self)@.next_cycle,
    {
        if !self.running {
            return Decision::Exit;
        }
        if !events_ok {
            return Decision::Exit;
        }
        match self.pacer.poll(now) {
            Pace::Render => Decision::Frame,
            Pace::Sleep(micros) => Decision::Sleep(micros),
        }
    }

    /// Brings the clocks up to the reading `now`: the absolute time, the
    /// time since the update before, and, once five seconds have passed
    /// since the last statistics snapshot, a new snapshot of the frames
    /// counted since then, after which that count starts again.
    pub fn update_schedule(&mut self, now: i64)
        requires
            old(self).wf(),
            0 <= now,
        ensures
            final(self).wf(),
            elapsed(now as int, old(self)@.last_statistics_time) >= STATISTICS_WINDOW
                ==> final(self)@ == (SchedulerState {
                time_micros: now as int,
                delta_micros: elapsed(now as int, old(self)@.last_update_time),
                last_update_time: now as int,
                last_statistics_time: now as int,
                delta_frames: 0,
                average: FrameRate {
                    frames: old(self)@.delta_frames as u64,
                    micros: elapsed(now as int, old(self)@.last_statistics_time) as i64,
                },
                ..old(self)@
            }),
            elapsed(now as int, old(self)@.last_statistics_time) < STATISTICS_WINDOW
                ==> final(self)@ == (SchedulerState {
                time_micros: now as int,
                delta_micros: elapsed(now as int, old(self)@.last_update_time),
                last_update_time: now as int,
                ..old(self)@
            }),
    {
        self.time_micros = now;
        self.delta_micros = if now >= self.last_update_time {
            now - self.last_update_time
        } else {
            0
        };
        self.last_update_time = now;
        let window: i64 = if now >= self.last_statistics_time {
            now - self.last_statistics_time
        } else {
            0
        };
        if window >= STATISTICS_WINDOW {
            self.average = FrameRate { frames: self.delta_frames, micros: window };
            self.delta_frames = 0;
            self.last_statistics_time = now;
        }
    }

    /// The steps of the frame about to run, in order.
    pub fn frame_steps(layout_changed: bool, minimized: bool) -> (steps: Vec<FrameStep>)
        ensures
            steps@ == frame_plan(layout_changed, minimized),
    {
        let mut steps: Vec<FrameStep> = Vec::new();
        if layout_changed {
            steps.push(FrameStep::UpdateLayout);
        }
        steps.push(FrameStep::PublishMetrics);
        steps.push(FrameStep::UpdateState);
        if !minimized {
            steps.push(FrameStep::BeginDraw);
            steps.push(FrameStep::UpdateGraphics);
            steps.push(FrameStep::CountFrame);
            steps.push(FrameStep::EndDraw);
        }
        assert(steps@ =~= frame_plan(layout_changed, minimized));
        steps
    }

    /// Counts one rendered frame, in the total and in the statistics window.
    pub fn count_frame(&mut self)
        requires
            old(self).wf(),
        ensures
            final(self).wf(),
            final(self)@ == (SchedulerState {
                frame_counter: next_count(old(self)@.frame_counter),
                delta_frames: next_count(old(self)@.delta_frames),
                ..old(self)@
            }),
    {
        self.delta_frames = self.delta_frames.wrapping_add(1);
        self.frame_counter = self.frame_counter.wrapping_add(1);
    }

    /// Leaves the loop: the scheduler stops running, and the answer is
    /// whether teardown is due, which it is the first time only.
    pub fn stop(&mut self) -> (teardown: bool)
        requires
            old(self).wf(),
        ensures
            final(self).wf(),
            teardown == !old(self)@.released,
            final(self)@ == (SchedulerState { running: false, released: true, ..old(self)@ }),
    {
        self.running = false;
        let teardown = !self.released;
        self.released = true;
        teardown
    }

    /// Microseconds since the reference time at the last update.
    pub fn time_micros(&self) -> (micros: i64)
        ensures
            micros == self@.time_micros,
    {
        self.time_micros
    }

    /// Microseconds between the last two updates.
    pub fn delta_micros(&self) -> (micros: i64)
        ensures
            micros == self@.delta_micros,
    {
        self.delta_micros
    }

    /// Frames rendered since the scheduler was created.
    pub fn frame_counter(&self) -> (frames: u64)
        ensures
            frames == self@.frame_counter,
    {
        self.frame_counter
    }

    /// Frames rendered since the last statistics snapshot.
    pub fn delta_frames(&self) -> (frames: u64)
        ensures
            frames == self@.delta_frames,
    {
        self.delta_frames
    }

    /// The last statistics snapshot.
    pub fn average(&self) -> (average: FrameRate)
        ensures
            average == self@.average,
    {
        self.average
    }

    /// The time at which the next frame is due.
    pub fn next_cycle(&self) -> (micros: i64)
        ensures
            micros == self@.next_cycle,
    {
        self.pacer.get_next_cycle()
    }

    /// Publishes the time, delta and counter of the frame about to run.
    pub fn publish(&self, graphics: &mut Graphics)
        ensures
            final(graphics).metrics() == (Metrics {
                time_micros: self@.time_micros as i64,
                delta_micros: self@.delta_micros as i64,
                frame_counter: self@.frame_counter as u64,
                ..old(graphics).metrics()
            }),
            final(graphics).viewport_changed() == old(graphics).viewport_changed(),
            final(graphics).layout_changed() == old(graphics).layout_changed(),
    {
        graphics.set_frame(self.time_micros, self.delta_micros, self.frame_counter);
    }
}

impl FrameRate {
    /// Whole frames per second over the window: the frames counted, times
    /// a million, divided by the microseconds they took; zero for a window
    /// of no length.
    pub open spec fn per_second(self) -> int {
        if self.micros > 0 {
            self.frames * MICROS_PER_SECOND / self.micros as int
        } else {
            0
        }
    }

    /// Whole frames per second over the window.
    pub fn frames_per_second(&self) -> (rate: u128)
        ensures
            rate == self.per_second(),
    {
        if self.micros > 0 {
            let frames: u128 = self.frames as u128;
            let micros: u128 = self.micros as u128;
            assert(frames * 1_000_000 <= 0xffff_ffff_ffff_ffff * 1_000_000) by (nonlinear_arith)
                requires
                    frames <= 0xffff_ffff_ffff_ffff,
            ;
            frames * 1_000_000 / micros
        } else {
            0
        }
    }
}

/// In every frame the layout update, if there is one, comes before the
/// simulation step, and the simulation step before the drawing; a
/// minimized window is simulated but neither drawn, counted nor presented.
pub proof fn lemma_frame_order(layout_changed: bool, minimized: bool)
    ensures
        ({
            let plan = frame_plan(layout_changed, minimized);
            &&& forall|i: int, j: int|
                0 <= i < plan.len() && 0 <= j < plan.len() && plan[i] == FrameStep::UpdateLayout
                    && plan[j] == FrameStep::UpdateState ==> i < j
            &&& forall|i: int, j: int|
                0 <= i < plan.len() && 0 <= j < plan.len() && plan[i] == FrameStep::UpdateState
                    && plan[j] == FrameStep::UpdateGraphics ==> i < j
            &&& forall|i: int, j: int|
                0 <= i < plan.len() && 0 <= j < plan.len() && plan[i] == FrameStep::UpdateGraphics
                    && plan[j] == FrameStep::CountFrame ==> i < j
            &&& plan.contains(FrameStep::UpdateLayout) == layout_changed
            &&& plan.contains(FrameStep::UpdateState)
            &&& plan.contains(FrameStep::UpdateGraphics) == !minimized
            &&& plan.contains(FrameStep::CountFrame) == !minimized
        }),
{
    let plan = frame_plan(layout_changed, minimized);
    let base: int = if layout_changed { 1 } else { 0 };
    assert(plan[base] == FrameStep::PublishMetrics);
    assert(plan[base + 1] == FrameStep::UpdateState);
    if layout_changed {
        assert(plan[0] == FrameStep::UpdateLayout);
    }
    if !minimized {
        assert(plan[base + 3] == FrameStep::UpdateGraphics);
        assert(plan[base + 4] == FrameStep::CountFrame);
    }
}

/// The number of frames granted from `now` to `end`, both included, on a
/// clock that stands still except during the sleeps the pacer asks for.
pub open spec fn frames_granted(next_cycle: int, cycle_time: int, now: int, end: int) -> nat
    decreases (if now <= end { end - now + 1 } else { 0int }), (if now >= next_cycle { 1int } else { 0int }),
{
    if now > end {
        0
    } else if now >= next_cycle {
        1 + frames_granted(next_due(next_cycle, cycle_time, now), cycle_time, now, end)
    } else {
        frames_granted(next_cycle, cycle_time, now + sleep_time(next_cycle, now), end)
    }
}

/// The catch-up clamp: whatever the stall, the due time computed when a
/// frame fires at `now` lies at least the minimum slack after `now`, and it
/// is the later of that and one cycle after the previous due time.
pub proof fn lemma_catch_up_clamp(next_cycle: int, cycle_time: int, now: int)
    ensures
        next_due(next_cycle, cycle_time, now) >= now + MIN_CYCLE_TIME,
        next_due(next_cycle, cycle_time, now) >= next_cycle + cycle_time,
        next_due(next_cycle, cycle_time, now) == now + MIN_CYCLE_TIME || next_due(
            next_cycle,
            cycle_time,
            now,
        ) == next_cycle + cycle_time,
{
}

/// A sleep never runs past the due time, never exceeds the maximum sleep
/// and, while no frame is due, always makes progress.
pub proof fn lemma_sleep_bounded(next_cycle: int, now: int)
    requires
        now < next_cycle,
    ensures
        1 <= sleep_time(next_cycle, now) <= MAX_SLEEP_TIME,
        now + sleep_time(next_cycle, now) <= next_cycle,
{
}

/// On the ideal clock, a pacer that is not behind grants its next frame
/// exactly at the due time and one more every period after it.
pub proof fn lemma_frames_on_time(next_cycle: int, cycle_time: int, now: int, end: int)
    requires
        cycle_time >= 0,
        now <= next_cycle,
    ensures
        frames_granted(next_cycle, cycle_time, now, end) == (if next_cycle > end {
            0
        } else {
            (end - next_cycle) / period(cycle_time) + 1
        }),
    decreases (if now <= end { end - now + 1 } else { 0int }), (if now >= next_cycle { 1int } else { 0int }),
{
    let p = period(cycle_time);
    if now > end {
    } else if now >= next_cycle {
        let due = next_due(next_cycle, cycle_time, now);
        assert(due == now + p);
        lemma_frames_on_time(due, cycle_time, now, end);
        let x = end - next_cycle;
        if x < p {
            assert(x / p == 0) by (nonlinear_arith)
                requires
                    0 <= x < p,
            ;
        } else {
            assert((x - p) / p + 1 == x / p) by (nonlinear_arith)
                requires
                    p > 0,
            ;
        }
    } else {
        lemma_frames_on_time(next_cycle, cycle_time, now + sleep_time(next_cycle, now), end);
    }
}

/// The frame count of a fresh pacer. Over `span` microseconds on the ideal
/// clock, a pacer for `frame_rate` frames per second grants one frame at the
/// start and one more for every full period, so the time covered by its
/// frames is within one period of `span`. Up to 100 frames per second the
/// period is the cycle time itself.
pub proof fn lemma_frame_count(frame_rate: int, span: int)
    requires
        frame_rate > 0,
        span >= 0,
    ensures
        ({
            let cycle = MICROS_PER_SECOND as int / frame_rate;
            let frames = frames_granted(0, cycle, 0, span);
            &&& frames == span / period(cycle) + 1
            &&& (frames - 1) * period(cycle) <= span < frames * period(cycle)
            &&& frame_rate <= 100 ==> period(cycle) == cycle
        }),
{
    let cycle = MICROS_PER_SECOND as int / frame_rate;
    assert(cycle >= 0) by (nonlinear_arith)
        requires
            cycle == 1_000_000int / frame_rate,
            frame_rate > 0,
    ;
    lemma_frames_on_time(0, cycle, 0, span);
    let p = period(cycle);
    let q = span / p;
    assert(q * p <= span < (q + 1) * p) by (nonlinear_arith)
        requires
            q == span / p,
            p > 0,
            span >= 0,
    ;
    if frame_rate <= 100 {
        assert(cycle >= 10_000) by (nonlinear_arith)
            requires
                cycle == 1_000_000int / frame_rate,
                0 < frame_rate <= 100,
        ;
    }
}

/// At a rate of at most 100 frames per second that divides a million, the
/// frames granted over `seconds` whole seconds are the frame at the start
/// and exactly `frame_rate` more for every second.
pub proof fn lemma_frame_count_whole_seconds(frame_rate: int, seconds: int)
    requires
        0 < frame_rate <= 100,
        MICROS_PER_SECOND as int % frame_rate == 0,
        seconds >= 0,
    ensures
        frames_granted(
            0,
            MICROS_PER_SECOND as int / frame_rate,
            0,
            seconds * MICROS_PER_SECOND,
        ) == frame_rate * seconds + 1,
{
    let cycle = MICROS_PER_SECOND as int / frame_rate;
    let span = seconds * MICROS_PER_SECOND;
    lemma_frame_count(frame_rate, span);
    assert(cycle * frame_rate == 1_000_000) by (nonlinear_arith)
        requires
            cycle == 1_000_000int / frame_rate,
            1_000_000int % frame_rate == 0,
            frame_rate > 0,
    ;
    assert(span == (frame_rate * seconds) * cycle) by (nonlinear_arith)
        requires
            span == seconds * 1_000_000,
            cycle * frame_rate == 1_000_000,
    ;
    assert(span / cycle == frame_rate * seconds) by (nonlinear_arith)
        requires
            span == (frame_rate * seconds) * cycle,
            cycle > 0,
    ;
}

} // verus!
