//! The graphics context as the frame loop sees it: the metrics of the
//! current frame, and what window events do to viewport and layout.

use vstd::prelude::*;
use crate::commands::Command;
use crate::primitives::Primitives;

verus! {

/// The window flag bit that marks a minimized window.
pub const WINDOW_MINIMIZED: u32 = 0x40;

/// What logic and batch may read about the current frame. Times are in
/// microseconds since the scheduler's reference time.
#[derive(Clone, Copy, Debug, PartialEq, Eq)]
pub struct Metrics {
    pub width: u32,
    pub height: u32,
    pub time_micros: i64,
    pub delta_micros: i64,
    pub frame_counter: u64,
}

impl Metrics {
    pub fn new() -> (metrics: Self)
        ensures
            metrics == (Metrics {
                width: 0,
                height: 0,
                time_micros: 0,
                delta_micros: 0,
                frame_counter: 0,
            }),
    {
        Metrics { width: 0, height: 0, time_micros: 0, delta_micros: 0, frame_counter: 0 }
    }
}

/// A token for the loaded graphics API.
#[derive(Clone, Copy, Debug, PartialEq, Eq)]
pub struct GraphicsContext {
    _gl: (),
}

impl GraphicsContext {
    /// The one value of the token.
    pub closed spec fn loaded() -> GraphicsContext {
        GraphicsContext { _gl: () }
    }
}

/// How frame presentation is tied to the display's refresh.
#[derive(Clone, Copy, Debug, PartialEq, Eq)]
pub enum VSyncMode {
    Synchronous,
    Asynchronous,
    Adaptive,
}

/// The swap interval the windowing system is asked for.
#[derive(Clone, Copy, Debug, PartialEq, Eq)]
pub enum SwapInterval {
    Immediate,
    VSync,
    LateSwapTearing,
}

/// What the frame loop needs to know of a window event.
#[derive(Clone, Copy, Debug, PartialEq, Eq)]
pub enum WindowEvent {
    /// The window was asked to close.
    Quit,
    /// The escape key was released.
    EscapeReleased,
    /// The window changed its size.
    Resized,
    /// Anything else.
    Other,
}

/// Whether an event ends the frame loop.
pub open spec fn is_quit(event: WindowEvent) -> bool {
    event is Quit || event is EscapeReleased
}

/// The place of the first event from `from` on that ends the loop, or the
/// length of `events` if there is none.
pub open spec fn first_quit(events: Seq<WindowEvent>, from: int) -> int
    decreases events.len() - from,
{
    if from < 0 || from >= events.len() {
        events.len() as int
    } else if is_quit(events[from]) {
        from
    } else {
        first_quit(events, from + 1)
    }
}

/// Whether one of the first `n` events is a resize.
pub open spec fn resized_within(events: Seq<WindowEvent>, n: int) -> bool {
    exists|i: int| 0 <= i < n && i < events.len() && #[trigger] events[i] is Resized
}

/// The swap intervals to ask for, in order, until one is accepted.
pub open spec fn swap_intervals(mode: VSyncMode) -> Seq<SwapInterval> {
    match mode {
        VSyncMode::Synchronous => seq![SwapInterval::VSync],
        VSyncMode::Asynchronous => seq![SwapInterval::Immediate],
        VSyncMode::Adaptive => seq![SwapInterval::LateSwapTearing, SwapInterval::VSync],
    }
}

/// Viewport and layout state of the one window, with the frame's metrics.
#[derive(Debug)]
pub struct Graphics {
    viewport_changed: bool,
    layout_changed: bool,
    metrics: Metrics,
}

impl Graphics {
    /// Whether the window changed size since the viewport was last set.
    pub closed spec fn viewport_changed(&self) -> bool {
        self.viewport_changed
    }

    /// The metrics of the current frame.
    pub closed spec fn metrics(&self) -> Metrics {
        self.metrics
    }

    /// Whether the layout changed since that was last asked.
    pub closed spec fn layout_changed(&self) -> bool {
        self.layout_changed
    }

    /// The context of a window whose drawable area is `width` by `height`:
    /// the viewport is set to all of it, and the layout counts as changed.
    pub fn new(queue: &mut Vec<Command>, width: u32, height: u32) -> (graphics: Graphics)
        ensures
            !graphics.viewport_changed(),
            graphics.layout_changed(),
            graphics.metrics() == (Metrics {
                width,
                height,
                time_micros: 0,
                delta_micros: 0,
                frame_counter: 0,
            }),
            final(queue)@ == old(queue)@.push(Command::Viewport { x: 0, y: 0, width, height }),
    {
        let mut graphics = Graphics {
            viewport_changed: true,
            layout_changed: false,
            metrics: Metrics::new(),
        };
        graphics.update_viewport(queue, width, height);
        graphics
    }

    pub fn get_context(&self) -> (context: GraphicsContext)
        ensures
            context == GraphicsContext::loaded(),
    {
        GraphicsContext { _gl: () }
    }

    pub fn get_metrics(&self) -> (metrics: &Metrics)
        ensures
            *metrics == self.metrics(),
    {
        &self.metrics
    }

    /// Whether `window_flags` mark the window as minimized.
    pub fn is_minimized(window_flags: u32) -> (minimized: bool)
        ensures
            minimized == (window_flags & WINDOW_MINIMIZED != 0),
    {
        (window_flags & WINDOW_MINIMIZED) != 0
    }

    /// Publishes the time, delta and counter of the frame about to run.
    pub fn set_frame(&mut self, time_micros: i64, delta_micros: i64, frame_counter: u64)
        ensures
            final(self).metrics() == (Metrics {
                time_micros,
                delta_micros,
                frame_counter,
                ..old(self).metrics()
            }),
            final(self).viewport_changed() == old(self).viewport_changed(),
            final(self).layout_changed() == old(self).layout_changed(),
    {
        self.metrics.time_micros = time_micros;
        self.metrics.delta_micros = delta_micros;
        self.metrics.frame_counter = frame_counter;
    }

    /// If the window changed size, takes over the new drawable size, sets
    /// the viewport to all of it and flags the layout as changed.
    pub fn update_viewport(&mut self, queue: &mut Vec<Command>, width: u32, height: u32)
        ensures
            !final(self).viewport_changed(),
            !old(self).viewport_changed() ==> *final(self) == *old(self) && final(queue)@
                == old(queue)@,
            old(self).viewport_changed() ==> {
                &&& final(self).layout_changed()
                &&& final(self).metrics() == (Metrics { width, height, ..old(self).metrics() })
                &&& final(queue)@ == old(queue)@.push(
                    Command::Viewport { x: 0, y: 0, width, height },
                )
            },
    {
        if !self.viewport_changed {
            return ;
        }
        self.metrics.width = width;
        self.metrics.height = height;
        Primitives::viewport(queue, 0, 0, width, height);
        self.layout_changed = true;
        self.viewport_changed = false;
    }

    /// Handles the events polled since the last call, in order, the window's
    /// drawable size now being `width` by `height`.
    ///
    /// The answer is whether the loop goes on: it does unless an event ends
    /// it, and events after that one are not looked at. A resize marks the
    /// viewport as changed; if the loop goes on, a changed viewport is
    /// brought up to date.
    pub fn process_events(
        &mut self,
        queue: &mut Vec<Command>,
        events: &Vec<WindowEvent>,
        width: u32,
        height: u32,
    ) -> (proceed: bool)
        ensures
            proceed == (first_quit(events@, 0) == events@.len()),
            ({
                let changed = old(self).viewport_changed() || resized_within(
                    events@,
                    first_quit(events@, 0),
                );
                if !proceed {
                    &&& final(self).viewport_changed() == changed
                    &&& final(self).layout_changed() == old(self).layout_changed()
                    &&& final(self).metrics() == old(self).metrics()
                    &&& final(queue)@ == old(queue)@
                } else if changed {
                    &&& !final(self).viewport_changed()
                    &&& final(self).layout_changed()
                    &&& final(self).metrics() == (Metrics { width, height, ..old(self).metrics() })
                    &&& final(queue)@ == old(queue)@.push(
                        Command::Viewport { x: 0, y: 0, width, height },
                    )
                } else {
                    &&& *final(self) == *old(self)
                    &&& final(queue)@ == old(queue)@
                }
            }),
    {
        let mut i: usize = 0;
        while i < events.len()
            invariant
                i <= events@.len(),
                first_quit(events@, 0) == first_quit(events@, i as int),
                self.viewport_changed() == (old(self).viewport_changed() || resized_within(
                    events@,
                    i as int,
                )),
                self.layout_changed() == old(self).layout_changed(),
                self.metrics() == old(self).metrics(),
                queue@ == old(queue)@,
            decreases events@.len() - i,
        {
            match events[i] {
                WindowEvent::Quit => {
                    return false;
                },
                WindowEvent::EscapeReleased => {
                    return false;
                },
                WindowEvent::Resized => {
                    self.viewport_changed = true;
                },
                WindowEvent::Other => {},
            }
            assert(resized_within(events@, i + 1) == (resized_within(events@, i as int)
                || events@[i as int] is Resized)) by {
                if resized_within(events@, i + 1) && !(events@[i as int] is Resized) {
                    let j = choose|j: int|
                        0 <= j < i + 1 && j < events@.len() && #[trigger] events@[j] is Resized;
                    assert(j < i);
                }
                if events@[i as int] is Resized {
                    assert(events@[i as int] is Resized);
                }
            }
            i += 1;
        }
        if self.viewport_changed {
            self.update_viewport(queue, width, height);
        }
        true
    }

    /// Whether the layout changed since this was last asked. Asking clears the flag.
    pub fn has_layout_changed(&mut self) -> (changed: bool)
        ensures
            changed == old(self).layout_changed(),
            !final(self).layout_changed(),
            final(self).viewport_changed() == old(self).viewport_changed(),
            final(self).metrics() == old(self).metrics(),
    {
        let changed = self.layout_changed;
        self.layout_changed = false;
        changed
    }

    /// The swap intervals to ask the windowing system for, in order, until
    /// it accepts one: adaptive presentation falls back to plain
    /// synchronisation where late swap tearing is not to be had.
    pub fn set_vsync_mode(vsync_mode: VSyncMode) -> (attempts: Vec<SwapInterval>)
        ensures
            attempts@ == swap_intervals(vsync_mode),
    {
        let attempts = match vsync_mode {
            VSyncMode::Synchronous => vec![SwapInterval::VSync],
            VSyncMode::Asynchronous => vec![SwapInterval::Immediate],
            VSyncMode::Adaptive => vec![SwapInterval::LateSwapTearing, SwapInterval::VSync],
        };
        assert(attempts@ =~= swap_intervals(vsync_mode));
        attempts
    }

    /// The presentation mode that a swap interval stands for.
    pub fn get_vsync_mode(interval: SwapInterval) -> (mode: VSyncMode)
        ensures
            mode == (match interval {
                SwapInterval::Immediate => VSyncMode::Asynchronous,
                SwapInterval::VSync => VSyncMode::Synchronous,
                SwapInterval::LateSwapTearing => VSyncMode::Adaptive,
            }),
            swap_intervals(mode)[0] == interval,
    {
        match interval {
            SwapInterval::Immediate => VSyncMode::Asynchronous,
            SwapInterval::VSync => VSyncMode::Synchronous,
            SwapInterval::LateSwapTearing => VSyncMode::Adaptive,
        }
    }
}

} // verus!
