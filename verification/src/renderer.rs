//! The renderer: what the progress display does at each tick.
//!
//! The renderer runs beside the transfer. At a fixed cadence it copies the
//! progress counter out of the shared place, asks here whether to draw or to
//! stop, and draws outside the lock. It stops when the counter has reached
//! the size of the file or when the controller has raised the stop signal,
//! whichever comes first, so it ends also when a transfer fails half way.

use crate::controller::ControllerView;
use crate::progress::{lemma_percent_range, ProgressState, ProgressView};
use vstd::prelude::*;

verus! {

/// The time between two ticks of the renderer, in milliseconds.
pub const TICK_MILLIS: u64 = 50;

/// Bytes per second after `transferred` bytes in `elapsed_ms` milliseconds,
/// rounded down; zero while no time has passed, and never more than a `u64`
/// holds.
pub open spec fn transfer_rate(transferred: nat, elapsed_ms: nat) -> nat {
    if elapsed_ms == 0 {
        0
    } else if transferred * 1000 / elapsed_ms <= u64::MAX {
        transferred * 1000 / elapsed_ms
    } else {
        u64::MAX as nat
    }
}

/// Whole seconds left for `remaining` bytes at `rate` bytes per second,
/// rounded down; unknown while the rate is zero.
pub open spec fn remaining_seconds(remaining: nat, rate: nat) -> Option<nat> {
    if rate == 0 {
        None
    } else {
        Some(remaining / rate)
    }
}

/// What one redraw of the progress line shows.
#[derive(Clone, Copy, Debug, PartialEq, Eq)]
pub struct ProgressFrame {
    /// Bytes transferred so far.
    pub transferred: u64,
    /// Size of the file in bytes.
    pub total: u64,
    /// Share transferred, in whole percent.
    pub percent: u64,
    /// Bytes per second since the start.
    pub rate: u64,
    /// Estimated whole seconds left, where the rate says anything.
    pub remaining_seconds: Option<u64>,
}

impl ProgressFrame {
    /// Whether this frame shows `progress` after `elapsed_ms` milliseconds.
    pub open spec fn shows(self, progress: ProgressView, elapsed_ms: nat) -> bool {
        let rate = transfer_rate(progress.transferred, elapsed_ms);
        let left = remaining_seconds((progress.total - progress.transferred) as nat, rate);
        &&& self.transferred == progress.transferred
        &&& self.total == progress.total
        &&& self.percent == progress.percent()
        &&& self.rate == rate
        &&& match self.remaining_seconds {
            Some(seconds) => left == Some(seconds as nat),
            None => left is None,
        }
    }
}

/// What the renderer does at one tick.
#[derive(Clone, Copy, Debug, PartialEq, Eq)]
pub enum RenderStep {
    /// Redraw the progress line in place with this frame.
    Draw(ProgressFrame),
    /// Leave the loop.
    Stop,
}

/// A renderer as contracts see it.
pub struct RendererView {
    /// The renderer has left its loop.
    pub finished: bool,
    /// The counter value of the latest frame drawn, if any was.
    pub last_drawn: Option<nat>,
}

impl RendererView {
    /// A renderer that has drawn nothing yet.
    pub open spec fn initial() -> RendererView {
        RendererView { finished: false, last_drawn: None }
    }

    /// Whether the renderer leaves its loop at a tick that finds `progress`
    /// and the stop signal as given.
    pub open spec fn stops(self, progress: ProgressView, stop_requested: bool) -> bool {
        self.finished || stop_requested || progress.is_complete()
    }

    /// The renderer after that tick.
    pub open spec fn tick(self, progress: ProgressView, stop_requested: bool) -> RendererView {
        if self.stops(progress, stop_requested) {
            RendererView { finished: true, last_drawn: self.last_drawn }
        } else {
            RendererView { finished: false, last_drawn: Some(progress.transferred) }
        }
    }
}

/// Once the controller has ended the upload, with success or with an error,
/// the next tick of the renderer is its last: it cannot loop for ever on a
/// counter that will never reach the total.
pub proof fn lemma_renderer_stops_after_upload_ends(
    renderer: RendererView,
    controller: ControllerView,
)
    requires
        controller.stop_requested(),
    ensures
        renderer.tick(controller.progress, controller.stop_requested()).finished,
        renderer.tick(controller.progress, controller.stop_requested()).last_drawn
            == renderer.last_drawn,
{
}

/// A renderer that has stopped stays stopped and draws nothing more.
pub proof fn lemma_finished_renderer_stays_finished(
    renderer: RendererView,
    progress: ProgressView,
    stop_requested: bool,
)
    requires
        renderer.finished,
    ensures
        renderer.tick(progress, stop_requested) == renderer,
{
}

/// The renderer of one transfer.
#[derive(Clone, Copy, Debug, PartialEq, Eq)]
pub struct Renderer {
    finished: bool,
    last_drawn: Option<u64>,
}

impl View for Renderer {
    type V = RendererView;

    closed spec fn view(&self) -> RendererView {
        RendererView {
            finished: self.finished,
            last_drawn: match self.last_drawn {
                Some(value) => Some(value as nat),
                None => None,
            },
        }
    }
}

/// Bytes per second after `transferred` bytes in `elapsed_ms` milliseconds.
pub fn rate_per_second(transferred: u64, elapsed_ms: u64) -> (rate: u64)
    ensures
        rate == transfer_rate(transferred as nat, elapsed_ms as nat),
{
    if elapsed_ms == 0 {
        0
    } else {
        let scaled: u128 = transferred as u128 * 1000;
        let rate: u128 = scaled / elapsed_ms as u128;
        if rate <= u64::MAX as u128 {
            rate as u64
        } else {
            u64::MAX
        }
    }
}

/// Whole seconds left for `remaining` bytes at `rate` bytes per second.
pub fn seconds_left(remaining: u64, rate: u64) -> (left: Option<u64>)
    ensures
        match left {
            Some(seconds) => remaining_seconds(remaining as nat, rate as nat) == Some(
                seconds as nat,
            ),
            None => remaining_seconds(remaining as nat, rate as nat) is None,
        },
{
    if rate == 0 {
        None
    } else {
        Some(remaining / rate)
    }
}

impl Renderer {
    /// A renderer that has drawn nothing yet.
    pub fn new() -> (renderer: Renderer)
        ensures
            renderer@ == RendererView::initial(),
    {
        Renderer { finished: false, last_drawn: None }
    }

    /// One tick: `snapshot` is the copy of the progress counter just taken,
    /// `stop_requested` the controller's stop signal as just read, and
    /// `elapsed_ms` the time since the transfer started.
    ///
    /// The answer is `Stop` exactly when the renderer had stopped before,
    /// the stop signal is raised or the counter has reached the total;
    /// otherwise it is the frame to draw, which then shows less than the
    /// whole file.
    pub fn tick(&mut self, snapshot: ProgressState, stop_requested: bool, elapsed_ms: u64) -> (step:
        RenderStep)
        ensures
            final(self)@ == old(self)@.tick(snapshot@, stop_requested),
            step is Stop <==> old(self)@.stops(snapshot@, stop_requested),
            step matches RenderStep::Draw(frame) ==> {
                &&& frame.shows(snapshot@, elapsed_ms as nat)
                &&& frame.transferred < frame.total
                &&& frame.percent < 100
            },
    {
        if self.finished || stop_requested || snapshot.is_complete() {
            self.finished = true;
            RenderStep::Stop
        } else {
            proof {
                lemma_percent_range(snapshot@);
            }
            let transferred: u64 = snapshot.transferred();
            let rate: u64 = rate_per_second(transferred, elapsed_ms);
            let frame = ProgressFrame {
                transferred,
                total: snapshot.total(),
                percent: snapshot.percent(),
                rate,
                remaining_seconds: seconds_left(snapshot.remaining(), rate),
            };
            self.last_drawn = Some(transferred);
            RenderStep::Draw(frame)
        }
    }

    /// Whether the renderer has left its loop.
    pub fn is_finished(&self) -> (finished: bool)
        ensures
            finished == self@.finished,
    {
        self.finished
    }

    /// The counter value of the latest frame drawn; `None` if the renderer
    /// never saw a transfer in progress.
    pub fn last_drawn(&self) -> (value: Option<u64>)
        ensures
            match value {
                Some(bytes) => self@.last_drawn == Some(bytes as nat),
                None => self@.last_drawn is None,
            },
    {
        self.last_drawn
    }
}

} // verus!
