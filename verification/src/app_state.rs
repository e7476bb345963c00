//! What an application holds for as long as it runs: the device context, the
//! swapchain and the frame clock.

use vstd::prelude::*;
use crate::geometry::Extent2D;
use crate::gpu::Gpu;
use crate::image_format::ImageFormat;

verus! {

/// The presentation surface, as far as rendering reads it.
#[derive(Clone, Copy, Debug, PartialEq, Eq, Structural)]
pub struct Swapchain {
    pub extents: Extent2D,
    pub present_format: ImageFormat,
}

impl Swapchain {
    pub fn extents(&self) -> (e: Extent2D)
        ensures
            e == self.extents,
    {
        self.extents
    }

    pub fn present_format(&self) -> (f: ImageFormat)
        ensures
            f == self.present_format,
    {
        self.present_format
    }
}

/// The frame clock. Times are nanoseconds on a clock that the caller reads.
#[derive(Clone, Copy, Debug, PartialEq, Eq, Structural)]
pub struct Time {
    pub frames: u64,
    pub last_update: u64,
    pub delta: u64,
}

impl Time {
    pub fn new() -> (t: Time)
        ensures
            t == (Time { frames: 0, last_update: 0, delta: 0 }),
    {
        Time { frames: 0, last_update: 0, delta: 0 }
    }

    /// The clock after a frame began at `now`.
    pub open spec fn updated(self, now: u64) -> Time {
        Time {
            frames: if self.frames == u64::MAX {
                u64::MAX
            } else {
                (self.frames + 1) as u64
            },
            last_update: now,
            delta: if now >= self.last_update {
                (now - self.last_update) as u64
            } else {
                0
            },
        }
    }

    /// Begins a frame at `now`. A clock that went backwards gives a frame of no
    /// length; the frame count stops at its greatest value.
    pub fn update(&mut self, now: u64)
        ensures
            *final(self) == old(self).updated(now),
    {
        self.delta = if now >= self.last_update {
            now - self.last_update
        } else {
            0
        };
        self.last_update = now;
        if self.frames < u64::MAX {
            self.frames = self.frames + 1;
        }
    }

    /// How long the last frame took, in nanoseconds.
    pub fn delta_frame(&self) -> (d: u64)
        ensures
            d == self.delta,
    {
        self.delta
    }
}

pub struct AppState {
    pub gpu: Gpu,
    pub swapchain: Swapchain,
    pub time: Time,
}

impl AppState {
    pub fn new(gpu: Gpu, swapchain: Swapchain) -> (state: AppState)
        ensures
            state.gpu == gpu,
            state.swapchain == swapchain,
            state.time == (Time { frames: 0, last_update: 0, delta: 0 }),
    {
        AppState { gpu, swapchain, time: Time::new() }
    }

    /// Begins a frame at `now`, in nanoseconds.
    pub fn begin_frame(&mut self, now: u64)
        ensures
            final(self).time == old(self).time.updated(now),
            final(self).gpu == old(self).gpu,
            final(self).swapchain == old(self).swapchain,
    {
        self.time.update(now);
    }

    /// Ends the frame: what is recorded next uses the next frame slot.
    pub fn end_frame(&mut self)
        ensures
            final(self).time == old(self).time,
            final(self).swapchain == old(self).swapchain,
            final(self).gpu.device() == old(self).gpu.device(),
            final(self).gpu.frames() == old(self).gpu.frames(),
            final(self).gpu.frame() == if old(self).gpu.frame() + 1 == old(self).gpu.frames().len() {
                0
            } else {
                old(self).gpu.frame() + 1
            },
    {
        self.gpu.reset_state();
    }

    pub fn time(&self) -> (t: &Time)
        ensures
            *t == self.time,
    {
        &self.time
    }
}

} // verus!
