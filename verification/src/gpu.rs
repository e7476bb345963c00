//! The device context, as far as recording and allocation read it: queues, queue
//! families and the command pools of each frame in flight.

use vstd::prelude::*;

verus! {

/// A handle of a native object, as the native API gave it out.
pub type NativeHandle = u64;

#[derive(Clone, Copy, Debug, PartialEq, Eq, Structural)]
pub struct QueueFamily {
    pub index: u32,
    pub count: u32,
}

#[derive(Clone, Copy, Debug, PartialEq, Eq, Structural)]
pub struct QueueFamilies {
    pub graphics_family: QueueFamily,
    pub async_compute_family: QueueFamily,
    pub transfer_family: QueueFamily,
}

#[derive(Clone, Copy, Debug, PartialEq, Eq, Structural)]
pub struct GpuState {
    pub graphics_queue: NativeHandle,
    pub async_compute_queue: NativeHandle,
    pub transfer_queue: NativeHandle,
    pub queue_families: QueueFamilies,
    /// Whether the device can label regions of a command buffer for debuggers.
    pub debug_utilities: bool,
}

/// The command pools that one thread uses during one frame in flight.
#[derive(Clone, Copy, Debug, PartialEq, Eq, Structural)]
pub struct GpuThreadLocalState {
    pub graphics_command_pool: NativeHandle,
    pub compute_command_pool: NativeHandle,
    pub transfer_command_pool: NativeHandle,
}

pub struct Gpu {
    state: GpuState,
    thread_local_states: Vec<GpuThreadLocalState>,
    current_frame: usize,
}

/// Why a device context could not be put together.
#[derive(Clone, Copy, Debug, PartialEq, Eq, Structural)]
pub enum GpuError {
    /// No frame in flight was given.
    NoFrames,
}

impl Gpu {
    /// The queues and queue families of the device.
    pub closed spec fn device(&self) -> GpuState {
        self.state
    }

    /// The pools of every frame in flight, in frame order.
    pub closed spec fn frames(&self) -> Seq<GpuThreadLocalState> {
        self.thread_local_states@
    }

    /// The frame slot that new command buffers are allocated for.
    pub closed spec fn frame(&self) -> int {
        self.current_frame as int
    }

    #[verifier::type_invariant]
    spec fn inv(&self) -> bool {
        self.current_frame < self.thread_local_states@.len()
    }

    /// A context that starts at the first frame slot.
    pub fn new(state: GpuState, thread_local_states: Vec<GpuThreadLocalState>) -> (r: Result<
        Gpu,
        GpuError,
    >)
        ensures
            thread_local_states@.len() == 0 ==> r == Err::<Gpu, GpuError>(GpuError::NoFrames),
            thread_local_states@.len() > 0 ==> r is Ok && r->Ok_0.device() == state
                && r->Ok_0.frames() == thread_local_states@ && r->Ok_0.frame() == 0,
    {
        if thread_local_states.len() == 0 {
            Err(GpuError::NoFrames)
        } else {
            Ok(Gpu { state, thread_local_states, current_frame: 0 })
        }
    }

    pub fn state(&self) -> (s: GpuState)
        ensures
            s == self.device(),
    {
        self.state
    }

    pub fn current_frame(&self) -> (i: usize)
        ensures
            i == self.frame(),
            i < self.frames().len(),
    {
        proof {
            use_type_invariant(self);
        }
        self.current_frame
    }

    pub fn frames_in_flight(&self) -> (n: usize)
        ensures
            n == self.frames().len(),
            n > 0,
    {
        proof {
            use_type_invariant(self);
        }
        self.thread_local_states.len()
    }

    /// The pools of the current frame slot.
    pub fn thread_local_state(&self) -> (s: GpuThreadLocalState)
        ensures
            s == self.frames()[self.frame()],
    {
        proof {
            use_type_invariant(self);
        }
        self.thread_local_states[self.current_frame]
    }

    /// Ends the frame: moves to the next frame slot, wrapping after the last, so that
    /// what is recorded next draws from that slot's pools.
    pub fn reset_state(&mut self)
        ensures
            final(self).device() == old(self).device(),
            final(self).frames() == old(self).frames(),
            final(self).frame() == if old(self).frame() + 1 == old(self).frames().len() {
                0
            } else {
                old(self).frame() + 1
            },
    {
        proof {
            use_type_invariant(&*self);
        }
        let frames: usize = self.thread_local_states.len();
        let next: usize = if self.current_frame + 1 == frames {
            0
        } else {
            self.current_frame + 1
        };
        self.current_frame = next;
    }
}

#[derive(Clone, Copy, Debug, PartialEq, Eq, Hash, Structural)]
pub enum QueueType {
    Graphics,
    AsyncCompute,
    Transfer,
}

impl Default for QueueType {
    fn default() -> (q: QueueType)
        ensures
            q == QueueType::Graphics,
    {
        QueueType::Graphics
    }
}

impl QueueType {
    pub open spec fn spec_command_pool(self, pools: GpuThreadLocalState) -> NativeHandle {
        match self {
            QueueType::Graphics => pools.graphics_command_pool,
            QueueType::AsyncCompute => pools.compute_command_pool,
            QueueType::Transfer => pools.transfer_command_pool,
        }
    }

    pub open spec fn spec_queue(self, state: GpuState) -> NativeHandle {
        match self {
            QueueType::Graphics => state.graphics_queue,
            QueueType::AsyncCompute => state.async_compute_queue,
            QueueType::Transfer => state.transfer_queue,
        }
    }

    pub open spec fn spec_queue_index(self, state: GpuState) -> u32 {
        match self {
            QueueType::Graphics => state.queue_families.graphics_family.index,
            QueueType::AsyncCompute => state.queue_families.async_compute_family.index,
            QueueType::Transfer => state.queue_families.transfer_family.index,
        }
    }

    /// The command pool of the current frame slot that serves this kind of queue.
    pub fn get_vk_command_pool(&self, gpu: &Gpu) -> (pool: NativeHandle)
        ensures
            pool == self.spec_command_pool(gpu.frames()[gpu.frame()]),
    {
        let thread_local_state = gpu.thread_local_state();
        match self {
            QueueType::Graphics => thread_local_state.graphics_command_pool,
            QueueType::AsyncCompute => thread_local_state.compute_command_pool,
            QueueType::Transfer => thread_local_state.transfer_command_pool,
        }
    }

    /// The device queue that work of this kind is submitted to.
    pub fn get_vk_queue(&self, gpu: &Gpu) -> (queue: NativeHandle)
        ensures
            queue == self.spec_queue(gpu.device()),
    {
        match self {
            QueueType::Graphics => gpu.state.graphics_queue,
            QueueType::AsyncCompute => gpu.state.async_compute_queue,
            QueueType::Transfer => gpu.state.transfer_queue,
        }
    }

    /// The index of the queue family that serves this kind of queue.
    pub fn get_vk_queue_index(&self, gpu: &Gpu) -> (index: u32)
        ensures
            index == self.spec_queue_index(gpu.device()),
    {
        match self {
            QueueType::Graphics => gpu.state.queue_families.graphics_family.index,
            QueueType::AsyncCompute => gpu.state.queue_families.async_compute_family.index,
            QueueType::Transfer => gpu.state.queue_families.transfer_family.index,
        }
    }
}

} // verus!
