//! The long-lived objects of the layer: buffers, images, views, samplers,
//! descriptor sets, pipelines and synchronisation primitives.

use vstd::prelude::*;
use crate::allocator::{AllocationError, MemoryAllocation, MemoryAllocator, MemoryDomain};
use crate::descriptor_set::{
    DescriptorSetAllocation, DescriptorSetAllocator, DescriptorSetError,
};
use crate::geometry::Extent2D;
use crate::gpu::NativeHandle;
use crate::image_format::ImageFormat;

verus! {

#[derive(Clone, Copy, Debug, PartialEq, Eq, Hash, Structural)]
pub struct GPUSemaphore {
    pub inner: NativeHandle,
}

#[derive(Clone, Copy, Debug, PartialEq, Eq, Hash, Structural)]
pub struct GPUFence {
    pub inner: NativeHandle,
}

#[derive(Clone, Copy, Debug, PartialEq, Eq, Hash, Structural)]
pub struct GpuSampler {
    pub inner: NativeHandle,
}

#[derive(Clone, Copy, Debug, PartialEq, Eq, Hash, Structural)]
pub struct GpuShaderModule {
    pub inner: NativeHandle,
}

#[derive(Clone, Copy, Debug, PartialEq, Eq, Hash, Structural)]
pub struct GpuFramebuffer {
    pub inner: NativeHandle,
}

/// Compiled draw or compute state, with the layout its resources bind through.
#[derive(Clone, Copy, Debug, PartialEq, Eq, Hash, Structural)]
pub struct Pipeline {
    pub pipeline: NativeHandle,
    pub pipeline_layout: NativeHandle,
}

/// A buffer and the one region of memory that backs it.
#[derive(Debug)]
pub struct GpuBuffer {
    pub inner: NativeHandle,
    pub memory_domain: MemoryDomain,
    pub allocation: MemoryAllocation,
}

/// An image. One that wraps a swapchain image owns no memory.
#[derive(Debug)]
pub struct GpuImage {
    pub inner: NativeHandle,
    pub allocation: Option<MemoryAllocation>,
    pub extents: Extent2D,
    pub format: ImageFormat,
}

#[derive(Debug)]
pub struct GpuImageView {
    pub inner: NativeHandle,
    pub format: ImageFormat,
    pub owner_image: NativeHandle,
    pub extents: Extent2D,
}

#[derive(Debug)]
pub struct GpuDescriptorSet {
    pub inner: NativeHandle,
    pub allocation: DescriptorSetAllocation,
}

/// Where the host has to copy bytes to, to fill part of a mapped buffer.
#[derive(Clone, Copy, Debug, PartialEq, Eq, Structural)]
pub struct HostWrite {
    /// The host address of the buffer's first byte.
    pub base: u64,
    /// The first byte to write, counted from `base`.
    pub offset: u64,
    /// How many bytes to write.
    pub length: u64,
}

/// Why bytes cannot be written to a buffer.
#[derive(Clone, Copy, Debug, PartialEq, Eq, Structural)]
pub enum BufferWriteError {
    /// There is nothing to write.
    EmptyData,
    /// The write starts at or behind the buffer's end.
    OffsetOutOfRange,
    /// The write starts inside the buffer and ends behind it.
    TooLong,
    /// The buffer's memory is not mapped.
    NotMapped,
}

impl GpuBuffer {
    pub fn create(
        buffer: NativeHandle,
        memory_domain: MemoryDomain,
        allocation: MemoryAllocation,
    ) -> (r: GpuBuffer)
        ensures
            r.inner == buffer,
            r.memory_domain == memory_domain,
            r.allocation == allocation,
    {
        GpuBuffer { inner: buffer, memory_domain, allocation }
    }

    /// What `write_data` answers for a write of `length` bytes at `offset`.
    pub open spec fn write_plan(self, offset: u64, length: nat) -> Result<
        HostWrite,
        BufferWriteError,
    > {
        if length == 0 {
            Err(BufferWriteError::EmptyData)
        } else if offset >= self.allocation.size {
            Err(BufferWriteError::OffsetOutOfRange)
        } else if length + offset > self.allocation.size {
            Err(BufferWriteError::TooLong)
        } else {
            match self.allocation.persistent_ptr {
                None => Err(BufferWriteError::NotMapped),
                Some(base) => Ok(HostWrite { base, offset, length: length as u64 }),
            }
        }
    }

    /// Checks a write of `data` at `offset` against the buffer's extent and
    /// mapping, and says where the bytes go. Nothing is copied here.
    pub fn write_data(&self, offset: u64, data: &[u8]) -> (r: Result<HostWrite, BufferWriteError>)
        ensures
            r == self.write_plan(offset, data@.len()),
    {
        let data_length: usize = data.len();
        if data_length == 0 {
            return Err(BufferWriteError::EmptyData);
        }
        if offset >= self.allocation.size {
            return Err(BufferWriteError::OffsetOutOfRange);
        }
        let room: u64 = self.allocation.size - offset;
        if data_length as u64 > room {
            return Err(BufferWriteError::TooLong);
        }
        match self.allocation.persistent_ptr {
            None => Err(BufferWriteError::NotMapped),
            Some(base) => Ok(HostWrite { base, offset, length: data_length as u64 }),
        }
    }
}

impl GpuImage {
    pub fn create(
        image: NativeHandle,
        allocation: MemoryAllocation,
        extents: Extent2D,
        format: ImageFormat,
    ) -> (r: GpuImage)
        ensures
            r.inner == image,
            r.allocation == Some(allocation),
            r.extents == extents,
            r.format == format,
    {
        GpuImage { inner: image, allocation: Some(allocation), extents, format }
    }

    /// An image over memory that something else owns, such as a swapchain image.
    pub fn wrap(inner: NativeHandle, extents: Extent2D, format: ImageFormat) -> (r: GpuImage)
        ensures
            r.inner == inner,
            r.allocation.is_none(),
            r.extents == extents,
            r.format == format,
    {
        GpuImage { inner, allocation: None, extents, format }
    }

    pub fn format(&self) -> (f: ImageFormat)
        ensures
            f == self.format,
    {
        self.format
    }

    pub fn extents(&self) -> (e: Extent2D)
        ensures
            e == self.extents,
    {
        self.extents
    }
}

impl GpuImageView {
    pub fn create(
        inner: NativeHandle,
        format: ImageFormat,
        owner_image: NativeHandle,
        extents: Extent2D,
    ) -> (r: GpuImageView)
        ensures
            r.inner == inner,
            r.format == format,
            r.owner_image == owner_image,
            r.extents == extents,
    {
        GpuImageView { inner, format, owner_image, extents }
    }

    pub fn inner_image_view(&self) -> (h: NativeHandle)
        ensures
            h == self.inner,
    {
        self.inner
    }

    pub fn inner_image(&self) -> (h: NativeHandle)
        ensures
            h == self.owner_image,
    {
        self.owner_image
    }

    pub fn format(&self) -> (f: ImageFormat)
        ensures
            f == self.format,
    {
        self.format
    }

    pub fn extents(&self) -> (e: Extent2D)
        ensures
            e == self.extents,
    {
        self.extents
    }
}

impl GpuDescriptorSet {
    pub fn create(allocation: DescriptorSetAllocation) -> (r: GpuDescriptorSet)
        ensures
            r.inner == allocation.descriptor_set,
            r.allocation == allocation,
    {
        GpuDescriptorSet { inner: allocation.descriptor_set, allocation }
    }

    /// Two descriptor sets are the same when they are the same native set.
    pub fn same_set(&self, other: &GpuDescriptorSet) -> (r: bool)
        ensures
            r == (self.inner == other.inner),
    {
        self.inner == other.inner
    }
}

impl GpuBuffer {
    /// Gives the buffer's memory back to `allocator`, which handed it out, and
    /// returns the native buffer, which the caller destroys after that.
    pub fn destroy(self, allocator: &mut MemoryAllocator) -> (r: Result<
        NativeHandle,
        AllocationError,
    >)
        requires
            old(allocator).wf(),
        ensures
            final(allocator).wf(),
            final(allocator)@ == old(allocator)@.with_heap(
                self.allocation.domain,
                old(allocator)@.heap(self.allocation.domain).deallocate(
                    self.allocation.offset,
                    self.allocation.size,
                ),
            ),
            r == if old(allocator)@.heap(self.allocation.domain).is_allocated(
                self.allocation.offset,
                self.allocation.size,
            ) {
                Ok::<NativeHandle, AllocationError>(self.inner)
            } else {
                Err::<NativeHandle, AllocationError>(AllocationError::NotAllocated)
            },
            r is Ok ==> final(allocator)@.heap(self.allocation.domain).free_capacity() == old(
                allocator,
            )@.heap(self.allocation.domain).free_capacity() + self.allocation.size,
    {
        match allocator.deallocate(&self.allocation) {
            Ok(()) => Ok(self.inner),
            Err(error) => Err(error),
        }
    }
}

impl GpuImage {
    /// Gives the image's memory back to `allocator`, which handed it out, and
    /// returns the native image for the caller to destroy. An image that wraps
    /// memory of something else gives nothing back and has nothing destroyed.
    pub fn destroy(self, allocator: &mut MemoryAllocator) -> (r: Result<
        Option<NativeHandle>,
        AllocationError,
    >)
        requires
            old(allocator).wf(),
        ensures
            final(allocator).wf(),
            match self.allocation {
                None => r == Ok::<Option<NativeHandle>, AllocationError>(None)
                    && final(allocator)@ == old(allocator)@,
                Some(allocation) => {
                    &&& final(allocator)@ == old(allocator)@.with_heap(
                        allocation.domain,
                        old(allocator)@.heap(allocation.domain).deallocate(
                            allocation.offset,
                            allocation.size,
                        ),
                    )
                    &&& r == if old(allocator)@.heap(allocation.domain).is_allocated(
                        allocation.offset,
                        allocation.size,
                    ) {
                        Ok::<Option<NativeHandle>, AllocationError>(Some(self.inner))
                    } else {
                        Err::<Option<NativeHandle>, AllocationError>(AllocationError::NotAllocated)
                    }
                },
            },
    {
        match &self.allocation {
            Some(allocation) => match allocator.deallocate(allocation) {
                Ok(()) => Ok(Some(self.inner)),
                Err(error) => Err(error),
            },
            None => Ok(None),
        }
    }
}

impl GpuDescriptorSet {
    /// Gives the set back to the page of `allocator` that it came from, and
    /// returns the native set for the caller to free.
    pub fn destroy(self, allocator: &mut DescriptorSetAllocator) -> (r: Result<
        NativeHandle,
        DescriptorSetError,
    >)
        requires
            old(allocator).wf(),
        ensures
            final(allocator).wf(),
            old(allocator)@.is_allocated(self.allocation.pool_index, self.allocation.slot) ==> r
                == Ok::<NativeHandle, DescriptorSetError>(self.inner) && final(allocator)@ == old(
                allocator,
            )@.vacate(self.allocation.pool_index, self.allocation.slot),
            !old(allocator)@.is_allocated(self.allocation.pool_index, self.allocation.slot) ==> r
                == Err::<NativeHandle, DescriptorSetError>(DescriptorSetError::NotAllocated)
                && final(allocator)@ == old(allocator)@,
    {
        match allocator.deallocate(&self.allocation) {
            Ok(()) => Ok(self.inner),
            Err(error) => Err(error),
        }
    }
}

} // verus!
