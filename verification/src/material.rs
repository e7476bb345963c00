//! Materials: pipelines with the buffers and textures that their shaders read,
//! and the layout of the descriptor set that binds them.

use vstd::prelude::*;
use crate::descriptor_set::{
    contiguous_bindings, BufferRange, DescriptorInfo, DescriptorKind, DescriptorType,
    SamplerState, ShaderStage,
};
use crate::image_format::LAYOUT_SHADER_READ_ONLY_OPTIMAL;
use crate::resource::{ResolutionError, ResourceHandle, ResourceMap};
use crate::types::{GpuBuffer, GpuDescriptorSet, GpuImage, GpuImageView, GpuSampler, Pipeline};
use crate::vk::image_layout_raw;

verus! {

/// The size that stands for "to the end of the buffer".
pub const WHOLE_SIZE: u64 = 0xffff_ffff_ffff_ffff;

#[derive(PartialEq, Eq, Hash, Copy, Clone, Debug, Structural)]
pub enum MaterialDomain {
    Surface,
    DepthOnly,
}

#[derive(PartialEq, Eq, Hash, Copy, Clone, Debug, Structural)]
pub enum PipelineTarget {
    ColorAndDepth,
    DepthOnly,
}

pub struct SamplerResource(pub GpuSampler);

pub struct ImageResource(pub GpuImage);

pub struct TextureImageView {
    pub image: ResourceHandle<ImageResource>,
    pub view: GpuImageView,
}

pub struct Texture {
    pub sampler: ResourceHandle<SamplerResource>,
    pub image_view: ResourceHandle<TextureImageView>,
}

/// The pipelines of a material, at most one for each target.
#[derive(Clone, Copy, Debug)]
pub struct Pipelines {
    pub color_and_depth: Option<Pipeline>,
    pub depth_only: Option<Pipeline>,
}

impl Pipelines {
    pub open spec fn spec_get(self, target: PipelineTarget) -> Option<Pipeline> {
        match target {
            PipelineTarget::ColorAndDepth => self.color_and_depth,
            PipelineTarget::DepthOnly => self.depth_only,
        }
    }

    pub fn new() -> (r: Pipelines)
        ensures
            forall|target: PipelineTarget| r.spec_get(target) is None,
    {
        Pipelines { color_and_depth: None, depth_only: None }
    }

    pub fn get(&self, target: PipelineTarget) -> (r: Option<Pipeline>)
        ensures
            r == self.spec_get(target),
    {
        match target {
            PipelineTarget::ColorAndDepth => self.color_and_depth,
            PipelineTarget::DepthOnly => self.depth_only,
        }
    }

    /// Sets the pipeline of `target` and returns the one it replaces.
    pub fn insert(&mut self, target: PipelineTarget, pipeline: Pipeline) -> (r: Option<Pipeline>)
        ensures
            r == old(self).spec_get(target),
            final(self).spec_get(target) == Some(pipeline),
            forall|other: PipelineTarget|
                other != target ==> final(self).spec_get(other) == old(self).spec_get(other),
    {
        match target {
            PipelineTarget::ColorAndDepth => {
                let before = self.color_and_depth;
                self.color_and_depth = Some(pipeline);
                before
            },
            PipelineTarget::DepthOnly => {
                let before = self.depth_only;
                self.depth_only = Some(pipeline);
                before
            },
        }
    }
}

/// The arenas that the textures of materials resolve through.
pub struct TextureMaps {
    pub textures: ResourceMap<Texture>,
    pub samplers: ResourceMap<SamplerResource>,
    pub image_views: ResourceMap<TextureImageView>,
}

/// Why the descriptor layout of a material could not be derived.
#[derive(Clone, Copy, Debug, PartialEq, Eq, Structural)]
pub enum MaterialError {
    /// A texture, its sampler or its image view does not resolve.
    Unresolved(ResolutionError),
    /// There are more resources than binding indices.
    TooManyResources,
    /// A texture input of the master material has no texture.
    MissingTextureInput,
    /// The parameter block is larger than the material's parameter buffer, or
    /// the material has no parameter buffer.
    ParameterBlockMismatch,
}

impl TextureMaps {
    pub open spec fn wf(&self) -> bool {
        &&& self.textures.wf()
        &&& self.samplers.wf()
        &&& self.image_views.wf()
    }

    /// Why `texture` cannot be bound, if it cannot.
    pub open spec fn texture_error(&self, texture: ResourceHandle<Texture>) -> Option<
        ResolutionError,
    > {
        match self.textures@.resolution_error(texture) {
            Some(error) => Some(error),
            None => {
                let resolved = self.textures@.slots[texture.index as int].value->Some_0;
                match self.samplers@.resolution_error(resolved.sampler) {
                    Some(error) => Some(error),
                    None => self.image_views@.resolution_error(resolved.image_view),
                }
            },
        }
    }

    /// The sampler of a texture that can be bound.
    pub open spec fn sampler_of(&self, texture: ResourceHandle<Texture>) -> GpuSampler {
        let resolved = self.textures@.slots[texture.index as int].value->Some_0;
        self.samplers@.slots[resolved.sampler.index as int].value->Some_0.0
    }

    /// The image view of a texture that can be bound.
    pub open spec fn image_view_of(&self, texture: ResourceHandle<Texture>) -> GpuImageView {
        let resolved = self.textures@.slots[texture.index as int].value->Some_0;
        self.image_views@.slots[resolved.image_view.index as int].value->Some_0.view
    }

    /// Whether `descriptor` binds `texture` at `binding`: sampler and view
    /// together, read by vertex and fragment shaders in the read-only layout.
    pub open spec fn binds_texture(
        &self,
        descriptor: DescriptorInfo,
        texture: ResourceHandle<Texture>,
        binding: int,
    ) -> bool {
        &&& descriptor.binding == binding
        &&& descriptor.binding_stage == ShaderStage::VertexFragment
        &&& descriptor.element_type is CombinedImageSampler
        &&& *descriptor.element_type->CombinedImageSampler_0.sampler == self.sampler_of(texture)
        &&& *descriptor.element_type->CombinedImageSampler_0.image_view == self.image_view_of(
            texture,
        )
        &&& image_layout_raw(descriptor.element_type->CombinedImageSampler_0.image_layout)
            == LAYOUT_SHADER_READ_ONLY_OPTIMAL
    }

    /// The descriptor that binds `texture` at `binding`.
    pub fn texture_descriptor<'a>(&'a self, texture: &ResourceHandle<Texture>, binding: u32) -> (r:
        Result<DescriptorInfo<'a>, ResolutionError>)
        requires
            self.wf(),
        ensures
            match self.texture_error(*texture) {
                Some(error) => r is Err && r->Err_0 == error,
                None => r is Ok && self.binds_texture(r->Ok_0, *texture, binding as int),
            },
    {
        let resolved = match self.textures.get(texture) {
            Ok(resolved) => resolved,
            Err(error) => {
                return Err(error);
            },
        };
        let sampler = match self.samplers.get(&resolved.sampler) {
            Ok(sampler) => sampler,
            Err(error) => {
                return Err(error);
            },
        };
        let image_view = match self.image_views.get(&resolved.image_view) {
            Ok(image_view) => image_view,
            Err(error) => {
                return Err(error);
            },
        };
        Ok(
            DescriptorInfo {
                binding,
                element_type: DescriptorType::CombinedImageSampler(
                    SamplerState {
                        sampler: &sampler.0,
                        image_view: &image_view.view,
                        image_layout: ash::vk::ImageLayout::from_raw(
                            LAYOUT_SHADER_READ_ONLY_OPTIMAL,
                        ),
                    },
                ),
                binding_stage: ShaderStage::VertexFragment,
            },
        )
    }
}

/// Whether `descriptor` binds the whole of `buffer` at `binding` as a uniform
/// buffer that vertex and fragment shaders read.
pub open spec fn binds_buffer(descriptor: DescriptorInfo, buffer: GpuBuffer, binding: int) -> bool {
    &&& descriptor.binding == binding
    &&& descriptor.binding_stage == ShaderStage::VertexFragment
    &&& descriptor.element_type is UniformBuffer
    &&& *descriptor.element_type->UniformBuffer_0.handle == buffer
    &&& descriptor.element_type->UniformBuffer_0.offset == 0
    &&& descriptor.element_type->UniformBuffer_0.size == WHOLE_SIZE
}

/// The descriptor that binds the whole of `buffer` at `binding`.
pub fn buffer_descriptor<'a>(buffer: &'a GpuBuffer, binding: u32) -> (r: DescriptorInfo<'a>)
    ensures
        binds_buffer(r, *buffer, binding as int),
{
    DescriptorInfo {
        binding,
        element_type: DescriptorType::UniformBuffer(
            BufferRange { handle: buffer, offset: 0, size: WHOLE_SIZE },
        ),
        binding_stage: ShaderStage::VertexFragment,
    }
}

/// The first reason for which one of `textures`, from `from` on, cannot be bound.
pub open spec fn first_texture_error(
    maps: &TextureMaps,
    textures: Seq<ResourceHandle<Texture>>,
    from: int,
) -> Option<ResolutionError>
    decreases textures.len() - from,
{
    if from < 0 || from >= textures.len() {
        None
    } else if maps.texture_error(textures[from]) is Some {
        maps.texture_error(textures[from])
    } else {
        first_texture_error(maps, textures, from + 1)
    }
}

/// A material: its pipelines, the resources that its shaders read, and the
/// descriptor set that binds them.
pub struct Material {
    pub pipelines: Pipelines,
    pub uniform_buffers: Vec<GpuBuffer>,
    pub textures: Vec<ResourceHandle<Texture>>,
    pub resources_descriptor_set: GpuDescriptorSet,
}

/// Whether `descriptors` bind `uniform_buffers` first and `textures` after
/// them, each at the binding index of its place.
pub open spec fn binds_resources(
    maps: &TextureMaps,
    descriptors: Seq<DescriptorInfo>,
    uniform_buffers: Seq<GpuBuffer>,
    textures: Seq<ResourceHandle<Texture>>,
) -> bool {
    &&& descriptors.len() == uniform_buffers.len() + textures.len()
    &&& forall|i: int|
        0 <= i < uniform_buffers.len() ==> binds_buffer(
            #[trigger] descriptors[i],
            uniform_buffers[i],
            i,
        )
    &&& forall|j: int|
        0 <= j < textures.len() ==> maps.binds_texture(
            descriptors[uniform_buffers.len() + j],
            #[trigger] textures[j],
            uniform_buffers.len() + j,
        )
}

impl Material {
    /// The layout of the descriptor set of a material with these resources:
    /// the uniform buffers first, then the textures, numbered from zero on.
    pub fn descriptors<'a>(
        maps: &'a TextureMaps,
        uniform_buffers: &'a [GpuBuffer],
        textures: &[ResourceHandle<Texture>],
    ) -> (r: Result<Vec<DescriptorInfo<'a>>, MaterialError>)
        requires
            maps.wf(),
        ensures
            uniform_buffers@.len() + textures@.len() > u32::MAX ==> r is Err && r->Err_0
                == MaterialError::TooManyResources,
            uniform_buffers@.len() + textures@.len() <= u32::MAX ==> match first_texture_error(
                maps,
                textures@,
                0,
            ) {
                Some(error) => r is Err && r->Err_0 == MaterialError::Unresolved(error),
                None => r is Ok && binds_resources(maps, r->Ok_0@, uniform_buffers@, textures@)
                    && contiguous_bindings(r->Ok_0@),
            },
    {
        if uniform_buffers.len() > u32::MAX as usize || textures.len() > u32::MAX as usize
            - uniform_buffers.len() {
            return Err(MaterialError::TooManyResources);
        }
        let mut uniform_descriptors: Vec<DescriptorInfo<'a>> = Vec::new();
        let mut bind_index: u32 = 0;
        let mut i: usize = 0;
        while i < uniform_buffers.len()
            invariant
                i <= uniform_buffers@.len(),
                uniform_buffers@.len() + textures@.len() <= u32::MAX,
                bind_index == i,
                uniform_descriptors@.len() == i,
                contiguous_bindings(uniform_descriptors@),
                forall|k: int|
                    0 <= k < i ==> binds_buffer(
                        #[trigger] uniform_descriptors@[k],
                        uniform_buffers@[k],
                        k,
                    ),
            decreases uniform_buffers@.len() - i,
        {
            uniform_descriptors.push(buffer_descriptor(&uniform_buffers[i], bind_index));
            bind_index += 1;
            i += 1;
        }
        let mut j: usize = 0;
        while j < textures.len()
            invariant
                j <= textures@.len(),
                maps.wf(),
                uniform_buffers@.len() + textures@.len() <= u32::MAX,
                bind_index == uniform_buffers@.len() + j,
                uniform_descriptors@.len() == uniform_buffers@.len() + j,
                contiguous_bindings(uniform_descriptors@),
                first_texture_error(maps, textures@, 0) == first_texture_error(
                    maps,
                    textures@,
                    j as int,
                ),
                forall|k: int|
                    0 <= k < uniform_buffers@.len() ==> binds_buffer(
                        #[trigger] uniform_descriptors@[k],
                        uniform_buffers@[k],
                        k,
                    ),
                forall|k: int|
                    0 <= k < j ==> maps.binds_texture(
                        uniform_descriptors@[uniform_buffers@.len() + k],
                        #[trigger] textures@[k],
                        uniform_buffers@.len() + k,
                    ),
            decreases textures@.len() - j,
        {
            match maps.texture_descriptor(&textures[j], bind_index) {
                Ok(descriptor) => {
                    uniform_descriptors.push(descriptor);
                },
                Err(error) => {
                    return Err(MaterialError::Unresolved(error));
                },
            }
            bind_index += 1;
            j += 1;
        }
        Ok(uniform_descriptors)
    }

    /// A material over resources whose descriptor set was allocated with the
    /// layout of `descriptors`.
    pub fn new(
        pipelines: Pipelines,
        uniform_buffers: Vec<GpuBuffer>,
        textures: Vec<ResourceHandle<Texture>>,
        resources_descriptor_set: GpuDescriptorSet,
    ) -> (r: Material)
        ensures
            r.pipelines == pipelines,
            r.uniform_buffers == uniform_buffers,
            r.textures == textures,
            r.resources_descriptor_set == resources_descriptor_set,
    {
        Material { pipelines, uniform_buffers, textures, resources_descriptor_set }
    }

    pub fn get_description(&self) -> (r: &'static str)
        ensures
            r@ == "Material"@,
    {
        "Material"
    }
}

} // verus!
