use ash::vk;
use gpu::allocator::{MemoryAllocation, MemoryDomain};
use gpu::descriptor_set::{
    DescriptorInfo, DescriptorSetAllocation, DescriptorSetInfo, DescriptorType, ShaderStage,
};
use gpu::geometry::Extent2D;
use gpu::gltf_loader::GltfLoader;
use gpu::image_format::ImageFormat;
use gpu::material::{
    Material, MaterialDomain, MaterialError, PipelineTarget, Pipelines, SamplerResource, Texture,
    TextureImageView, TextureMaps, WHOLE_SIZE,
};
use gpu::material_instance::{
    find_texture, MasterMaterial, MaterialInstance, MaterialInstanceDescription, NamedTexture,
};
use gpu::resource::{ResolutionError, ResourceHandle, ResourceMap};
use gpu::types::{GpuBuffer, GpuDescriptorSet, GpuImageView, GpuSampler, Pipeline};
use std::marker::PhantomData;

fn buffer(handle: u64) -> GpuBuffer {
    GpuBuffer::create(
        handle,
        MemoryDomain::DeviceLocal,
        MemoryAllocation { offset: 0, size: 64, domain: MemoryDomain::DeviceLocal, persistent_ptr: None },
    )
}

fn maps() -> TextureMaps {
    TextureMaps {
        textures: ResourceMap::new(),
        samplers: ResourceMap::new(),
        image_views: ResourceMap::new(),
    }
}

fn add_texture(maps: &mut TextureMaps, sampler: u64, view: u64) -> ResourceHandle<Texture> {
    let s = maps.samplers.add(SamplerResource(GpuSampler { inner: sampler }));
    let v = maps.image_views.add(TextureImageView {
        image: ResourceHandle { index: 0, generation: 0, marker: PhantomData },
        view: GpuImageView::create(view, ImageFormat::Rgba8, view + 1, Extent2D { width: 2, height: 2 }),
    });
    maps.textures.add(Texture { sampler: s, image_view: v })
}

fn check_texture(d: &DescriptorInfo, binding: u32, sampler: u64, view: u64) {
    assert_eq!(d.binding, binding);
    assert_eq!(d.binding_stage, ShaderStage::VertexFragment);
    match d.element_type {
        DescriptorType::CombinedImageSampler(state) => {
            assert_eq!(state.sampler.inner, sampler);
            assert_eq!(state.image_view.inner, view);
            assert_eq!(state.image_layout, vk::ImageLayout::SHADER_READ_ONLY_OPTIMAL);
        }
        _ => panic!("a texture is bound as sampler and image together"),
    }
}

fn check_buffer(d: &DescriptorInfo, binding: u32, handle: u64) {
    assert_eq!(d.binding, binding);
    assert_eq!(d.binding_stage, ShaderStage::VertexFragment);
    match d.element_type {
        DescriptorType::UniformBuffer(range) => {
            assert_eq!(range.handle.inner, handle);
            assert_eq!(range.offset, 0);
            assert_eq!(range.size, vk::WHOLE_SIZE);
            assert_eq!(range.size, WHOLE_SIZE);
        }
        _ => panic!("a buffer is bound as uniform buffer"),
    }
}

#[test]
fn material_binds_buffers_first_then_textures() {
    let mut maps = maps();
    let t0 = add_texture(&mut maps, 100, 200);
    let t1 = add_texture(&mut maps, 101, 201);
    let buffers = vec![buffer(1), buffer(2)];
    let textures = vec![t1, t0];
    let descriptors = Material::descriptors(&maps, &buffers, &textures).unwrap();
    assert_eq!(descriptors.len(), 4);
    check_buffer(&descriptors[0], 0, 1);
    check_buffer(&descriptors[1], 1, 2);
    check_texture(&descriptors[2], 2, 101, 201);
    check_texture(&descriptors[3], 3, 100, 200);
    assert!(DescriptorSetInfo { descriptors: &descriptors }.has_contiguous_bindings());
}

#[test]
fn material_with_unresolved_texture_is_refused() {
    let mut maps = maps();
    let t0 = add_texture(&mut maps, 100, 200);
    let stale = t0;
    maps.textures.drop_handle(t0).unwrap();
    let buffers = vec![buffer(1)];
    assert!(matches!(
        Material::descriptors(&maps, &buffers, &[stale]),
        Err(MaterialError::Unresolved(ResolutionError::Stale))
    ));
    let missing = ResourceHandle { index: 9, generation: 0, marker: PhantomData };
    assert!(matches!(
        Material::descriptors(&maps, &buffers, &[missing]),
        Err(MaterialError::Unresolved(ResolutionError::OutOfRange))
    ));
    assert_eq!(Material::descriptors(&maps, &buffers, &[]).unwrap().len(), 1);
}

#[test]
fn material_keeps_what_it_is_made_of() {
    let mut pipelines = Pipelines::new();
    assert!(pipelines.get(PipelineTarget::DepthOnly).is_none());
    let p = Pipeline { pipeline: 1, pipeline_layout: 2 };
    let q = Pipeline { pipeline: 3, pipeline_layout: 4 };
    assert_eq!(pipelines.insert(PipelineTarget::ColorAndDepth, p), None);
    assert_eq!(pipelines.insert(PipelineTarget::ColorAndDepth, q), Some(p));
    assert_eq!(pipelines.get(PipelineTarget::ColorAndDepth), Some(q));
    assert_eq!(pipelines.get(PipelineTarget::DepthOnly), None);
    let set = GpuDescriptorSet::create(DescriptorSetAllocation { descriptor_set: 5, pool_index: 0, slot: 0 });
    let material = Material::new(pipelines, vec![buffer(1)], vec![], set);
    assert_eq!(material.uniform_buffers.len(), 1);
    assert_eq!(material.resources_descriptor_set.inner, 5);
    assert_eq!(material.pipelines.get(PipelineTarget::ColorAndDepth), Some(q));
    assert_eq!(material.get_description(), "Material");
    assert_ne!(MaterialDomain::Surface, MaterialDomain::DepthOnly);
}

fn named(name: &str, texture: ResourceHandle<Texture>) -> NamedTexture {
    NamedTexture { name: name.to_string(), texture }
}

#[test]
fn instance_binds_textures_by_input_name_then_parameters() {
    let mut maps = maps();
    let base = add_texture(&mut maps, 100, 200);
    let other = add_texture(&mut maps, 101, 201);
    let master = GltfLoader::create_master_pbr_material();
    let description = MaterialInstanceDescription {
        name: "instance",
        texture_inputs: vec![
            named("metallic_roughness", other),
            named("emissive_texture", base),
            named("occlusion_texture", base),
            named("normal_texture", other),
            named("base_texture", base),
        ],
    };
    let parameters = Some(buffer(77));
    let descriptors =
        MaterialInstance::create_user_descriptor_set(&maps, &master, &description, &parameters).unwrap();
    assert_eq!(descriptors.len(), 6);
    check_texture(&descriptors[0], 0, 100, 200);
    check_texture(&descriptors[1], 1, 101, 201);
    check_texture(&descriptors[2], 2, 100, 200);
    check_texture(&descriptors[3], 3, 100, 200);
    check_texture(&descriptors[4], 4, 101, 201);
    check_buffer(&descriptors[5], 5, 77);
    let none = None;
    let without =
        MaterialInstance::create_user_descriptor_set(&maps, &master, &description, &none).unwrap();
    assert_eq!(without.len(), 5);
}

#[test]
fn instance_without_a_texture_for_an_input_is_refused() {
    let mut maps = maps();
    let base = add_texture(&mut maps, 100, 200);
    let master = GltfLoader::create_master_pbr_material();
    let description = MaterialInstanceDescription {
        name: "instance",
        texture_inputs: vec![named("base_texture", base)],
    };
    let none = None;
    assert!(matches!(
        MaterialInstance::create_user_descriptor_set(&maps, &master, &description, &none),
        Err(MaterialError::MissingTextureInput)
    ));
    let dangling = ResourceHandle { index: 40, generation: 0, marker: PhantomData };
    let description = MaterialInstanceDescription {
        name: "instance",
        texture_inputs: vec![named("base_texture", dangling)],
    };
    assert!(matches!(
        MaterialInstance::create_user_descriptor_set(&maps, &master, &description, &none),
        Err(MaterialError::Unresolved(ResolutionError::OutOfRange))
    ));
}

#[test]
fn find_texture_takes_the_first_of_a_name() {
    let a = ResourceHandle { index: 1, generation: 0, marker: PhantomData };
    let b = ResourceHandle { index: 2, generation: 0, marker: PhantomData };
    let inputs = vec![named("x", a), named("y", b), named("x", b)];
    assert_eq!(find_texture(&inputs, &"x".to_string()).map(|h| h.index), Some(1));
    assert_eq!(find_texture(&inputs, &"y".to_string()).map(|h| h.index), Some(2));
    assert!(find_texture(&inputs, &"z".to_string()).is_none());
}

#[test]
fn parameter_blocks_have_to_fit_the_instance() {
    let master = GltfLoader::create_master_pbr_material();
    assert_eq!(MaterialInstance::parameter_buffer_size(&master), Some(48));
    let bare = MasterMaterial {
        name: "bare".to_string(),
        domain: MaterialDomain::DepthOnly,
        texture_inputs: vec![],
        material_parameters: vec![],
        parameter_block_size: 0,
    };
    assert_eq!(MaterialInstance::parameter_buffer_size(&bare), None);
    let owner = ResourceHandle { index: 0, generation: 0, marker: PhantomData };
    let set = GpuDescriptorSet::create(DescriptorSetAllocation { descriptor_set: 5, pool_index: 0, slot: 0 });
    let description = MaterialInstanceDescription { name: "inst", texture_inputs: vec![] };
    let instance = MaterialInstance::create_instance(owner, &master, description, Some(buffer(9)), set);
    assert_eq!(instance.name, "inst");
    assert_eq!(instance.parameter_block_size, 48);
    assert_eq!(instance.get_description(), "Material Instance");
    assert_eq!(instance.write_parameters(48).unwrap().inner, 9);
    assert_eq!(instance.write_parameters(0).unwrap().inner, 9);
    assert!(matches!(instance.write_parameters(49), Err(MaterialError::ParameterBlockMismatch)));
    let set = GpuDescriptorSet::create(DescriptorSetAllocation { descriptor_set: 6, pool_index: 0, slot: 1 });
    let description = MaterialInstanceDescription { name: "inst", texture_inputs: vec![] };
    let without = MaterialInstance::create_instance(owner, &master, description, None, set);
    assert!(matches!(without.write_parameters(16), Err(MaterialError::ParameterBlockMismatch)));
}
