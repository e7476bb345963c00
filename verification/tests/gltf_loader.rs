use ash::vk;
use gpu::gltf_loader::{
    GltfLoadOptions, GltfLoader, LoadError, LoadedTextures, MagFilter, MaterialSource, MinFilter,
    NodeDescription, NodeMesh, PixelLayout, SamplerDescription, TextureDescription, WrappingMode,
};
use gpu::image_format::ImageFormat;
use gpu::material::MaterialDomain;
use gpu::material_instance::MaterialParameterOffsetSize;
use gpu::resource::ResourceHandle;
use gpu::scene::{Scene, ScenePrimitive};
use std::marker::PhantomData;

fn handle<T>(index: usize) -> ResourceHandle<T> {
    ResourceHandle { index, generation: 0, marker: PhantomData }
}

#[test]
fn image_layouts_map_to_formats() {
    assert_eq!(GltfLoader::image_format(PixelLayout::R8G8B8A8), Some(ImageFormat::Rgba8));
    assert_eq!(GltfLoader::image_format(PixelLayout::R8G8B8), Some(ImageFormat::Rgb8));
    assert_eq!(GltfLoader::image_format(PixelLayout::R32G32B32A32Float), Some(ImageFormat::RgbaFloat));
    for unsupported in [
        PixelLayout::R8,
        PixelLayout::R8G8,
        PixelLayout::R16,
        PixelLayout::R16G16,
        PixelLayout::R16G16B16,
        PixelLayout::R16G16B16A16,
        PixelLayout::R32G32B32Float,
    ] {
        assert_eq!(GltfLoader::image_format(unsupported), None);
    }
    assert_eq!(
        GltfLoader::load_images(&[PixelLayout::R8G8B8, PixelLayout::R8G8B8A8]),
        Ok(vec![ImageFormat::Rgb8, ImageFormat::Rgba8])
    );
    assert_eq!(
        GltfLoader::load_images(&[PixelLayout::R8G8B8, PixelLayout::R16]),
        Err(LoadError::UnsupportedFormat)
    );
    assert_eq!(GltfLoader::load_images(&[]), Ok(vec![]));
}

#[test]
fn samplers_follow_the_document() {
    let samplers = [
        SamplerDescription {
            wrap_s: WrappingMode::ClampToEdge,
            wrap_t: WrappingMode::MirroredRepeat,
            mag_filter: Some(MagFilter::Linear),
            min_filter: Some(MinFilter::Nearest),
        },
        SamplerDescription {
            wrap_s: WrappingMode::Repeat,
            wrap_t: WrappingMode::Repeat,
            mag_filter: None,
            min_filter: None,
        },
        SamplerDescription {
            wrap_s: WrappingMode::Repeat,
            wrap_t: WrappingMode::ClampToEdge,
            mag_filter: Some(MagFilter::Nearest),
            min_filter: Some(MinFilter::LinearMipmapLinear),
        },
        SamplerDescription {
            wrap_s: WrappingMode::Repeat,
            wrap_t: WrappingMode::Repeat,
            mag_filter: None,
            min_filter: Some(MinFilter::Linear),
        },
    ];
    let settings = GltfLoader::load_samplers(&samplers);
    assert_eq!(settings.len(), 4);
    assert_eq!(settings[0].address_mode_u, vk::SamplerAddressMode::CLAMP_TO_EDGE);
    assert_eq!(settings[0].address_mode_v, vk::SamplerAddressMode::MIRRORED_REPEAT);
    assert_eq!(settings[0].mag_filter, vk::Filter::LINEAR);
    assert_eq!(settings[0].min_filter, vk::Filter::NEAREST);
    assert!(!settings[0].min_filter_replaced);
    assert_eq!(settings[1].address_mode_u, vk::SamplerAddressMode::REPEAT);
    assert_eq!(settings[1].mag_filter, vk::Filter::NEAREST);
    assert_eq!(settings[1].min_filter, vk::Filter::NEAREST);
    assert_eq!(settings[2].mag_filter, vk::Filter::NEAREST);
    assert_eq!(settings[2].min_filter, vk::Filter::LINEAR);
    assert!(settings[2].min_filter_replaced);
    assert_eq!(settings[3].min_filter, vk::Filter::LINEAR);
    assert!(!settings[3].min_filter_replaced);
    assert_eq!(WrappingMode::MirroredRepeat.address_mode(), vk::SamplerAddressMode::MIRRORED_REPEAT);
}

#[test]
fn document_without_samplers_gets_the_default_sampler() {
    let settings = GltfLoader::load_samplers(&[]);
    assert_eq!(settings.len(), 1);
    assert_eq!(settings[0].address_mode_u, vk::SamplerAddressMode::REPEAT);
    assert_eq!(settings[0].address_mode_v, vk::SamplerAddressMode::REPEAT);
    assert_eq!(settings[0].mag_filter, vk::Filter::LINEAR);
    assert_eq!(settings[0].min_filter, vk::Filter::LINEAR);
    assert!(!settings[0].min_filter_replaced);
}

#[test]
fn textures_name_their_sampler_and_image() {
    let views = [handle(10), handle(11)];
    let samplers = [handle(20), handle(21)];
    let textures = [
        TextureDescription { sampler: Some(1), source: 0 },
        TextureDescription { sampler: None, source: 1 },
    ];
    let all = GltfLoader::load_textures(&textures, &views, &samplers).unwrap();
    assert_eq!(all.len(), 2);
    assert_eq!((all[0].sampler.index, all[0].image_view.index), (21, 10));
    assert_eq!((all[1].sampler.index, all[1].image_view.index), (20, 11));
    let bad_source = [TextureDescription { sampler: None, source: 2 }];
    assert_eq!(
        GltfLoader::load_textures(&bad_source, &views, &samplers).err(),
        Some(LoadError::IndexOutOfRange)
    );
    let bad_sampler = [TextureDescription { sampler: Some(2), source: 0 }];
    assert_eq!(
        GltfLoader::load_textures(&bad_sampler, &views, &samplers).err(),
        Some(LoadError::IndexOutOfRange)
    );
}

fn material(base: Option<usize>, emissive: Option<usize>) -> MaterialSource {
    MaterialSource {
        index: Some(3),
        base_color_texture: base,
        normal_texture: None,
        occlusion_texture: Some(1),
        emissive_texture: emissive,
        metallic_roughness_texture: None,
        base_color_factor: [1.0f32.to_bits(), 0.5f32.to_bits(), 0.25f32.to_bits(), 1.0f32.to_bits()],
        metallic_factor: 0.75f32.to_bits(),
        roughness_factor: 0.125f32.to_bits(),
        emissive_factor: [0.1f32.to_bits(), 0.2f32.to_bits(), 0.3f32.to_bits()],
    }
}

fn loaded() -> LoadedTextures {
    LoadedTextures { white: handle(100), black: handle(101), all_textures: vec![handle(0), handle(1)] }
}

#[test]
fn materials_fall_back_to_white_and_black() {
    let textures = loaded();
    let inputs = GltfLoader::material_inputs(&material(Some(0), None), &textures).unwrap();
    let names: Vec<&str> = inputs.iter().map(|i| i.name.as_str()).collect();
    assert_eq!(
        names,
        vec!["base_texture", "normal_texture", "occlusion_texture", "emissive_texture", "metallic_roughness"]
    );
    let indices: Vec<usize> = inputs.iter().map(|i| i.texture.index).collect();
    assert_eq!(indices, vec![0, 100, 1, 101, 100]);
    let inputs = GltfLoader::material_inputs(&material(None, Some(1)), &textures).unwrap();
    let indices: Vec<usize> = inputs.iter().map(|i| i.texture.index).collect();
    assert_eq!(indices, vec![100, 100, 1, 1, 100]);
    assert_eq!(
        GltfLoader::material_inputs(&material(Some(2), None), &textures).err(),
        Some(LoadError::IndexOutOfRange)
    );
}

#[test]
fn parameter_block_is_laid_out_from_the_factors() {
    let p = GltfLoader::pbr_properties(&material(None, None));
    let floats = |a: [u32; 4]| a.map(f32::from_bits);
    assert_eq!(floats(p.base_color), [1.0, 0.5, 0.25, 1.0]);
    assert_eq!(floats(p.metallic_roughness), [0.75, 0.125, 0.0, 1.0]);
    assert_eq!(floats(p.emissive_color), [0.1, 0.2, 0.3, 1.0]);
}

#[test]
fn materials_of_a_document_are_planned_in_order() {
    let textures = loaded();
    let mut unnamed = material(None, None);
    unnamed.index = None;
    let plans = GltfLoader::load_materials(&[material(Some(1), None), unnamed], &textures).unwrap();
    assert_eq!(plans.len(), 2);
    assert_eq!(plans[0].index, 3);
    assert_eq!(plans[1].index, 0);
    assert_eq!(plans[0].inputs[0].texture.index, 1);
    assert_eq!(plans[1].inputs[0].texture.index, 100);
    assert_eq!(
        GltfLoader::load_materials(&[material(Some(1), None), material(None, Some(7))], &textures).err(),
        Some(LoadError::IndexOutOfRange)
    );
}

#[test]
fn master_material_has_five_inputs_and_three_parameters() {
    let master = GltfLoader::create_master_pbr_material();
    assert_eq!(master.name, "PbrMaterial");
    assert_eq!(master.domain, MaterialDomain::Surface);
    let names: Vec<&str> = master.texture_inputs.iter().map(|i| i.name.as_str()).collect();
    assert_eq!(
        names,
        vec!["base_texture", "normal_texture", "occlusion_texture", "emissive_texture", "metallic_roughness"]
    );
    assert!(master.texture_inputs.iter().all(|i| i.format == ImageFormat::Rgba8));
    let params: Vec<(&str, MaterialParameterOffsetSize)> =
        master.material_parameters.iter().map(|p| (p.name.as_str(), p.range)).collect();
    assert_eq!(
        params,
        vec![
            ("base_color", MaterialParameterOffsetSize { offset: 0, size: 16 }),
            ("metallic_roughness", MaterialParameterOffsetSize { offset: 16, size: 16 }),
            ("emissive_color", MaterialParameterOffsetSize { offset: 32, size: 16 }),
        ]
    );
    assert_eq!(master.parameter_block_size, 48);
}

fn node(transform: u32, mesh: Option<(usize, Vec<Option<usize>>)>) -> NodeDescription {
    NodeDescription {
        transform: [transform; 16],
        mesh: mesh.map(|(index, primitive_materials)| NodeMesh { index, primitive_materials }),
    }
}

#[test]
fn scene_has_a_primitive_for_each_node_with_a_mesh() {
    let materials = [handle(50), handle(51), handle(52)];
    let meshes = [handle(60), handle(61)];
    let nodes = [
        node(1, Some((1, vec![Some(2), None, Some(1)]))),
        node(2, None),
        node(3, Some((0, vec![]))),
    ];
    let mut loader = GltfLoader::load(&nodes, &materials, &meshes, GltfLoadOptions {}).ok().unwrap();
    let scene = loader.scene();
    assert_eq!(scene.primitives.len(), 2);
    assert_eq!(scene.primitives[0].mesh.index, 61);
    assert_eq!(scene.primitives[0].transform, [1; 16]);
    let used: Vec<usize> = scene.primitives[0].materials.iter().map(|m| m.index).collect();
    assert_eq!(used, vec![52, 50, 51]);
    assert_eq!(scene.primitives[1].mesh.index, 60);
    assert!(scene.primitives[1].materials.is_empty());
    let added = loader.scene_mut().add(ScenePrimitive {
        mesh: handle(60),
        materials: vec![],
        transform: [0; 16],
    });
    assert_eq!(added, 2);
    assert_eq!(loader.scene().primitives.len(), 3);
}

#[test]
fn scene_with_dangling_references_is_refused() {
    let materials = [handle(50)];
    let meshes = [handle(60)];
    let bad_mesh = [node(1, Some((1, vec![])))];
    assert_eq!(
        GltfLoader::build_engine_scene(&bad_mesh, &materials, &meshes).err(),
        Some(LoadError::IndexOutOfRange)
    );
    let bad_material = [node(1, None), node(1, Some((0, vec![None, Some(1)])))];
    assert_eq!(
        GltfLoader::build_engine_scene(&bad_material, &materials, &meshes).err(),
        Some(LoadError::IndexOutOfRange)
    );
    let no_materials: [ResourceHandle<gpu::material_instance::MaterialInstance>; 0] = [];
    let defaulted = [node(1, Some((0, vec![None])))];
    assert_eq!(
        GltfLoader::build_engine_scene(&defaulted, &no_materials, &meshes).err(),
        Some(LoadError::IndexOutOfRange)
    );
    let empty = GltfLoader::build_engine_scene(&[], &materials, &meshes).ok().unwrap();
    assert!(empty.primitives.is_empty());
    assert!(Scene::new().primitives.is_empty());
}
