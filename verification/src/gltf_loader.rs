//! Turning what a glTF document says into the resources of a scene.
//!
//! The document is read elsewhere. What is decided here: which format an image
//! gets, how a sampler is set up, which sampler and image a texture uses, which
//! textures a material binds, and which mesh and materials a node draws.

use vstd::prelude::*;
use crate::image_format::ImageFormat;
use crate::material::{MaterialDomain, SamplerResource, Texture, TextureImageView};
use crate::material_instance::{
    MasterMaterial, MaterialInstance, MaterialParameter, MaterialParameterOffsetSize,
    NamedTexture, TextureInput,
};
use crate::resource::ResourceHandle;
use crate::scene::{Mesh, Scene, ScenePrimitive};
use crate::vk::{address_mode_raw, filter_raw};

verus! {

pub const ADDRESS_MODE_REPEAT: i32 = 0;

pub const ADDRESS_MODE_MIRRORED_REPEAT: i32 = 1;

pub const ADDRESS_MODE_CLAMP_TO_EDGE: i32 = 2;

pub const FILTER_NEAREST: i32 = 0;

pub const FILTER_LINEAR: i32 = 1;

/// The bit pattern of the single-precision number one.
pub const ONE: u32 = 0x3f80_0000;

/// The layout of the pixels of a decoded image.
#[derive(Clone, Copy, Debug, PartialEq, Eq, Structural)]
pub enum PixelLayout {
    R8,
    R8G8,
    R8G8B8,
    R8G8B8A8,
    R16,
    R16G16,
    R16G16B16,
    R16G16B16A16,
    R32G32B32Float,
    R32G32B32A32Float,
}

#[derive(Clone, Copy, Debug, PartialEq, Eq, Structural)]
pub enum WrappingMode {
    ClampToEdge,
    MirroredRepeat,
    Repeat,
}

#[derive(Clone, Copy, Debug, PartialEq, Eq, Structural)]
pub enum MagFilter {
    Nearest,
    Linear,
}

#[derive(Clone, Copy, Debug, PartialEq, Eq, Structural)]
pub enum MinFilter {
    Nearest,
    Linear,
    NearestMipmapNearest,
    LinearMipmapNearest,
    NearestMipmapLinear,
    LinearMipmapLinear,
}

/// A sampler as the document describes it.
#[derive(Clone, Copy, Debug, PartialEq, Eq, Structural)]
pub struct SamplerDescription {
    pub wrap_s: WrappingMode,
    pub wrap_t: WrappingMode,
    pub mag_filter: Option<MagFilter>,
    pub min_filter: Option<MinFilter>,
}

/// What a native sampler is created with.
#[derive(Clone, Copy)]
pub struct SamplerSettings {
    pub address_mode_u: ash::vk::SamplerAddressMode,
    pub address_mode_v: ash::vk::SamplerAddressMode,
    pub mag_filter: ash::vk::Filter,
    pub min_filter: ash::vk::Filter,
    /// Whether the document asked for a minification filter that is not
    /// supported, so that linear filtering stands in for it.
    pub min_filter_replaced: bool,
}

/// Sampler settings with the native values as their enumerants.
pub struct SamplerSettingsView {
    pub address_mode_u: i32,
    pub address_mode_v: i32,
    pub mag_filter: i32,
    pub min_filter: i32,
    pub min_filter_replaced: bool,
}

impl View for SamplerSettings {
    type V = SamplerSettingsView;

    open spec fn view(&self) -> SamplerSettingsView {
        SamplerSettingsView {
            address_mode_u: address_mode_raw(self.address_mode_u),
            address_mode_v: address_mode_raw(self.address_mode_v),
            mag_filter: filter_raw(self.mag_filter),
            min_filter: filter_raw(self.min_filter),
            min_filter_replaced: self.min_filter_replaced,
        }
    }
}

impl WrappingMode {
    pub open spec fn vk_raw(self) -> i32 {
        match self {
            WrappingMode::ClampToEdge => ADDRESS_MODE_CLAMP_TO_EDGE,
            WrappingMode::MirroredRepeat => ADDRESS_MODE_MIRRORED_REPEAT,
            WrappingMode::Repeat => ADDRESS_MODE_REPEAT,
        }
    }

    pub fn address_mode(&self) -> (mode: ash::vk::SamplerAddressMode)
        ensures
            address_mode_raw(mode) == self.vk_raw(),
    {
        match self {
            WrappingMode::ClampToEdge => ash::vk::SamplerAddressMode::from_raw(
                ADDRESS_MODE_CLAMP_TO_EDGE,
            ),
            WrappingMode::MirroredRepeat => ash::vk::SamplerAddressMode::from_raw(
                ADDRESS_MODE_MIRRORED_REPEAT,
            ),
            WrappingMode::Repeat => ash::vk::SamplerAddressMode::from_raw(ADDRESS_MODE_REPEAT),
        }
    }
}

impl SamplerDescription {
    /// The settings of the sampler: magnification and minification are by the
    /// nearest texel where the document says nothing, and linear where it asks
    /// for a filter over mip levels.
    pub open spec fn settings(self) -> SamplerSettingsView {
        SamplerSettingsView {
            address_mode_u: self.wrap_s.vk_raw(),
            address_mode_v: self.wrap_t.vk_raw(),
            mag_filter: match self.mag_filter {
                Some(MagFilter::Linear) => FILTER_LINEAR,
                _ => FILTER_NEAREST,
            },
            min_filter: match self.min_filter {
                None | Some(MinFilter::Nearest) => FILTER_NEAREST,
                _ => FILTER_LINEAR,
            },
            min_filter_replaced: match self.min_filter {
                None | Some(MinFilter::Nearest) | Some(MinFilter::Linear) => false,
                _ => true,
            },
        }
    }
}

/// The settings of the sampler that textures use when the document has none:
/// repeating, with linear filters.
pub open spec fn default_sampler() -> SamplerSettingsView {
    SamplerSettingsView {
        address_mode_u: ADDRESS_MODE_REPEAT,
        address_mode_v: ADDRESS_MODE_REPEAT,
        mag_filter: FILTER_LINEAR,
        min_filter: FILTER_LINEAR,
        min_filter_replaced: false,
    }
}

/// The settings of all samplers of a document.
pub open spec fn sampler_settings(samplers: Seq<SamplerDescription>) -> Seq<SamplerSettingsView> {
    if samplers.len() == 0 {
        seq![default_sampler()]
    } else {
        Seq::new(samplers.len(), |i: int| samplers[i].settings())
    }
}

/// The views of a sequence of sampler settings.
pub open spec fn settings_views(settings: Seq<SamplerSettings>) -> Seq<SamplerSettingsView> {
    Seq::new(settings.len(), |i: int| settings[i]@)
}

/// A texture as the document describes it.
#[derive(Clone, Copy, Debug, PartialEq, Eq, Structural)]
pub struct TextureDescription {
    /// The index of the texture's sampler; without one, the first is used.
    pub sampler: Option<usize>,
    /// The index of the texture's image.
    pub source: usize,
}

/// A material as the document describes it. Factors are IEEE 754
/// single-precision bit patterns.
#[derive(Clone, Copy, Debug)]
pub struct MaterialSource {
    pub index: Option<usize>,
    pub base_color_texture: Option<usize>,
    pub normal_texture: Option<usize>,
    pub occlusion_texture: Option<usize>,
    pub emissive_texture: Option<usize>,
    pub metallic_roughness_texture: Option<usize>,
    pub base_color_factor: [u32; 4],
    pub metallic_factor: u32,
    pub roughness_factor: u32,
    pub emissive_factor: [u32; 3],
}

/// The parameter block of the physically based material, as IEEE 754
/// single-precision bit patterns.
#[derive(Clone, Copy, Debug)]
pub struct PbrProperties {
    pub base_color: [u32; 4],
    pub metallic_roughness: [u32; 4],
    pub emissive_color: [u32; 4],
}

/// The mesh that a node draws: its index, and for each of its primitives the
/// index of its material, if it names one.
pub struct NodeMesh {
    pub index: usize,
    pub primitive_materials: Vec<Option<usize>>,
}

/// A node of a scene, with its transform as computed from the document.
pub struct NodeDescription {
    pub transform: [u32; 16],
    pub mesh: Option<NodeMesh>,
}

pub struct LoadedTextures {
    pub white: ResourceHandle<Texture>,
    pub black: ResourceHandle<Texture>,
    pub all_textures: Vec<ResourceHandle<Texture>>,
}

/// Why a document cannot be turned into a scene.
#[derive(Clone, Copy, Debug, PartialEq, Eq, Structural)]
pub enum LoadError {
    /// An image has a pixel layout that no image format of the device stands for.
    UnsupportedFormat,
    /// The document refers to a sampler, image, texture, material or mesh that
    /// it does not have.
    IndexOutOfRange,
}

pub struct GltfLoadOptions {}

pub struct GltfLoader {
    pub engine_scene: Scene,
}

/// The texture at `index` of `textures`, or `fallback` where no index is given.
pub open spec fn texture_or(
    textures: Seq<ResourceHandle<Texture>>,
    index: Option<usize>,
    fallback: ResourceHandle<Texture>,
) -> Option<ResourceHandle<Texture>> {
    match index {
        None => Some(fallback),
        Some(i) => if i < textures.len() {
            Some(textures[i as int])
        } else {
            None
        },
    }
}

fn pick_texture(
    textures: &Vec<ResourceHandle<Texture>>,
    index: Option<usize>,
    fallback: &ResourceHandle<Texture>,
) -> (r: Option<ResourceHandle<Texture>>)
    ensures
        r == texture_or(textures@, index, *fallback),
{
    match index {
        None => Some(*fallback),
        Some(i) => if i < textures.len() {
            Some(textures[i])
        } else {
            None
        },
    }
}

impl GltfLoader {
    /// The image format for a decoded image; `None` for the layouts that have none.
    pub open spec fn spec_image_format(layout: PixelLayout) -> Option<ImageFormat> {
        match layout {
            PixelLayout::R8G8B8A8 => Some(ImageFormat::Rgba8),
            PixelLayout::R8G8B8 => Some(ImageFormat::Rgb8),
            PixelLayout::R32G32B32A32Float => Some(ImageFormat::RgbaFloat),
            _ => None,
        }
    }

    pub fn image_format(layout: PixelLayout) -> (r: Option<ImageFormat>)
        ensures
            r == Self::spec_image_format(layout),
    {
        match layout {
            PixelLayout::R8G8B8A8 => Some(ImageFormat::Rgba8),
            PixelLayout::R8G8B8 => Some(ImageFormat::Rgb8),
            PixelLayout::R32G32B32A32Float => Some(ImageFormat::RgbaFloat),
            _ => None,
        }
    }

    /// The image format of each image of a document, or the error of the first
    /// image that has none.
    pub fn load_images(layouts: &[PixelLayout]) -> (r: Result<Vec<ImageFormat>, LoadError>)
        ensures
            match r {
                Ok(formats) => formats@.len() == layouts@.len() && forall|i: int|
                    0 <= i < layouts@.len() ==> Self::spec_image_format(#[trigger] layouts@[i])
                        == Some(formats@[i]),
                Err(error) => error == LoadError::UnsupportedFormat && exists|i: int|
                    0 <= i < layouts@.len() && Self::spec_image_format(#[trigger] layouts@[i])
                        is None,
            },
    {
        let mut formats: Vec<ImageFormat> = Vec::new();
        let mut i: usize = 0;
        while i < layouts.len()
            invariant
                i <= layouts@.len(),
                formats@.len() == i,
                forall|k: int|
                    0 <= k < i ==> Self::spec_image_format(#[trigger] layouts@[k]) == Some(
                        formats@[k],
                    ),
            decreases layouts@.len() - i,
        {
            match Self::image_format(layouts[i]) {
                Some(format) => {
                    formats.push(format);
                },
                None => {
                    return Err(LoadError::UnsupportedFormat);
                },
            }
            i += 1;
        }
        Ok(formats)
    }

    fn sampler(description: &SamplerDescription) -> (r: SamplerSettings)
        ensures
            r@ == description.settings(),
    {
        let mag_filter = match description.mag_filter {
            Some(MagFilter::Linear) => ash::vk::Filter::from_raw(FILTER_LINEAR),
            _ => ash::vk::Filter::from_raw(FILTER_NEAREST),
        };
        let (min_filter, min_filter_replaced) = match description.min_filter {
            None | Some(MinFilter::Nearest) => (ash::vk::Filter::from_raw(FILTER_NEAREST), false),
            Some(MinFilter::Linear) => (ash::vk::Filter::from_raw(FILTER_LINEAR), false),
            _ => (ash::vk::Filter::from_raw(FILTER_LINEAR), true),
        };
        SamplerSettings {
            address_mode_u: description.wrap_s.address_mode(),
            address_mode_v: description.wrap_t.address_mode(),
            mag_filter,
            min_filter,
            min_filter_replaced,
        }
    }

    /// The settings of the native samplers of a document, one for each of its
    /// samplers; for a document without samplers, the one default sampler.
    pub fn load_samplers(samplers: &[SamplerDescription]) -> (r: Vec<SamplerSettings>)
        ensures
            settings_views(r@) == sampler_settings(samplers@),
    {
        let mut allocated_samplers: Vec<SamplerSettings> = Vec::new();
        let mut i: usize = 0;
        while i < samplers.len()
            invariant
                i <= samplers@.len(),
                allocated_samplers@.len() == i,
                forall|k: int|
                    0 <= k < i ==> (#[trigger] allocated_samplers@[k])@ == samplers@[k].settings(),
            decreases samplers@.len() - i,
        {
            allocated_samplers.push(Self::sampler(&samplers[i]));
            i += 1;
        }
        if allocated_samplers.len() == 0 {
            allocated_samplers.push(
                SamplerSettings {
                    address_mode_u: ash::vk::SamplerAddressMode::from_raw(ADDRESS_MODE_REPEAT),
                    address_mode_v: ash::vk::SamplerAddressMode::from_raw(ADDRESS_MODE_REPEAT),
                    mag_filter: ash::vk::Filter::from_raw(FILTER_LINEAR),
                    min_filter: ash::vk::Filter::from_raw(FILTER_LINEAR),
                    min_filter_replaced: false,
                },
            );
        }
        assert(settings_views(allocated_samplers@) =~= sampler_settings(samplers@));
        allocated_samplers
    }

    /// The texture that a description stands for; `None` where it refers to a
    /// sampler or an image that is not there.
    pub open spec fn spec_texture(
        description: TextureDescription,
        image_views: Seq<ResourceHandle<TextureImageView>>,
        samplers: Seq<ResourceHandle<SamplerResource>>,
    ) -> Option<Texture> {
        let sampler = match description.sampler {
            Some(index) => index,
            None => 0,
        };
        if sampler < samplers.len() && description.source < image_views.len() {
            Some(
                Texture {
                    sampler: samplers[sampler as int],
                    image_view: image_views[description.source as int],
                },
            )
        } else {
            None
        }
    }

    /// The textures of a document, each with the sampler and the image view
    /// that it names.
    pub fn load_textures(
        textures: &[TextureDescription],
        allocated_image_views: &[ResourceHandle<TextureImageView>],
        allocated_samplers: &[ResourceHandle<SamplerResource>],
    ) -> (r: Result<Vec<Texture>, LoadError>)
        ensures
            match r {
                Ok(all) => all@.len() == textures@.len() && forall|i: int|
                    0 <= i < textures@.len() ==> Self::spec_texture(
                        #[trigger] textures@[i],
                        allocated_image_views@,
                        allocated_samplers@,
                    ) == Some(all@[i]),
                Err(error) => error == LoadError::IndexOutOfRange && exists|i: int|
                    0 <= i < textures@.len() && Self::spec_texture(
                        #[trigger] textures@[i],
                        allocated_image_views@,
                        allocated_samplers@,
                    ) is None,
            },
    {
        let mut all_textures: Vec<Texture> = Vec::new();
        let mut i: usize = 0;
        while i < textures.len()
            invariant
                i <= textures@.len(),
                all_textures@.len() == i,
                forall|k: int|
                    0 <= k < i ==> Self::spec_texture(
                        #[trigger] textures@[k],
                        allocated_image_views@,
                        allocated_samplers@,
                    ) == Some(all_textures@[k]),
            decreases textures@.len() - i,
        {
            let sampler = match textures[i].sampler {
                Some(index) => index,
                None => 0,
            };
            let source = textures[i].source;
            if sampler >= allocated_samplers.len() || source >= allocated_image_views.len() {
                return Err(LoadError::IndexOutOfRange);
            }
            all_textures.push(
                Texture {
                    sampler: allocated_samplers[sampler],
                    image_view: allocated_image_views[source],
                },
            );
            i += 1;
        }
        Ok(all_textures)
    }

    /// The parameter block of a material: its base colour, then metallic and
    /// roughness followed by zero and one, then its emissive colour followed
    /// by one.
    pub fn pbr_properties(material: &MaterialSource) -> (r: PbrProperties)
        ensures
            r.base_color == material.base_color_factor,
            r.metallic_roughness@ == seq![
                material.metallic_factor,
                material.roughness_factor,
                0u32,
                ONE,
            ],
            r.emissive_color@ == seq![
                material.emissive_factor[0],
                material.emissive_factor[1],
                material.emissive_factor[2],
                ONE,
            ],
    {
        let r = PbrProperties {
            base_color: material.base_color_factor,
            metallic_roughness: [material.metallic_factor, material.roughness_factor, 0, ONE],
            emissive_color: [
                material.emissive_factor[0],
                material.emissive_factor[1],
                material.emissive_factor[2],
                ONE,
            ],
        };
        assert(r.metallic_roughness@ =~= seq![
            material.metallic_factor,
            material.roughness_factor,
            0u32,
            ONE,
        ]);
        assert(r.emissive_color@ =~= seq![
            material.emissive_factor[0],
            material.emissive_factor[1],
            material.emissive_factor[2],
            ONE,
        ]);
        r
    }

    pub fn scene(&self) -> (scene: &Scene)
        ensures
            *scene == self.engine_scene,
    {
        &self.engine_scene
    }

    pub fn scene_mut(&mut self) -> (scene: &mut Scene)
        ensures
            *scene == old(self).engine_scene,
            final(self).engine_scene == *final(scene),
    {
        &mut self.engine_scene
    }
}

/// What a material instance is made from: the texture for each input of the
/// master material, and the parameter block.
pub struct MaterialPlan {
    /// The index of the material in the document; zero where it has none.
    pub index: usize,
    pub inputs: Vec<NamedTexture>,
    pub properties: PbrProperties,
}

/// How many bytes one parameter of the physically based material takes: four
/// single-precision numbers.
pub const PARAMETER_SIZE: usize = 16;

/// Whether `inputs` give the five textures of `material`, under the names of
/// the master material's inputs: each texture that the material names, white
/// for a missing base colour, normal, occlusion or metallic-roughness
/// texture, black for a missing emissive texture.
pub open spec fn gives_textures(
    inputs: Seq<NamedTexture>,
    material: MaterialSource,
    textures: LoadedTextures,
) -> bool {
    &&& inputs.len() == 5
    &&& inputs[0].name@ == "base_texture"@
    &&& Some(inputs[0].texture) == texture_or(
        textures.all_textures@,
        material.base_color_texture,
        textures.white,
    )
    &&& inputs[1].name@ == "normal_texture"@
    &&& Some(inputs[1].texture) == texture_or(
        textures.all_textures@,
        material.normal_texture,
        textures.white,
    )
    &&& inputs[2].name@ == "occlusion_texture"@
    &&& Some(inputs[2].texture) == texture_or(
        textures.all_textures@,
        material.occlusion_texture,
        textures.white,
    )
    &&& inputs[3].name@ == "emissive_texture"@
    &&& Some(inputs[3].texture) == texture_or(
        textures.all_textures@,
        material.emissive_texture,
        textures.black,
    )
    &&& inputs[4].name@ == "metallic_roughness"@
    &&& Some(inputs[4].texture) == texture_or(
        textures.all_textures@,
        material.metallic_roughness_texture,
        textures.white,
    )
}

/// Whether every texture that `material` names is one of `textures`.
pub open spec fn names_known_textures(material: MaterialSource, textures: LoadedTextures) -> bool {
    &&& texture_or(textures.all_textures@, material.base_color_texture, textures.white) is Some
    &&& texture_or(textures.all_textures@, material.normal_texture, textures.white) is Some
    &&& texture_or(textures.all_textures@, material.occlusion_texture, textures.white) is Some
    &&& texture_or(textures.all_textures@, material.emissive_texture, textures.black) is Some
    &&& texture_or(textures.all_textures@, material.metallic_roughness_texture, textures.white)
        is Some
}

/// The index of the material that a primitive uses: the first where it names none.
pub open spec fn material_index(named: Option<usize>) -> usize {
    match named {
        Some(index) => index,
        None => 0,
    }
}

/// Whether every primitive uses a material that is there.
pub open spec fn materials_known(
    primitive_materials: Seq<Option<usize>>,
    allocated_materials: Seq<ResourceHandle<MaterialInstance>>,
) -> bool {
    forall|i: int|
        0 <= i < primitive_materials.len() ==> material_index(#[trigger] primitive_materials[i])
            < allocated_materials.len()
}

/// Whether `node` draws nothing, or a mesh and materials that are there.
pub open spec fn node_known(
    node: NodeDescription,
    allocated_materials: Seq<ResourceHandle<MaterialInstance>>,
    meshes: Seq<ResourceHandle<Mesh>>,
) -> bool {
    match node.mesh {
        None => true,
        Some(mesh) => mesh.index < meshes.len() && materials_known(
            mesh.primitive_materials@,
            allocated_materials,
        ),
    }
}

/// Whether `primitive` is what `node` draws.
pub open spec fn draws(
    primitive: ScenePrimitive,
    node: NodeDescription,
    allocated_materials: Seq<ResourceHandle<MaterialInstance>>,
    meshes: Seq<ResourceHandle<Mesh>>,
) -> bool {
    &&& node.mesh is Some
    &&& primitive.transform == node.transform
    &&& primitive.mesh == meshes[node.mesh->Some_0.index as int]
    &&& primitive.materials@.len() == node.mesh->Some_0.primitive_materials@.len()
    &&& forall|i: int|
        0 <= i < primitive.materials@.len() ==> (#[trigger] primitive.materials@[i])
            == allocated_materials[material_index(
            node.mesh->Some_0.primitive_materials@[i],
        ) as int]
}

/// How many of the nodes draw a mesh.
pub open spec fn drawn_count(nodes: Seq<NodeDescription>) -> nat
    decreases nodes.len(),
{
    if nodes.len() == 0 {
        0
    } else {
        drawn_count(nodes.drop_last()) + if nodes.last().mesh is Some {
            1nat
        } else {
            0nat
        }
    }
}

/// Whether `primitives` are what `nodes` draw, in the order of the nodes.
pub open spec fn scene_of(
    primitives: Seq<ScenePrimitive>,
    nodes: Seq<NodeDescription>,
    allocated_materials: Seq<ResourceHandle<MaterialInstance>>,
    meshes: Seq<ResourceHandle<Mesh>>,
) -> bool
    decreases nodes.len(),
{
    if nodes.len() == 0 {
        primitives.len() == 0
    } else if nodes.last().mesh is Some {
        &&& primitives.len() > 0
        &&& draws(primitives.last(), nodes.last(), allocated_materials, meshes)
        &&& scene_of(primitives.drop_last(), nodes.drop_last(), allocated_materials, meshes)
    } else {
        scene_of(primitives, nodes.drop_last(), allocated_materials, meshes)
    }
}

impl GltfLoader {
    /// The textures that an instance of the physically based material binds
    /// for `material`.
    pub fn material_inputs(material: &MaterialSource, textures: &LoadedTextures) -> (r: Result<
        Vec<NamedTexture>,
        LoadError,
    >)
        ensures
            match r {
                Ok(inputs) => names_known_textures(*material, *textures) && gives_textures(
                    inputs@,
                    *material,
                    *textures,
                ),
                Err(error) => error == LoadError::IndexOutOfRange && !names_known_textures(
                    *material,
                    *textures,
                ),
            },
    {
        let base_texture = match pick_texture(
            &textures.all_textures,
            material.base_color_texture,
            &textures.white,
        ) {
            Some(texture) => texture,
            None => {
                return Err(LoadError::IndexOutOfRange);
            },
        };
        let normal_texture = match pick_texture(
            &textures.all_textures,
            material.normal_texture,
            &textures.white,
        ) {
            Some(texture) => texture,
            None => {
                return Err(LoadError::IndexOutOfRange);
            },
        };
        let occlusion_texture = match pick_texture(
            &textures.all_textures,
            material.occlusion_texture,
            &textures.white,
        ) {
            Some(texture) => texture,
            None => {
                return Err(LoadError::IndexOutOfRange);
            },
        };
        let emissive_texture = match pick_texture(
            &textures.all_textures,
            material.emissive_texture,
            &textures.black,
        ) {
            Some(texture) => texture,
            None => {
                return Err(LoadError::IndexOutOfRange);
            },
        };
        let metallic_roughness = match pick_texture(
            &textures.all_textures,
            material.metallic_roughness_texture,
            &textures.white,
        ) {
            Some(texture) => texture,
            None => {
                return Err(LoadError::IndexOutOfRange);
            },
        };
        let mut texture_inputs: Vec<NamedTexture> = Vec::new();
        texture_inputs.push(
            NamedTexture { name: "base_texture".to_owned(), texture: base_texture },
        );
        texture_inputs.push(
            NamedTexture { name: "normal_texture".to_owned(), texture: normal_texture },
        );
        texture_inputs.push(
            NamedTexture { name: "occlusion_texture".to_owned(), texture: occlusion_texture },
        );
        texture_inputs.push(
            NamedTexture { name: "emissive_texture".to_owned(), texture: emissive_texture },
        );
        texture_inputs.push(
            NamedTexture { name: "metallic_roughness".to_owned(), texture: metallic_roughness },
        );
        Ok(texture_inputs)
    }

    /// For each material of a document, what its instance is made from.
    pub fn load_materials(materials: &[MaterialSource], textures: &LoadedTextures) -> (r: Result<
        Vec<MaterialPlan>,
        LoadError,
    >)
        ensures
            match r {
                Ok(plans) => plans@.len() == materials@.len() && forall|i: int|
                    0 <= i < materials@.len() ==> {
                        &&& gives_textures(
                            (#[trigger] plans@[i]).inputs@,
                            materials@[i],
                            *textures,
                        )
                        &&& plans@[i].index == material_index(materials@[i].index)
                        &&& plans@[i].properties.base_color == materials@[i].base_color_factor
                    },
                Err(error) => error == LoadError::IndexOutOfRange && exists|i: int|
                    0 <= i < materials@.len() && !names_known_textures(
                        #[trigger] materials@[i],
                        *textures,
                    ),
            },
    {
        let mut allocated_materials: Vec<MaterialPlan> = Vec::new();
        let mut i: usize = 0;
        while i < materials.len()
            invariant
                i <= materials@.len(),
                allocated_materials@.len() == i,
                forall|k: int|
                    0 <= k < i ==> {
                        &&& gives_textures(
                            (#[trigger] allocated_materials@[k]).inputs@,
                            materials@[k],
                            *textures,
                        )
                        &&& allocated_materials@[k].index == material_index(materials@[k].index)
                        &&& allocated_materials@[k].properties.base_color
                            == materials@[k].base_color_factor
                    },
            decreases materials@.len() - i,
        {
            let inputs = match Self::material_inputs(&materials[i], textures) {
                Ok(inputs) => inputs,
                Err(error) => {
                    return Err(error);
                },
            };
            let index = match materials[i].index {
                Some(index) => index,
                None => 0,
            };
            allocated_materials.push(
                MaterialPlan { index, inputs, properties: Self::pbr_properties(&materials[i]) },
            );
            i += 1;
        }
        Ok(allocated_materials)
    }

    /// The master material that every material of a document is an instance of:
    /// five texture inputs, and three parameters of four numbers each.
    pub fn create_master_pbr_material() -> (master: MasterMaterial)
        ensures
            master.name@ == "PbrMaterial"@,
            master.domain == MaterialDomain::Surface,
            master.texture_inputs@.len() == 5,
            master.texture_inputs@[0].name@ == "base_texture"@,
            master.texture_inputs@[1].name@ == "normal_texture"@,
            master.texture_inputs@[2].name@ == "occlusion_texture"@,
            master.texture_inputs@[3].name@ == "emissive_texture"@,
            master.texture_inputs@[4].name@ == "metallic_roughness"@,
            forall|i: int|
                0 <= i < 5 ==> (#[trigger] master.texture_inputs@[i]).format == ImageFormat::Rgba8,
            master.material_parameters@.len() == 3,
            master.material_parameters@[0].name@ == "base_color"@,
            master.material_parameters@[1].name@ == "metallic_roughness"@,
            master.material_parameters@[2].name@ == "emissive_color"@,
            forall|i: int|
                0 <= i < 3 ==> (#[trigger] master.material_parameters@[i]).range == (
                MaterialParameterOffsetSize {
                    offset: (i * PARAMETER_SIZE) as usize,
                    size: PARAMETER_SIZE,
                }),
            master.parameter_block_size == 3 * PARAMETER_SIZE,
    {
        let mut texture_inputs: Vec<TextureInput> = Vec::new();
        texture_inputs.push(
            TextureInput { name: "base_texture".to_owned(), format: ImageFormat::Rgba8 },
        );
        texture_inputs.push(
            TextureInput { name: "normal_texture".to_owned(), format: ImageFormat::Rgba8 },
        );
        texture_inputs.push(
            TextureInput { name: "occlusion_texture".to_owned(), format: ImageFormat::Rgba8 },
        );
        texture_inputs.push(
            TextureInput { name: "emissive_texture".to_owned(), format: ImageFormat::Rgba8 },
        );
        texture_inputs.push(
            TextureInput { name: "metallic_roughness".to_owned(), format: ImageFormat::Rgba8 },
        );
        let mut params: Vec<MaterialParameter> = Vec::new();
        params.push(
            MaterialParameter {
                name: "base_color".to_owned(),
                range: MaterialParameterOffsetSize { offset: 0, size: PARAMETER_SIZE },
            },
        );
        params.push(
            MaterialParameter {
                name: "metallic_roughness".to_owned(),
                range: MaterialParameterOffsetSize { offset: PARAMETER_SIZE, size: PARAMETER_SIZE },
            },
        );
        params.push(
            MaterialParameter {
                name: "emissive_color".to_owned(),
                range: MaterialParameterOffsetSize {
                    offset: PARAMETER_SIZE * 2,
                    size: PARAMETER_SIZE,
                },
            },
        );
        MasterMaterial {
            name: "PbrMaterial".to_owned(),
            domain: MaterialDomain::Surface,
            texture_inputs,
            material_parameters: params,
            parameter_block_size: 3 * PARAMETER_SIZE,
        }
    }

    fn node_materials(
        primitive_materials: &Vec<Option<usize>>,
        allocated_materials: &[ResourceHandle<MaterialInstance>],
    ) -> (r: Option<Vec<ResourceHandle<MaterialInstance>>>)
        ensures
            r is Some == materials_known(primitive_materials@, allocated_materials@),
            r is Some ==> r->Some_0@.len() == primitive_materials@.len() && forall|i: int|
                0 <= i < primitive_materials@.len() ==> (#[trigger] r->Some_0@[i])
                    == allocated_materials@[material_index(primitive_materials@[i]) as int],
    {
        let mut materials: Vec<ResourceHandle<MaterialInstance>> = Vec::new();
        let mut i: usize = 0;
        while i < primitive_materials.len()
            invariant
                i <= primitive_materials@.len(),
                materials@.len() == i,
                forall|k: int|
                    0 <= k < i ==> material_index(#[trigger] primitive_materials@[k])
                        < allocated_materials@.len(),
                forall|k: int|
                    0 <= k < i ==> (#[trigger] materials@[k]) == allocated_materials@[material_index(
                        primitive_materials@[k],
                    ) as int],
            decreases primitive_materials@.len() - i,
        {
            let material_index = match primitive_materials[i] {
                Some(index) => index,
                None => 0,
            };
            if material_index >= allocated_materials.len() {
                return None;
            }
            materials.push(allocated_materials[material_index]);
            i += 1;
        }
        Some(materials)
    }

    /// The scene of a document: one primitive for each node that draws a mesh,
    /// in the order of the nodes, with the material of each of the mesh's
    /// primitives.
    pub fn build_engine_scene(
        nodes: &[NodeDescription],
        allocated_materials: &[ResourceHandle<MaterialInstance>],
        meshes: &[ResourceHandle<Mesh>],
    ) -> (r: Result<Scene, LoadError>)
        ensures
            match r {
                Ok(scene) => scene_of(scene.primitives@, nodes@, allocated_materials@, meshes@)
                    && forall|i: int|
                    0 <= i < nodes@.len() ==> node_known(
                        #[trigger] nodes@[i],
                        allocated_materials@,
                        meshes@,
                    ),
                Err(error) => error == LoadError::IndexOutOfRange && exists|i: int|
                    0 <= i < nodes@.len() && !node_known(
                        #[trigger] nodes@[i],
                        allocated_materials@,
                        meshes@,
                    ),
            },
    {
        let mut engine_scene = Scene::new();
        let mut i: usize = 0;
        while i < nodes.len()
            invariant
                i <= nodes@.len(),
                scene_of(
                    engine_scene.primitives@,
                    nodes@.take(i as int),
                    allocated_materials@,
                    meshes@,
                ),
                forall|k: int|
                    0 <= k < i ==> node_known(#[trigger] nodes@[k], allocated_materials@, meshes@),
            decreases nodes@.len() - i,
        {
            proof {
                assert(nodes@.take(i + 1).drop_last() =~= nodes@.take(i as int));
                assert(nodes@.take(i + 1).last() == nodes@[i as int]);
            }
            match &nodes[i].mesh {
                Some(mesh) => {
                    if mesh.index >= meshes.len() {
                        return Err(LoadError::IndexOutOfRange);
                    }
                    let materials = match Self::node_materials(
                        &mesh.primitive_materials,
                        allocated_materials,
                    ) {
                        Some(materials) => materials,
                        None => {
                            return Err(LoadError::IndexOutOfRange);
                        },
                    };
                    let ghost before = engine_scene.primitives@;
                    engine_scene.add(
                        ScenePrimitive {
                            mesh: meshes[mesh.index],
                            materials,
                            transform: nodes[i].transform,
                        },
                    );
                    proof {
                        assert(engine_scene.primitives@.drop_last() =~= before);
                    }
                },
                None => {},
            }
            i += 1;
        }
        proof {
            assert(nodes@.take(i as int) =~= nodes@);
        }
        Ok(engine_scene)
    }

    /// A loader that holds the scene of a document.
    pub fn load(
        nodes: &[NodeDescription],
        allocated_materials: &[ResourceHandle<MaterialInstance>],
        meshes: &[ResourceHandle<Mesh>],
        _options: GltfLoadOptions,
    ) -> (r: Result<GltfLoader, LoadError>)
        ensures
            match r {
                Ok(loader) => scene_of(
                    loader.engine_scene.primitives@,
                    nodes@,
                    allocated_materials@,
                    meshes@,
                ),
                Err(error) => error == LoadError::IndexOutOfRange && exists|i: int|
                    0 <= i < nodes@.len() && !node_known(
                        #[trigger] nodes@[i],
                        allocated_materials@,
                        meshes@,
                    ),
            },
    {
        match Self::build_engine_scene(nodes, allocated_materials, meshes) {
            Ok(engine_scene) => Ok(GltfLoader { engine_scene }),
            Err(error) => Err(error),
        }
    }
}

} // verus!
