//! Instances of a master material: the textures given for its inputs, its
//! parameter buffer, and the descriptor set that binds both.

use vstd::prelude::*;
use crate::descriptor_set::{contiguous_bindings, DescriptorInfo};
use crate::image_format::ImageFormat;
use crate::material::{
    binds_buffer, buffer_descriptor, MaterialDomain, MaterialError, Texture, TextureMaps,
};
use crate::resource::ResourceHandle;
use crate::types::{GpuBuffer, GpuDescriptorSet};

verus! {

/// A texture that the shaders of a master material read, by name.
pub struct TextureInput {
    pub name: String,
    pub format: ImageFormat,
}

#[derive(Clone, Copy, Debug, PartialEq, Eq, Structural)]
pub struct MaterialParameterOffsetSize {
    pub offset: usize,
    pub size: usize,
}

/// A named parameter and its place in the parameter block.
pub struct MaterialParameter {
    pub name: String,
    pub range: MaterialParameterOffsetSize,
}

pub struct MasterMaterial {
    pub name: String,
    pub domain: MaterialDomain,
    pub texture_inputs: Vec<TextureInput>,
    pub material_parameters: Vec<MaterialParameter>,
    pub parameter_block_size: usize,
}

/// The texture given for one input of the master material.
pub struct NamedTexture {
    pub name: String,
    pub texture: ResourceHandle<Texture>,
}

pub struct MaterialInstanceDescription<'a> {
    pub name: &'a str,
    pub texture_inputs: Vec<NamedTexture>,
}

pub struct MaterialInstance {
    pub name: String,
    pub owner: ResourceHandle<MasterMaterial>,
    pub parameter_buffer: Option<GpuBuffer>,
    pub user_descriptor_set: GpuDescriptorSet,
    pub current_inputs: Vec<NamedTexture>,
    pub parameter_block_size: usize,
}

/// The texture that `inputs` give for `name`, the first where several do.
pub open spec fn lookup_texture(inputs: Seq<NamedTexture>, name: Seq<char>, from: int) -> Option<
    ResourceHandle<Texture>,
>
    decreases inputs.len() - from,
{
    if from < 0 || from >= inputs.len() {
        None
    } else if inputs[from].name@ == name {
        Some(inputs[from].texture)
    } else {
        lookup_texture(inputs, name, from + 1)
    }
}

/// Why the input `name` cannot be bound, if it cannot.
pub open spec fn input_error(maps: &TextureMaps, inputs: Seq<NamedTexture>, name: Seq<char>)
    -> Option<MaterialError> {
    match lookup_texture(inputs, name, 0) {
        None => Some(MaterialError::MissingTextureInput),
        Some(texture) => match maps.texture_error(texture) {
            Some(error) => Some(MaterialError::Unresolved(error)),
            None => None,
        },
    }
}

/// The first reason for which one of the master's inputs, from `from` on,
/// cannot be bound.
pub open spec fn first_input_error(
    maps: &TextureMaps,
    master_inputs: Seq<TextureInput>,
    inputs: Seq<NamedTexture>,
    from: int,
) -> Option<MaterialError>
    decreases master_inputs.len() - from,
{
    if from < 0 || from >= master_inputs.len() {
        None
    } else if input_error(maps, inputs, master_inputs[from].name@) is Some {
        input_error(maps, inputs, master_inputs[from].name@)
    } else {
        first_input_error(maps, master_inputs, inputs, from + 1)
    }
}

/// Whether `descriptors` bind the textures given for the master's inputs, in the
/// order of the inputs, and after them the parameter buffer, if there is one.
pub open spec fn binds_inputs(
    maps: &TextureMaps,
    descriptors: Seq<DescriptorInfo>,
    master_inputs: Seq<TextureInput>,
    inputs: Seq<NamedTexture>,
    param_buffer: Option<GpuBuffer>,
) -> bool {
    &&& descriptors.len() == master_inputs.len() + if param_buffer is Some {
        1int
    } else {
        0int
    }
    &&& forall|i: int|
        0 <= i < master_inputs.len() ==> lookup_texture(
            inputs,
            (#[trigger] master_inputs[i]).name@,
            0,
        ) is Some && maps.binds_texture(
            descriptors[i],
            lookup_texture(inputs, master_inputs[i].name@, 0)->Some_0,
            i,
        )
    &&& param_buffer is Some ==> binds_buffer(
        descriptors[master_inputs.len() as int],
        param_buffer->Some_0,
        master_inputs.len() as int,
    )
}

/// Finds the texture that `inputs` give for `name`.
pub fn find_texture(inputs: &Vec<NamedTexture>, name: &String) -> (r: Option<
    ResourceHandle<Texture>,
>)
    ensures
        r == lookup_texture(inputs@, name@, 0),
{
    let mut i: usize = 0;
    while i < inputs.len()
        invariant
            i <= inputs@.len(),
            lookup_texture(inputs@, name@, 0) == lookup_texture(inputs@, name@, i as int),
        decreases inputs@.len() - i,
    {
        if inputs[i].name == *name {
            return Some(inputs[i].texture);
        }
        i += 1;
    }
    None
}

impl MaterialInstance {
    /// The size of the parameter buffer that an instance of `master` needs, if
    /// it needs one.
    pub fn parameter_buffer_size(master: &MasterMaterial) -> (r: Option<usize>)
        ensures
            r == if master.material_parameters@.len() > 0 {
                Some(master.parameter_block_size)
            } else {
                None
            },
    {
        if master.material_parameters.len() > 0 {
            Some(master.parameter_block_size)
        } else {
            None
        }
    }

    /// The layout of the descriptor set of an instance: the texture given for
    /// each input of the master, in the order of the inputs, then the
    /// parameter buffer.
    pub fn create_user_descriptor_set<'a>(
        maps: &'a TextureMaps,
        master: &MasterMaterial,
        description: &MaterialInstanceDescription<'_>,
        param_buffer: &'a Option<GpuBuffer>,
    ) -> (r: Result<Vec<DescriptorInfo<'a>>, MaterialError>)
        requires
            maps.wf(),
        ensures
            master.texture_inputs@.len() >= u32::MAX ==> r is Err && r->Err_0
                == MaterialError::TooManyResources,
            master.texture_inputs@.len() < u32::MAX ==> match first_input_error(
                maps,
                master.texture_inputs@,
                description.texture_inputs@,
                0,
            ) {
                Some(error) => r is Err && r->Err_0 == error,
                None => r is Ok && binds_inputs(
                    maps,
                    r->Ok_0@,
                    master.texture_inputs@,
                    description.texture_inputs@,
                    *param_buffer,
                ) && contiguous_bindings(r->Ok_0@),
            },
    {
        if master.texture_inputs.len() >= u32::MAX as usize {
            return Err(MaterialError::TooManyResources);
        }
        let mut descriptors: Vec<DescriptorInfo<'a>> = Vec::new();
        let mut i: usize = 0;
        while i < master.texture_inputs.len()
            invariant
                i <= master.texture_inputs@.len(),
                master.texture_inputs@.len() < u32::MAX,
                maps.wf(),
                descriptors@.len() == i,
                contiguous_bindings(descriptors@),
                first_input_error(maps, master.texture_inputs@, description.texture_inputs@, 0)
                    == first_input_error(
                    maps,
                    master.texture_inputs@,
                    description.texture_inputs@,
                    i as int,
                ),
                forall|k: int|
                    0 <= k < i ==> lookup_texture(
                        description.texture_inputs@,
                        (#[trigger] master.texture_inputs@[k]).name@,
                        0,
                    ) is Some && maps.binds_texture(
                        descriptors@[k],
                        lookup_texture(
                            description.texture_inputs@,
                            master.texture_inputs@[k].name@,
                            0,
                        )->Some_0,
                        k,
                    ),
            decreases master.texture_inputs@.len() - i,
        {
            let texture = match find_texture(
                &description.texture_inputs,
                &master.texture_inputs[i].name,
            ) {
                Some(texture) => texture,
                None => {
                    return Err(MaterialError::MissingTextureInput);
                },
            };
            match maps.texture_descriptor(&texture, i as u32) {
                Ok(descriptor) => {
                    descriptors.push(descriptor);
                },
                Err(error) => {
                    return Err(MaterialError::Unresolved(error));
                },
            }
            i += 1;
        }
        match param_buffer {
            Some(buffer) => {
                descriptors.push(buffer_descriptor(buffer, i as u32));
            },
            None => {},
        }
        Ok(descriptors)
    }

    /// An instance of the master material behind `owner`, with the parameter
    /// buffer and the descriptor set that were made for it.
    pub fn create_instance(
        owner: ResourceHandle<MasterMaterial>,
        master: &MasterMaterial,
        description: MaterialInstanceDescription<'_>,
        parameter_buffer: Option<GpuBuffer>,
        user_descriptor_set: GpuDescriptorSet,
    ) -> (r: MaterialInstance)
        ensures
            r.name@ == description.name@,
            r.owner == owner,
            r.parameter_buffer == parameter_buffer,
            r.user_descriptor_set == user_descriptor_set,
            r.current_inputs == description.texture_inputs,
            r.parameter_block_size == master.parameter_block_size,
    {
        MaterialInstance {
            name: description.name.to_owned(),
            owner,
            parameter_buffer,
            user_descriptor_set,
            current_inputs: description.texture_inputs,
            parameter_block_size: master.parameter_block_size,
        }
    }

    /// What `write_parameters` answers for a block of `block_size` bytes.
    pub open spec fn parameter_target(&self, block_size: usize) -> Result<
        GpuBuffer,
        MaterialError,
    > {
        if block_size <= self.parameter_block_size && self.parameter_buffer is Some {
            Ok(self.parameter_buffer->Some_0)
        } else {
            Err(MaterialError::ParameterBlockMismatch)
        }
    }

    /// Checks that a parameter block of `block_size` bytes fits the instance,
    /// and returns the buffer that the block is to be written to.
    pub fn write_parameters(&self, block_size: usize) -> (r: Result<&GpuBuffer, MaterialError>)
        ensures
            match self.parameter_target(block_size) {
                Ok(buffer) => r is Ok && *r->Ok_0 == buffer,
                Err(error) => r is Err && r->Err_0 == error,
            },
    {
        if block_size > self.parameter_block_size {
            return Err(MaterialError::ParameterBlockMismatch);
        }
        match &self.parameter_buffer {
            Some(buffer) => Ok(buffer),
            None => Err(MaterialError::ParameterBlockMismatch),
        }
    }

    pub fn get_description(&self) -> (r: &'static str)
        ensures
            r@ == "Material Instance"@,
    {
        "Material Instance"
    }
}

} // verus!
