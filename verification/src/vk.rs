//! The native API's value types, as far as this layer produces or carries them.
//!
//! Each native type is opaque here. Where the layer builds a native value, the raw
//! number inside it has a name, and the native constructor is stated to store that
//! number. Nothing below is proved: these are the facts taken from the bindings.

use vstd::prelude::*;

verus! {

/// `ash::vk::Format`, whose inside this layer does not look at.
#[verifier::external_type_specification]
#[verifier::external_body]
pub struct ExFormat(ash::vk::Format);

/// `ash::vk::ImageLayout`, whose inside this layer does not look at.
#[verifier::external_type_specification]
#[verifier::external_body]
pub struct ExImageLayout(ash::vk::ImageLayout);

/// `ash::vk::AttachmentLoadOp`, whose inside this layer does not look at.
#[verifier::external_type_specification]
#[verifier::external_body]
pub struct ExAttachmentLoadOp(ash::vk::AttachmentLoadOp);

/// `ash::vk::ImageUsageFlags`, whose inside this layer does not look at.
#[verifier::external_type_specification]
#[verifier::external_body]
pub struct ExImageUsageFlags(ash::vk::ImageUsageFlags);

/// `ash::vk::ImageAspectFlags`, whose inside this layer does not look at.
#[verifier::external_type_specification]
#[verifier::external_body]
pub struct ExImageAspectFlags(ash::vk::ImageAspectFlags);

/// `ash::vk::AccessFlags`, whose inside this layer does not look at.
#[verifier::external_type_specification]
#[verifier::external_body]
pub struct ExAccessFlags(ash::vk::AccessFlags);

/// `ash::vk::PipelineStageFlags`, whose inside this layer does not look at.
#[verifier::external_type_specification]
#[verifier::external_body]
pub struct ExPipelineStageFlags(ash::vk::PipelineStageFlags);

/// `ash::vk::DependencyFlags`, whose inside this layer does not look at.
#[verifier::external_type_specification]
#[verifier::external_body]
pub struct ExDependencyFlags(ash::vk::DependencyFlags);

/// `ash::vk::ImageSubresourceRange`, whose inside this layer does not look at.
#[verifier::external_type_specification]
#[verifier::external_body]
pub struct ExImageSubresourceRange(ash::vk::ImageSubresourceRange);

/// `ash::vk::IndexType`, whose inside this layer does not look at.
#[verifier::external_type_specification]
#[verifier::external_body]
pub struct ExIndexType(ash::vk::IndexType);

/// `ash::vk::PipelineBindPoint`, whose inside this layer does not look at.
#[verifier::external_type_specification]
#[verifier::external_body]
pub struct ExPipelineBindPoint(ash::vk::PipelineBindPoint);

/// `ash::vk::SamplerAddressMode`, whose inside this layer does not look at.
#[verifier::external_type_specification]
#[verifier::external_body]
pub struct ExSamplerAddressMode(ash::vk::SamplerAddressMode);

/// `ash::vk::Filter`, whose inside this layer does not look at.
#[verifier::external_type_specification]
#[verifier::external_body]
pub struct ExFilter(ash::vk::Filter);

/// The enumerant inside a native format.
pub uninterp spec fn format_raw(f: ash::vk::Format) -> i32;

/// The enumerant inside a native image layout.
pub uninterp spec fn image_layout_raw(l: ash::vk::ImageLayout) -> i32;

/// The enumerant inside a native attachment load operation.
pub uninterp spec fn load_op_raw(op: ash::vk::AttachmentLoadOp) -> i32;

/// The bit mask inside a set of native image usage flags.
pub uninterp spec fn image_usage_raw(flags: ash::vk::ImageUsageFlags) -> u32;

/// The bit mask inside a set of native image aspect flags.
pub uninterp spec fn image_aspect_raw(flags: ash::vk::ImageAspectFlags) -> u32;

/// `ash::vk::Format::from_raw` wraps the enumerant it is given, unchanged.
pub assume_specification[ash::vk::Format::from_raw](x: i32) -> (f: ash::vk::Format)
    ensures
        format_raw(f) == x,
;

/// `ash::vk::Format::as_raw` returns the enumerant that the format wraps.
pub assume_specification[ash::vk::Format::as_raw](f: ash::vk::Format) -> (x: i32)
    ensures
        x == format_raw(f),
;

/// `ash::vk::ImageLayout::from_raw` wraps the enumerant it is given, unchanged.
pub assume_specification[ash::vk::ImageLayout::from_raw](x: i32) -> (l: ash::vk::ImageLayout)
    ensures
        image_layout_raw(l) == x,
;

/// `ash::vk::AttachmentLoadOp::from_raw` wraps the enumerant it is given, unchanged.
pub assume_specification[ash::vk::AttachmentLoadOp::from_raw](x: i32) -> (op:
    ash::vk::AttachmentLoadOp)
    ensures
        load_op_raw(op) == x,
;

/// `ash::vk::ImageUsageFlags::from_raw` wraps the bit mask it is given, unchanged.
pub assume_specification[ash::vk::ImageUsageFlags::from_raw](x: u32) -> (flags:
    ash::vk::ImageUsageFlags)
    ensures
        image_usage_raw(flags) == x,
;

/// `ash::vk::ImageAspectFlags::from_raw` wraps the bit mask it is given, unchanged.
pub assume_specification[ash::vk::ImageAspectFlags::from_raw](x: u32) -> (flags:
    ash::vk::ImageAspectFlags)
    ensures
        image_aspect_raw(flags) == x,
;

/// The enumerant inside a native sampler address mode.
pub uninterp spec fn address_mode_raw(mode: ash::vk::SamplerAddressMode) -> i32;

/// The enumerant inside a native texel filter.
pub uninterp spec fn filter_raw(filter: ash::vk::Filter) -> i32;

/// `ash::vk::SamplerAddressMode::from_raw` wraps the enumerant it is given, unchanged.
pub assume_specification[ash::vk::SamplerAddressMode::from_raw](x: i32) -> (mode:
    ash::vk::SamplerAddressMode)
    ensures
        address_mode_raw(mode) == x,
;

/// `ash::vk::Filter::from_raw` wraps the enumerant it is given, unchanged.
pub assume_specification[ash::vk::Filter::from_raw](x: i32) -> (filter: ash::vk::Filter)
    ensures
        filter_raw(filter) == x,
;

} // verus!
