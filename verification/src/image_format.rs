//! Pixel formats and what the native API is told about each of them.

use vstd::prelude::*;
use crate::vk::{format_raw, image_aspect_raw, image_layout_raw, image_usage_raw};

verus! {

/// A library value that stands for one native value.
pub trait ToVk {
    type Inner;

    fn to_vk(&self) -> Self::Inner;
}

/// Pixel formats that images of this layer can have.
#[derive(Clone, Copy, Debug, PartialEq, Eq, Hash, PartialOrd, Ord, Structural)]
pub enum ImageFormat {
    Rgba8,
    Bgra8,
    SRgba8,
    Rgb8,
    RgbaFloat,
    Depth,
}

pub const USAGE_COLOR_ATTACHMENT: u32 = 0x10;

pub const USAGE_DEPTH_STENCIL_ATTACHMENT: u32 = 0x20;

pub const ASPECT_COLOR: u32 = 0x1;

pub const ASPECT_DEPTH: u32 = 0x2;

pub const LAYOUT_UNDEFINED: i32 = 0;

pub const LAYOUT_COLOR_ATTACHMENT_OPTIMAL: i32 = 2;

pub const LAYOUT_DEPTH_STENCIL_ATTACHMENT_OPTIMAL: i32 = 3;

pub const LAYOUT_DEPTH_STENCIL_READ_ONLY_OPTIMAL: i32 = 4;

pub const LAYOUT_SHADER_READ_ONLY_OPTIMAL: i32 = 5;

impl ImageFormat {
    /// The native enumerant of the format.
    pub open spec fn vk_raw(self) -> i32 {
        match self {
            ImageFormat::Rgba8 => 37,
            ImageFormat::SRgba8 => 43,
            ImageFormat::Rgb8 => 23,
            ImageFormat::RgbaFloat => 109,
            ImageFormat::Depth => 126,
            ImageFormat::Bgra8 => 44,
        }
    }

    /// The format with the given native enumerant, if this layer has one.
    pub open spec fn of_vk_raw(raw: i32) -> Option<ImageFormat> {
        if raw == 37 {
            Some(ImageFormat::Rgba8)
        } else if raw == 43 {
            Some(ImageFormat::SRgba8)
        } else if raw == 23 {
            Some(ImageFormat::Rgb8)
        } else if raw == 126 {
            Some(ImageFormat::Depth)
        } else if raw == 109 {
            Some(ImageFormat::RgbaFloat)
        } else if raw == 44 {
            Some(ImageFormat::Bgra8)
        } else {
            None
        }
    }

    pub open spec fn spec_is_color(self) -> bool {
        self != ImageFormat::Depth
    }

    pub open spec fn spec_is_depth(self) -> bool {
        self == ImageFormat::Depth
    }

    pub fn is_color(&self) -> (r: bool)
        ensures
            r == self.spec_is_color(),
    {
        match self {
            ImageFormat::Rgba8
            | ImageFormat::Bgra8
            | ImageFormat::SRgba8
            | ImageFormat::Rgb8
            | ImageFormat::RgbaFloat => true,
            ImageFormat::Depth => false,
        }
    }

    pub fn is_depth(&self) -> (r: bool)
        ensures
            r == self.spec_is_depth(),
    {
        ImageFormat::Depth == *self
    }

    /// The usage an attachment of this format is created with.
    pub fn default_usage_flags(&self) -> (flags: ash::vk::ImageUsageFlags)
        ensures
            image_usage_raw(flags) == if self.spec_is_color() {
                USAGE_COLOR_ATTACHMENT
            } else {
                USAGE_DEPTH_STENCIL_ATTACHMENT
            },
    {
        if self.is_color() {
            ash::vk::ImageUsageFlags::from_raw(USAGE_COLOR_ATTACHMENT)
        } else {
            ash::vk::ImageUsageFlags::from_raw(USAGE_DEPTH_STENCIL_ATTACHMENT)
        }
    }

    /// The aspect of an image of this format that views and barriers address.
    pub fn aspect_mask(&self) -> (flags: ash::vk::ImageAspectFlags)
        ensures
            image_aspect_raw(flags) == if self.spec_is_color() {
                ASPECT_COLOR
            } else {
                ASPECT_DEPTH
            },
    {
        if self.is_color() {
            ash::vk::ImageAspectFlags::from_raw(ASPECT_COLOR)
        } else {
            ash::vk::ImageAspectFlags::from_raw(ASPECT_DEPTH)
        }
    }

    pub fn preferred_attachment_read_layout(&self) -> (layout: ash::vk::ImageLayout)
        ensures
            image_layout_raw(layout) == if self.spec_is_color() {
                LAYOUT_SHADER_READ_ONLY_OPTIMAL
            } else {
                LAYOUT_DEPTH_STENCIL_READ_ONLY_OPTIMAL
            },
    {
        if self.is_color() {
            ash::vk::ImageLayout::from_raw(LAYOUT_SHADER_READ_ONLY_OPTIMAL)
        } else {
            ash::vk::ImageLayout::from_raw(LAYOUT_DEPTH_STENCIL_READ_ONLY_OPTIMAL)
        }
    }

    pub fn preferred_attachment_write_layout(&self) -> (layout: ash::vk::ImageLayout)
        ensures
            image_layout_raw(layout) == if self.spec_is_color() {
                LAYOUT_COLOR_ATTACHMENT_OPTIMAL
            } else {
                LAYOUT_DEPTH_STENCIL_ATTACHMENT_OPTIMAL
            },
    {
        if self.is_color() {
            ash::vk::ImageLayout::from_raw(LAYOUT_COLOR_ATTACHMENT_OPTIMAL)
        } else {
            ash::vk::ImageLayout::from_raw(LAYOUT_DEPTH_STENCIL_ATTACHMENT_OPTIMAL)
        }
    }

    pub fn preferred_shader_read_layout(&self) -> (layout: ash::vk::ImageLayout)
        ensures
            image_layout_raw(layout) == if self.spec_is_color() {
                LAYOUT_SHADER_READ_ONLY_OPTIMAL
            } else {
                LAYOUT_DEPTH_STENCIL_READ_ONLY_OPTIMAL
            },
    {
        if self.is_color() {
            ash::vk::ImageLayout::from_raw(LAYOUT_SHADER_READ_ONLY_OPTIMAL)
        } else {
            ash::vk::ImageLayout::from_raw(LAYOUT_DEPTH_STENCIL_READ_ONLY_OPTIMAL)
        }
    }

    pub fn preferred_shader_write_layout(&self) -> (layout: ash::vk::ImageLayout)
        ensures
            image_layout_raw(layout) == if self.spec_is_color() {
                LAYOUT_SHADER_READ_ONLY_OPTIMAL
            } else {
                LAYOUT_DEPTH_STENCIL_ATTACHMENT_OPTIMAL
            },
    {
        if self.is_color() {
            ash::vk::ImageLayout::from_raw(LAYOUT_SHADER_READ_ONLY_OPTIMAL)
        } else {
            ash::vk::ImageLayout::from_raw(LAYOUT_DEPTH_STENCIL_ATTACHMENT_OPTIMAL)
        }
    }

    /// The format that a native format stands for; `None` for every native format
    /// that this layer does not use.
    pub fn from_vk(value: &ash::vk::Format) -> (r: Option<ImageFormat>)
        ensures
            r == ImageFormat::of_vk_raw(format_raw(*value)),
    {
        let raw: i32 = value.as_raw();
        if raw == 37 {
            Some(ImageFormat::Rgba8)
        } else if raw == 43 {
            Some(ImageFormat::SRgba8)
        } else if raw == 23 {
            Some(ImageFormat::Rgb8)
        } else if raw == 126 {
            Some(ImageFormat::Depth)
        } else if raw == 109 {
            Some(ImageFormat::RgbaFloat)
        } else if raw == 44 {
            Some(ImageFormat::Bgra8)
        } else {
            None
        }
    }
}

impl ToVk for ImageFormat {
    type Inner = ash::vk::Format;

    fn to_vk(&self) -> (f: ash::vk::Format)
        ensures
            format_raw(f) == self.vk_raw(),
    {
        match self {
            ImageFormat::Rgba8 => ash::vk::Format::from_raw(37),
            ImageFormat::SRgba8 => ash::vk::Format::from_raw(43),
            ImageFormat::Rgb8 => ash::vk::Format::from_raw(23),
            ImageFormat::RgbaFloat => ash::vk::Format::from_raw(109),
            ImageFormat::Depth => ash::vk::Format::from_raw(126),
            ImageFormat::Bgra8 => ash::vk::Format::from_raw(44),
        }
    }
}

/// Converting a format to its native value and back gives the format again.
pub proof fn lemma_format_round_trip(format: ImageFormat)
    ensures
        ImageFormat::of_vk_raw(format.vk_raw()) == Some(format),
{
}

} // verus!
