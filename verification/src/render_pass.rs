//! What a render pass is begun with: attachments, and what happens to their
//! contents when the pass begins and ends.

use vstd::prelude::*;
use crate::geometry::Rect2D;
use crate::gpu::NativeHandle;
use crate::image_format::ToVk;
use crate::types::GpuImageView;
use crate::vk::load_op_raw;

verus! {

pub const LOAD_OP_LOAD: i32 = 0;

pub const LOAD_OP_CLEAR: i32 = 1;

pub const LOAD_OP_DONT_CARE: i32 = 2;

pub const STORE_OP_STORE: i32 = 0;

pub const STORE_OP_DONT_CARE: i32 = 1;

/// The stencil value that a depth clear writes beside the depth.
pub const DEPTH_CLEAR_STENCIL: u32 = 255;

/// What happens to a colour attachment when the pass begins. A clear colour is
/// four IEEE 754 single-precision bit patterns: red, green, blue, alpha.
#[derive(Clone, Copy, Debug)]
pub enum ColorLoadOp {
    DontCare,
    Load,
    Clear([u32; 4]),
}

/// What happens to a depth attachment when the pass begins. A clear depth is an
/// IEEE 754 single-precision bit pattern.
#[derive(Clone, Copy, Debug)]
pub enum DepthLoadOp {
    DontCare,
    Load,
    Clear(u32),
}

#[derive(Clone, Copy, Debug)]
pub enum StencilLoadOp {
    DontCare,
    Load,
    Clear(u8),
}

#[derive(Clone, Copy, Debug)]
pub enum AttachmentStoreOp {
    DontCare,
    Store,
}

/// The value an attachment is cleared to.
#[derive(Clone, Copy, Debug)]
pub enum ClearValue {
    /// All bits zero: what an attachment that is not cleared carries.
    Zero,
    Color([u32; 4]),
    DepthStencil { depth: u32, stencil: u32 },
}

impl ColorLoadOp {
    pub open spec fn vk_raw(self) -> i32 {
        match self {
            ColorLoadOp::DontCare => LOAD_OP_DONT_CARE,
            ColorLoadOp::Load => LOAD_OP_LOAD,
            ColorLoadOp::Clear(_) => LOAD_OP_CLEAR,
        }
    }

    pub open spec fn spec_clear_value(self) -> ClearValue {
        match self {
            ColorLoadOp::Clear(color) => ClearValue::Color(color),
            _ => ClearValue::Zero,
        }
    }

    pub fn clear_value(&self) -> (v: ClearValue)
        ensures
            v == self.spec_clear_value(),
    {
        match self {
            ColorLoadOp::Clear(color) => ClearValue::Color(*color),
            _ => ClearValue::Zero,
        }
    }
}

impl DepthLoadOp {
    pub open spec fn vk_raw(self) -> i32 {
        match self {
            DepthLoadOp::DontCare => LOAD_OP_DONT_CARE,
            DepthLoadOp::Load => LOAD_OP_LOAD,
            DepthLoadOp::Clear(_) => LOAD_OP_CLEAR,
        }
    }

    pub open spec fn spec_clear_value(self) -> ClearValue {
        match self {
            DepthLoadOp::Clear(depth) => ClearValue::DepthStencil {
                depth,
                stencil: DEPTH_CLEAR_STENCIL,
            },
            _ => ClearValue::Zero,
        }
    }

    pub fn clear_value(&self) -> (v: ClearValue)
        ensures
            v == self.spec_clear_value(),
    {
        match self {
            DepthLoadOp::Clear(depth) => ClearValue::DepthStencil {
                depth: *depth,
                stencil: DEPTH_CLEAR_STENCIL,
            },
            _ => ClearValue::Zero,
        }
    }
}

impl StencilLoadOp {
    pub open spec fn vk_raw(self) -> i32 {
        match self {
            StencilLoadOp::DontCare => LOAD_OP_DONT_CARE,
            StencilLoadOp::Load => LOAD_OP_LOAD,
            StencilLoadOp::Clear(_) => LOAD_OP_CLEAR,
        }
    }

    pub open spec fn spec_clear_value(self) -> ClearValue {
        match self {
            StencilLoadOp::Clear(stencil) => ClearValue::DepthStencil {
                depth: 0,
                stencil: stencil as u32,
            },
            _ => ClearValue::Zero,
        }
    }

    pub fn clear_value(&self) -> (v: ClearValue)
        ensures
            v == self.spec_clear_value(),
    {
        match self {
            StencilLoadOp::Clear(stencil) => ClearValue::DepthStencil {
                depth: 0,
                stencil: *stencil as u32,
            },
            _ => ClearValue::Zero,
        }
    }
}

impl AttachmentStoreOp {
    pub open spec fn vk_raw(self) -> i32 {
        match self {
            AttachmentStoreOp::DontCare => STORE_OP_DONT_CARE,
            AttachmentStoreOp::Store => STORE_OP_STORE,
        }
    }
}

impl ToVk for ColorLoadOp {
    type Inner = ash::vk::AttachmentLoadOp;

    fn to_vk(&self) -> (op: ash::vk::AttachmentLoadOp)
        ensures
            load_op_raw(op) == self.vk_raw(),
    {
        match self {
            ColorLoadOp::DontCare => ash::vk::AttachmentLoadOp::from_raw(LOAD_OP_DONT_CARE),
            ColorLoadOp::Load => ash::vk::AttachmentLoadOp::from_raw(LOAD_OP_LOAD),
            ColorLoadOp::Clear(_) => ash::vk::AttachmentLoadOp::from_raw(LOAD_OP_CLEAR),
        }
    }
}

impl ToVk for DepthLoadOp {
    type Inner = ash::vk::AttachmentLoadOp;

    fn to_vk(&self) -> (op: ash::vk::AttachmentLoadOp)
        ensures
            load_op_raw(op) == self.vk_raw(),
    {
        match self {
            DepthLoadOp::DontCare => ash::vk::AttachmentLoadOp::from_raw(LOAD_OP_DONT_CARE),
            DepthLoadOp::Load => ash::vk::AttachmentLoadOp::from_raw(LOAD_OP_LOAD),
            DepthLoadOp::Clear(_) => ash::vk::AttachmentLoadOp::from_raw(LOAD_OP_CLEAR),
        }
    }
}

impl ToVk for StencilLoadOp {
    type Inner = ash::vk::AttachmentLoadOp;

    fn to_vk(&self) -> (op: ash::vk::AttachmentLoadOp)
        ensures
            load_op_raw(op) == self.vk_raw(),
    {
        match self {
            StencilLoadOp::DontCare => ash::vk::AttachmentLoadOp::from_raw(LOAD_OP_DONT_CARE),
            StencilLoadOp::Load => ash::vk::AttachmentLoadOp::from_raw(LOAD_OP_LOAD),
            StencilLoadOp::Clear(_) => ash::vk::AttachmentLoadOp::from_raw(LOAD_OP_CLEAR),
        }
    }
}

/// The native store operation bears the same name as this layer's, so it is
/// given as its enumerant.
impl ToVk for AttachmentStoreOp {
    type Inner = i32;

    fn to_vk(&self) -> (op: i32)
        ensures
            op == self.vk_raw(),
    {
        match self {
            AttachmentStoreOp::DontCare => STORE_OP_DONT_CARE,
            AttachmentStoreOp::Store => STORE_OP_STORE,
        }
    }
}

#[derive(Clone, Copy)]
pub struct ColorAttachment<'a> {
    pub image_view: &'a GpuImageView,
    pub load_op: ColorLoadOp,
    pub store_op: AttachmentStoreOp,
    pub initial_layout: ash::vk::ImageLayout,
}

#[derive(Clone, Copy)]
pub struct DepthAttachment<'a> {
    pub image_view: &'a GpuImageView,
    pub load_op: DepthLoadOp,
    pub store_op: AttachmentStoreOp,
    pub initial_layout: ash::vk::ImageLayout,
}

#[derive(Clone, Copy)]
pub struct StencilAttachment<'a> {
    pub image_view: &'a GpuImageView,
    pub load_op: StencilLoadOp,
    pub store_op: AttachmentStoreOp,
    pub initial_layout: ash::vk::ImageLayout,
}

#[derive(Clone, Copy)]
pub struct BeginRenderPassInfo<'a> {
    pub color_attachments: &'a [ColorAttachment<'a>],
    pub depth_attachment: Option<DepthAttachment<'a>>,
    pub stencil_attachment: Option<StencilAttachment<'a>>,
    pub render_area: Rect2D,
}

/// One attachment as the native begin-rendering call takes it. It is never
/// resolved into another image.
#[derive(Clone, Copy)]
pub struct RenderingAttachment {
    pub image_view: NativeHandle,
    pub image_layout: ash::vk::ImageLayout,
    pub load_op: ash::vk::AttachmentLoadOp,
    /// The enumerant of the native store operation.
    pub store_op: i32,
    pub clear_value: ClearValue,
}

/// A recorded attachment, with the native operations as their enumerants.
pub struct AttachmentView {
    pub image_view: NativeHandle,
    pub image_layout: ash::vk::ImageLayout,
    pub load_op: i32,
    pub store_op: i32,
    pub clear_value: ClearValue,
}

impl View for RenderingAttachment {
    type V = AttachmentView;

    open spec fn view(&self) -> AttachmentView {
        AttachmentView {
            image_view: self.image_view,
            image_layout: self.image_layout,
            load_op: load_op_raw(self.load_op),
            store_op: self.store_op,
            clear_value: self.clear_value,
        }
    }
}

impl<'a> ColorAttachment<'a> {
    pub open spec fn recorded(self) -> AttachmentView {
        AttachmentView {
            image_view: self.image_view.inner,
            image_layout: self.initial_layout,
            load_op: self.load_op.vk_raw(),
            store_op: self.store_op.vk_raw(),
            clear_value: self.load_op.spec_clear_value(),
        }
    }

    pub fn record(&self) -> (r: RenderingAttachment)
        ensures
            r@ == self.recorded(),
    {
        RenderingAttachment {
            image_view: self.image_view.inner,
            image_layout: self.initial_layout,
            load_op: self.load_op.to_vk(),
            store_op: self.store_op.to_vk(),
            clear_value: self.load_op.clear_value(),
        }
    }
}

impl<'a> DepthAttachment<'a> {
    pub open spec fn recorded(self) -> AttachmentView {
        AttachmentView {
            image_view: self.image_view.inner,
            image_layout: self.initial_layout,
            load_op: self.load_op.vk_raw(),
            store_op: self.store_op.vk_raw(),
            clear_value: self.load_op.spec_clear_value(),
        }
    }

    pub fn record(&self) -> (r: RenderingAttachment)
        ensures
            r@ == self.recorded(),
    {
        RenderingAttachment {
            image_view: self.image_view.inner,
            image_layout: self.initial_layout,
            load_op: self.load_op.to_vk(),
            store_op: self.store_op.to_vk(),
            clear_value: self.load_op.clear_value(),
        }
    }
}

impl<'a> StencilAttachment<'a> {
    pub open spec fn recorded(self) -> AttachmentView {
        AttachmentView {
            image_view: self.image_view.inner,
            image_layout: self.initial_layout,
            load_op: self.load_op.vk_raw(),
            store_op: self.store_op.vk_raw(),
            clear_value: self.load_op.spec_clear_value(),
        }
    }

    pub fn record(&self) -> (r: RenderingAttachment)
        ensures
            r@ == self.recorded(),
    {
        RenderingAttachment {
            image_view: self.image_view.inner,
            image_layout: self.initial_layout,
            load_op: self.load_op.to_vk(),
            store_op: self.store_op.to_vk(),
            clear_value: self.load_op.clear_value(),
        }
    }
}

} // verus!
