//! Descriptions of the render pass, the vertex input and the fixed-function
//! state of the graphics pipeline, as raw API values for the embedding
//! program to hand to the device.
use vstd::prelude::*;
use crate::codec::{COLOR_OFFSET, VERTEX_STRIDE};
use crate::surface::Extent2D;

verus! {

/// Raw `VK_FORMAT_R32G32B32_SFLOAT`.
pub const FORMAT_R32G32B32_SFLOAT: i32 = 106;
/// Raw `VK_FORMAT_D32_SFLOAT`.
pub const FORMAT_D32_SFLOAT: i32 = 126;
/// Raw `VK_SAMPLE_COUNT_1_BIT`.
pub const SAMPLE_COUNT_1: u32 = 0x1;
/// Raw `VK_ATTACHMENT_LOAD_OP_CLEAR`.
pub const LOAD_OP_CLEAR: i32 = 1;
/// Raw `VK_ATTACHMENT_LOAD_OP_DONT_CARE`.
pub const LOAD_OP_DONT_CARE: i32 = 2;
/// Raw `VK_ATTACHMENT_STORE_OP_STORE`.
pub const STORE_OP_STORE: i32 = 0;
/// Raw `VK_ATTACHMENT_STORE_OP_DONT_CARE`.
pub const STORE_OP_DONT_CARE: i32 = 1;
/// Raw `VK_IMAGE_LAYOUT_UNDEFINED`.
pub const LAYOUT_UNDEFINED: i32 = 0;
/// Raw `VK_IMAGE_LAYOUT_COLOR_ATTACHMENT_OPTIMAL`.
pub const LAYOUT_COLOR_ATTACHMENT_OPTIMAL: i32 = 2;
/// Raw `VK_IMAGE_LAYOUT_DEPTH_STENCIL_ATTACHMENT_OPTIMAL`.
pub const LAYOUT_DEPTH_STENCIL_ATTACHMENT_OPTIMAL: i32 = 3;
/// Raw `VK_IMAGE_LAYOUT_PRESENT_SRC_KHR`.
pub const LAYOUT_PRESENT_SRC: i32 = 1000001002;
/// Raw `VK_SUBPASS_EXTERNAL`.
pub const SUBPASS_EXTERNAL: u32 = 0xffff_ffff;
/// Raw `VK_PIPELINE_STAGE_COLOR_ATTACHMENT_OUTPUT_BIT`.
pub const STAGE_COLOR_ATTACHMENT_OUTPUT: u32 = 0x400;
/// Raw `VK_ACCESS_COLOR_ATTACHMENT_READ_BIT`.
pub const ACCESS_COLOR_ATTACHMENT_READ: u32 = 0x80;
/// Raw `VK_ACCESS_COLOR_ATTACHMENT_WRITE_BIT`.
pub const ACCESS_COLOR_ATTACHMENT_WRITE: u32 = 0x100;
/// Raw `VK_PRIMITIVE_TOPOLOGY_TRIANGLE_LIST`.
pub const TOPOLOGY_TRIANGLE_LIST: i32 = 3;
/// Raw `VK_POLYGON_MODE_FILL`.
pub const POLYGON_MODE_FILL: i32 = 0;
/// Raw `VK_CULL_MODE_BACK_BIT`.
pub const CULL_MODE_BACK: u32 = 0x2;
/// Raw `VK_FRONT_FACE_CLOCKWISE`.
pub const FRONT_FACE_CLOCKWISE: i32 = 1;
/// Raw mask of all four `VkColorComponentFlagBits`.
pub const COLOR_COMPONENTS_RGBA: u32 = 0xf;
/// Raw `VK_VERTEX_INPUT_RATE_VERTEX`.
pub const INPUT_RATE_VERTEX: i32 = 0;

/// How one attachment is loaded, stored and laid out.
#[derive(Clone, Copy, Debug, PartialEq, Eq, Structural)]
pub struct AttachmentDescription {
    pub format: i32,
    pub samples: u32,
    pub load_op: i32,
    pub store_op: i32,
    pub stencil_load_op: i32,
    pub stencil_store_op: i32,
    pub initial_layout: i32,
    pub final_layout: i32,
}

/// An attachment as a subpass uses it.
#[derive(Clone, Copy, Debug, PartialEq, Eq, Structural)]
pub struct AttachmentReference {
    pub attachment: u32,
    pub layout: i32,
}

/// An execution and memory dependency between two subpasses.
#[derive(Clone, Copy, Debug, PartialEq, Eq, Structural)]
pub struct SubpassDependency {
    pub src_subpass: u32,
    pub dst_subpass: u32,
    pub src_stage_mask: u32,
    pub dst_stage_mask: u32,
    pub src_access_mask: u32,
    pub dst_access_mask: u32,
}

/// A render pass of one graphics subpass.
pub struct RenderPassDescription {
    pub attachments: Vec<AttachmentDescription>,
    pub color_reference: AttachmentReference,
    pub depth_reference: Option<AttachmentReference>,
    pub dependency: SubpassDependency,
}

/// The vertex buffer binding.
#[derive(Clone, Copy, Debug, PartialEq, Eq, Structural)]
pub struct VertexBinding {
    pub binding: u32,
    pub stride: u32,
    pub input_rate: i32,
}

/// One vertex attribute within the binding.
#[derive(Clone, Copy, Debug, PartialEq, Eq, Structural)]
pub struct VertexAttribute {
    pub location: u32,
    pub binding: u32,
    pub format: i32,
    pub offset: u32,
}

/// The fixed-function state of the graphics pipeline. The viewport and the
/// scissor cover `extent` from the origin; depth runs from 0 to 1 and lines are
/// one pixel wide.
#[derive(Clone, Copy, Debug, PartialEq, Eq, Structural)]
pub struct FixedFunctionState {
    pub topology: i32,
    pub primitive_restart: bool,
    pub extent: Extent2D,
    pub polygon_mode: i32,
    pub cull_mode: u32,
    pub front_face: i32,
    pub samples: u32,
    pub blend_enable: bool,
    pub color_write_mask: u32,
}

/// The color attachment: cleared, stored, and left ready for presentation.
pub open spec fn color_attachment_spec(format: i32) -> AttachmentDescription {
    AttachmentDescription {
        format,
        samples: SAMPLE_COUNT_1,
        load_op: LOAD_OP_CLEAR,
        store_op: STORE_OP_STORE,
        stencil_load_op: LOAD_OP_DONT_CARE,
        stencil_store_op: STORE_OP_DONT_CARE,
        initial_layout: LAYOUT_UNDEFINED,
        final_layout: LAYOUT_PRESENT_SRC,
    }
}

/// The depth attachment: cleared, not stored.
pub open spec fn depth_attachment_spec() -> AttachmentDescription {
    AttachmentDescription {
        format: FORMAT_D32_SFLOAT,
        samples: SAMPLE_COUNT_1,
        load_op: LOAD_OP_CLEAR,
        store_op: STORE_OP_DONT_CARE,
        stencil_load_op: LOAD_OP_DONT_CARE,
        stencil_store_op: STORE_OP_DONT_CARE,
        initial_layout: LAYOUT_UNDEFINED,
        final_layout: LAYOUT_DEPTH_STENCIL_ATTACHMENT_OPTIMAL,
    }
}

/// The dependency that keeps the subpass's color writes after the
/// presentation engine has released the image.
pub open spec fn external_dependency_spec() -> SubpassDependency {
    SubpassDependency {
        src_subpass: SUBPASS_EXTERNAL,
        dst_subpass: 0,
        src_stage_mask: STAGE_COLOR_ATTACHMENT_OUTPUT,
        dst_stage_mask: STAGE_COLOR_ATTACHMENT_OUTPUT,
        src_access_mask: 0,
        dst_access_mask: ACCESS_COLOR_ATTACHMENT_READ | ACCESS_COLOR_ATTACHMENT_WRITE,
    }
}

/// The fixed-function state over a given extent.
pub open spec fn fixed_function_spec(extent: Extent2D) -> FixedFunctionState {
    FixedFunctionState {
        topology: TOPOLOGY_TRIANGLE_LIST,
        primitive_restart: false,
        extent,
        polygon_mode: POLYGON_MODE_FILL,
        cull_mode: CULL_MODE_BACK,
        front_face: FRONT_FACE_CLOCKWISE,
        samples: SAMPLE_COUNT_1,
        blend_enable: false,
        color_write_mask: COLOR_COMPONENTS_RGBA,
    }
}

/// Describes the render pass: a cleared color attachment that ends ready for
/// presentation and, when asked for, a cleared depth attachment; one subpass
/// using them; one dependency on the presentation of the previous frame.
pub fn render_pass_description(color_format: i32, with_depth: bool) -> (r: RenderPassDescription)
    ensures
        r.attachments@ == (if with_depth {
            seq![color_attachment_spec(color_format), depth_attachment_spec()]
        } else {
            seq![color_attachment_spec(color_format)]
        }),
        r.color_reference == (AttachmentReference { attachment: 0, layout: LAYOUT_COLOR_ATTACHMENT_OPTIMAL }),
        r.depth_reference == (if with_depth {
            Some(AttachmentReference { attachment: 1, layout: LAYOUT_DEPTH_STENCIL_ATTACHMENT_OPTIMAL })
        } else {
            None
        }),
        r.dependency == external_dependency_spec(),
{
    let color = AttachmentDescription {
        format: color_format,
        samples: SAMPLE_COUNT_1,
        load_op: LOAD_OP_CLEAR,
        store_op: STORE_OP_STORE,
        stencil_load_op: LOAD_OP_DONT_CARE,
        stencil_store_op: STORE_OP_DONT_CARE,
        initial_layout: LAYOUT_UNDEFINED,
        final_layout: LAYOUT_PRESENT_SRC,
    };
    let mut attachments: Vec<AttachmentDescription> = Vec::new();
    attachments.push(color);
    let depth_reference = if with_depth {
        attachments.push(AttachmentDescription {
            format: FORMAT_D32_SFLOAT,
            samples: SAMPLE_COUNT_1,
            load_op: LOAD_OP_CLEAR,
            store_op: STORE_OP_DONT_CARE,
            stencil_load_op: LOAD_OP_DONT_CARE,
            stencil_store_op: STORE_OP_DONT_CARE,
            initial_layout: LAYOUT_UNDEFINED,
            final_layout: LAYOUT_DEPTH_STENCIL_ATTACHMENT_OPTIMAL,
        });
        Some(AttachmentReference { attachment: 1, layout: LAYOUT_DEPTH_STENCIL_ATTACHMENT_OPTIMAL })
    } else {
        None
    };
    proof {
        if with_depth {
            assert(attachments@ =~= seq![color_attachment_spec(color_format), depth_attachment_spec()]);
        } else {
            assert(attachments@ =~= seq![color_attachment_spec(color_format)]);
        }
    }
    RenderPassDescription {
        attachments,
        color_reference: AttachmentReference { attachment: 0, layout: LAYOUT_COLOR_ATTACHMENT_OPTIMAL },
        depth_reference,
        dependency: SubpassDependency {
            src_subpass: SUBPASS_EXTERNAL,
            dst_subpass: 0,
            src_stage_mask: STAGE_COLOR_ATTACHMENT_OUTPUT,
            dst_stage_mask: STAGE_COLOR_ATTACHMENT_OUTPUT,
            src_access_mask: 0,
            dst_access_mask: ACCESS_COLOR_ATTACHMENT_READ | ACCESS_COLOR_ATTACHMENT_WRITE,
        },
    }
}

/// The one vertex buffer binding: interleaved records of `VERTEX_STRIDE`
/// bytes, advanced per vertex.
pub fn binding_description() -> (r: VertexBinding)
    ensures
        r == (VertexBinding { binding: 0, stride: VERTEX_STRIDE as u32, input_rate: INPUT_RATE_VERTEX }),
{
    VertexBinding { binding: 0, stride: VERTEX_STRIDE as u32, input_rate: INPUT_RATE_VERTEX }
}

/// The position attribute at location 0 and the color attribute at
/// location 1, three 32-bit floats each.
pub fn attribute_descriptions() -> (r: Vec<VertexAttribute>)
    ensures
        r@ == seq![
            VertexAttribute { location: 0, binding: 0, format: FORMAT_R32G32B32_SFLOAT, offset: 0 },
            VertexAttribute { location: 1, binding: 0, format: FORMAT_R32G32B32_SFLOAT, offset: COLOR_OFFSET },
        ],
{
    let mut r: Vec<VertexAttribute> = Vec::new();
    r.push(VertexAttribute { location: 0, binding: 0, format: FORMAT_R32G32B32_SFLOAT, offset: 0 });
    r.push(VertexAttribute { location: 1, binding: 0, format: FORMAT_R32G32B32_SFLOAT, offset: COLOR_OFFSET });
    proof {
        assert(r@ =~= seq![
            VertexAttribute { location: 0, binding: 0, format: FORMAT_R32G32B32_SFLOAT, offset: 0 },
            VertexAttribute { location: 1, binding: 0, format: FORMAT_R32G32B32_SFLOAT, offset: COLOR_OFFSET },
        ]);
    }
    r
}

/// The fixed-function state: triangle lists, filled polygons, back faces
/// culled with clockwise front faces, one sample, no blending, every color
/// channel written, and the viewport and scissor over the whole extent.
pub fn fixed_function_state(extent: Extent2D) -> (r: FixedFunctionState)
    ensures
        r == fixed_function_spec(extent),
{
    FixedFunctionState {
        topology: TOPOLOGY_TRIANGLE_LIST,
        primitive_restart: false,
        extent,
        polygon_mode: POLYGON_MODE_FILL,
        cull_mode: CULL_MODE_BACK,
        front_face: FRONT_FACE_CLOCKWISE,
        samples: SAMPLE_COUNT_1,
        blend_enable: false,
        color_write_mask: COLOR_COMPONENTS_RGBA,
    }
}

} // verus!
