//! The render state with which the UI is drawn.

use crate::device::{
    Blend, BlendOp, CullMode, DeviceOp, Matrix, RenderState, SamplerState, ShadeMode, TextureArg,
    TextureFilter, TextureOp, TextureStageState, Transform,
};
use crate::draw_data::{FrameDrawData, FrameView};
use vstd::prelude::*;

verus! {

/// The render states of the fixed render state, in the order in which they
/// are set: no culling, no lighting, no depth test; alpha blending of the
/// source over the destination, no alpha test; scissor test; smooth shading;
/// no fog.
pub open spec fn fixed_render_states() -> Seq<DeviceOp> {
    seq![
        DeviceOp::SetRenderState(RenderState::CullMode(CullMode::Disabled)),
        DeviceOp::SetRenderState(RenderState::Lighting(false)),
        DeviceOp::SetRenderState(RenderState::ZEnable(false)),
        DeviceOp::SetRenderState(RenderState::AlphaBlendEnable(true)),
        DeviceOp::SetRenderState(RenderState::AlphaTestEnable(false)),
        DeviceOp::SetRenderState(RenderState::BlendOp(BlendOp::Add)),
        DeviceOp::SetRenderState(RenderState::SrcBlend(Blend::SrcAlpha)),
        DeviceOp::SetRenderState(RenderState::DestBlend(Blend::InvSrcAlpha)),
        DeviceOp::SetRenderState(RenderState::ScissorTestEnable(true)),
        DeviceOp::SetRenderState(RenderState::ShadeMode(ShadeMode::Gouraud)),
        DeviceOp::SetRenderState(RenderState::FogEnable(false)),
    ]
}

/// The texture stage and sampler states of the fixed render state: colour
/// and alpha are the texture's, multiplied by the vertex's diffuse colour;
/// the texture is filtered linearly.
pub open spec fn fixed_texture_states() -> Seq<DeviceOp> {
    seq![
        DeviceOp::SetTextureStageState(TextureStageState::ColorOp(TextureOp::Modulate)),
        DeviceOp::SetTextureStageState(TextureStageState::ColorArg1(TextureArg::Texture)),
        DeviceOp::SetTextureStageState(TextureStageState::ColorArg2(TextureArg::Diffuse)),
        DeviceOp::SetTextureStageState(TextureStageState::AlphaOp(TextureOp::Modulate)),
        DeviceOp::SetTextureStageState(TextureStageState::AlphaArg1(TextureArg::Texture)),
        DeviceOp::SetTextureStageState(TextureStageState::AlphaArg2(TextureArg::Diffuse)),
        DeviceOp::SetSamplerState(SamplerState::MinFilter(TextureFilter::Linear)),
        DeviceOp::SetSamplerState(SamplerState::MagFilter(TextureFilter::Linear)),
    ]
}

/// The viewport and the shaders of the fixed render state.
pub open spec fn fixed_viewport(frame: FrameView) -> Seq<DeviceOp> {
    seq![
        DeviceOp::SetViewport {
            display_size: frame.display_size,
            framebuffer_scale: frame.framebuffer_scale,
        },
        DeviceOp::ClearPixelShader,
        DeviceOp::ClearVertexShader,
    ]
}

/// The transforms of the fixed render state: world and view are the
/// identity, the projection is orthographic over the frame's display.
pub open spec fn fixed_transforms(frame: FrameView) -> Seq<DeviceOp> {
    seq![
        DeviceOp::SetTransform(Transform::World, Matrix::Identity),
        DeviceOp::SetTransform(Transform::View, Matrix::Identity),
        DeviceOp::SetTransform(
            Transform::Projection,
            Matrix::Orthographic {
                display_pos: frame.display_pos,
                display_size: frame.display_size,
            },
        ),
    ]
}

/// The operations that put the device into the fixed render state for a
/// frame.
pub open spec fn fixed_state(frame: FrameView) -> Seq<DeviceOp> {
    fixed_viewport(frame) + fixed_render_states() + fixed_texture_states() + fixed_transforms(
        frame,
    )
}

/// Appends the operations of the fixed render state for the frame.
pub fn set_render_state(ops: &mut Vec<DeviceOp>, frame: &FrameDrawData)
    ensures
        final(ops)@ == old(ops)@ + fixed_state(frame@),
{
    let ghost before = ops@;
    ops.push(
        DeviceOp::SetViewport {
            display_size: frame.display_size(),
            framebuffer_scale: frame.framebuffer_scale(),
        },
    );
    ops.push(DeviceOp::ClearPixelShader);
    ops.push(DeviceOp::ClearVertexShader);
    assert(ops@ == before + fixed_viewport(frame@));
    let ghost viewport = ops@;
    ops.push(DeviceOp::SetRenderState(RenderState::CullMode(CullMode::Disabled)));
    ops.push(DeviceOp::SetRenderState(RenderState::Lighting(false)));
    ops.push(DeviceOp::SetRenderState(RenderState::ZEnable(false)));
    ops.push(DeviceOp::SetRenderState(RenderState::AlphaBlendEnable(true)));
    ops.push(DeviceOp::SetRenderState(RenderState::AlphaTestEnable(false)));
    ops.push(DeviceOp::SetRenderState(RenderState::BlendOp(BlendOp::Add)));
    ops.push(DeviceOp::SetRenderState(RenderState::SrcBlend(Blend::SrcAlpha)));
    ops.push(DeviceOp::SetRenderState(RenderState::DestBlend(Blend::InvSrcAlpha)));
    ops.push(DeviceOp::SetRenderState(RenderState::ScissorTestEnable(true)));
    ops.push(DeviceOp::SetRenderState(RenderState::ShadeMode(ShadeMode::Gouraud)));
    ops.push(DeviceOp::SetRenderState(RenderState::FogEnable(false)));
    assert(ops@ == viewport + fixed_render_states());
    let ghost states = ops@;
    ops.push(DeviceOp::SetTextureStageState(TextureStageState::ColorOp(TextureOp::Modulate)));
    ops.push(DeviceOp::SetTextureStageState(TextureStageState::ColorArg1(TextureArg::Texture)));
    ops.push(DeviceOp::SetTextureStageState(TextureStageState::ColorArg2(TextureArg::Diffuse)));
    ops.push(DeviceOp::SetTextureStageState(TextureStageState::AlphaOp(TextureOp::Modulate)));
    ops.push(DeviceOp::SetTextureStageState(TextureStageState::AlphaArg1(TextureArg::Texture)));
    ops.push(DeviceOp::SetTextureStageState(TextureStageState::AlphaArg2(TextureArg::Diffuse)));
    ops.push(DeviceOp::SetSamplerState(SamplerState::MinFilter(TextureFilter::Linear)));
    ops.push(DeviceOp::SetSamplerState(SamplerState::MagFilter(TextureFilter::Linear)));
    assert(ops@ == states + fixed_texture_states());
    let ghost textured = ops@;
    ops.push(DeviceOp::SetTransform(Transform::World, Matrix::Identity));
    ops.push(DeviceOp::SetTransform(Transform::View, Matrix::Identity));
    ops.push(
        DeviceOp::SetTransform(
            Transform::Projection,
            Matrix::Orthographic {
                display_pos: frame.display_pos(),
                display_size: frame.display_size(),
            },
        ),
    );
    assert(ops@ == textured + fixed_transforms(frame@));
    assert(ops@ == before + fixed_state(frame@));
}

} // verus!
