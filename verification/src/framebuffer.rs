//! The render target of a single frame.

use vstd::prelude::*;

verus! {

/// `wgpu::TextureFormat`: a pixel format, with the variants the backend
/// defines.
#[verifier::external_type_specification]
pub struct ExTextureFormat(wgpu::TextureFormat);

/// What a frame is drawn into: its size in pixels and its pixel format.
#[derive(Clone, Copy, Debug, PartialEq, Eq)]
pub struct RenderTarget {
    pub width: u32,
    pub height: u32,
    pub format: wgpu::TextureFormat,
}

/// The target of one frame. It is handed out when the frame is acquired
/// and stands for that frame only.
#[derive(Debug)]
pub struct Framebuffer {
    pub target: RenderTarget,
}

impl Framebuffer {
    pub fn new(target: RenderTarget) -> (framebuffer: Framebuffer)
        ensures
            framebuffer.target == target,
    {
        Framebuffer { target }
    }

    pub fn get_target(&self) -> (target: &RenderTarget)
        ensures
            *target == self.target,
    {
        &self.target
    }
}

} // verus!
