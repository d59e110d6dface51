//! A verified core for a thin graphics-device layer: surface configuration,
//! resource bookkeeping, vertex attribute packing and per-frame command
//! recording, all as plain values that a GPU backend carries out.

pub mod bind_group;
pub mod buffer;
pub mod command_buffer;
pub mod framebuffer;
pub mod pipeline;
pub mod render;
pub mod shader;
pub mod shader_layout;
pub mod util;
pub mod window;

pub use bind_group::{BindGroup, BindGroupLayout};
pub use buffer::{Buffer, BufferBinding, BufferUsage};
pub use command_buffer::{
    Command, CommandBuffer, CommandList, Phase, Queue, RecordError, RecorderState,
};
pub use framebuffer::{Framebuffer, RenderTarget};
pub use pipeline::{Pipeline, PipelineDescriptor};
pub use render::{
    BindError, DeviceProbe, DeviceState, FrameError, PipelineError, PresentMode, Render,
    ResourceKind, ShaderError, StartupError, SurfaceConfig, WriteError,
};
pub use shader::{Shader, ShaderModule};
pub use shader_layout::{ShaderAttribute, ShaderAttributeType, ShaderLayout};
pub use window::{Window, WindowEvent};
