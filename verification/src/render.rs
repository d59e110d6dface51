//! The graphics device: the surface and its configuration, the handles of
//! everything created on the device, and the acquire and present steps of
//! a frame.

use vstd::prelude::*;
use core::ops::Range;
use wgpu::PresentMode as WgpuPresentMode;
use crate::bind_group::{BindGroup, BindGroupLayout};
use crate::buffer::{overwritten, Buffer, BufferUsage};
use crate::command_buffer::{Command, CommandBuffer, Queue, RecordError};
use crate::framebuffer::{Framebuffer, RenderTarget};
use crate::pipeline::{Pipeline, PipelineDescriptor};
use crate::shader::{Shader, ShaderModule};
use crate::shader_layout::{packed_size, packed_table, ShaderAttribute, ShaderLayout};
use crate::window::Window;

verus! {

/// `wgpu::PresentMode`: the backend's present modes, with the three
/// variants it defines.
#[verifier::external_type_specification]
pub struct ExWgpuPresentMode(WgpuPresentMode);

/// `wgpu::SurfaceError`: why the surface handed out no image, with the
/// four variants the backend defines.
#[verifier::external_type_specification]
pub struct ExSurfaceError(wgpu::SurfaceError);

/// `wgpu::TextureUsages`: a set of usage flags. Nothing is known of what a
/// value holds.
#[verifier::external_type_specification]
#[verifier::external_body]
pub struct ExTextureUsages(wgpu::TextureUsages);

/// `wgpu::SurfaceConfiguration`: what a surface is configured with, with
/// the five fields the backend defines.
#[verifier::external_type_specification]
pub struct ExSurfaceConfiguration(wgpu::SurfaceConfiguration);

/// The policy by which a finished frame reaches the display.
#[derive(Clone, Copy, Debug, PartialEq, Eq, Structural)]
pub enum PresentMode {
    /// No waiting; tearing may be seen.
    Immediate,
    /// Wait for the vertical blank; bounded latency.
    Fifo,
    /// Replace the pending frame; no tearing, lowest added latency.
    Mailbox,
}

impl PresentMode {
    /// The backend's name for the mode.
    pub open spec fn wgpu_mode(self) -> WgpuPresentMode {
        match self {
            PresentMode::Immediate => WgpuPresentMode::Immediate,
            PresentMode::Fifo => WgpuPresentMode::Fifo,
            PresentMode::Mailbox => WgpuPresentMode::Mailbox,
        }
    }

    pub fn to_wgpu(&self) -> (mode: WgpuPresentMode)
        ensures
            mode == self.wgpu_mode(),
    {
        match self {
            PresentMode::Immediate => WgpuPresentMode::Immediate,
            PresentMode::Fifo => WgpuPresentMode::Fifo,
            PresentMode::Mailbox => WgpuPresentMode::Mailbox,
        }
    }
}

/// What the platform answered when the device was set up.
#[derive(Clone, Copy, Debug)]
pub struct DeviceProbe {
    /// A compatible adapter was found.
    pub adapter_found: bool,
    /// The adapter granted a device and a queue.
    pub device_granted: bool,
    /// The pixel format negotiated for the surface, where there is one.
    pub preferred_format: Option<wgpu::TextureFormat>,
}

/// Why no device could be set up. None of these can be recovered from.
#[derive(Clone, Copy, Debug, PartialEq, Eq, Structural)]
pub enum StartupError {
    NoAdapter,
    NoDevice,
    NoSurfaceFormat,
}

/// Why bytecode was refused.
#[derive(Clone, Copy, Debug, PartialEq, Eq, Structural)]
pub enum ShaderError {
    /// The vertex bytecode is not a whole, positive number of words.
    InvalidVertexBytecode,
    /// The fragment bytecode is not a whole, positive number of words.
    InvalidFragmentBytecode,
}

/// Why no pipeline was built.
#[derive(Clone, Copy, Debug, PartialEq, Eq, Structural)]
pub enum PipelineError {
    /// The pipeline writes to the surface and the shader has no fragment
    /// stage.
    MissingFragmentStage,
}

/// Why no bind group was made.
#[derive(Clone, Copy, Debug, PartialEq, Eq, Structural)]
pub enum BindError {
    /// The buffer holds fewer bytes than the layout's slot expects.
    BufferTooSmall,
}

/// Why a buffer was not written.
#[derive(Clone, Copy, Debug, PartialEq, Eq, Structural)]
pub enum WriteError {
    /// Only uniform buffers can be written after creation.
    NotUniform,
    /// More bytes than the buffer holds.
    TooLarge,
}

/// Why no frame was acquired. Each of these means that the frame is
/// skipped; the device stays as it was and the next frame can be tried.
#[derive(Clone, Copy, Debug, PartialEq, Eq, Structural)]
pub enum FrameError {
    /// A frame was acquired before and has not been presented.
    FrameInFlight,
    /// The surface is not configured for the size the window has now.
    Outdated,
    /// The platform did not hand out an image in time.
    Timeout,
    /// The platform lost the surface.
    Lost,
    /// The platform had no memory for the image.
    OutOfMemory,
}

/// What a handle of the device stands for.
#[derive(Clone, Copy, Debug, PartialEq, Eq, Structural)]
pub enum ResourceKind {
    ShaderModule,
    VertexBuffer,
    IndexBuffer,
    UniformBuffer,
    BindGroupLayout,
    BindGroup,
    Pipeline,
}

/// How the surface is configured.
#[derive(Clone, Copy, Debug, PartialEq, Eq)]
pub struct SurfaceConfig {
    pub width: u32,
    pub height: u32,
    pub format: wgpu::TextureFormat,
    pub present_mode: PresentMode,
}

/// The device as contracts see it.
pub struct DeviceState {
    /// The configuration of the surface.
    pub config: SurfaceConfig,
    /// Width and height of the window's drawable area, as last reported.
    pub drawable: (u32, u32),
    /// The target of the frame that is acquired and not yet presented.
    pub active_frame: Option<RenderTarget>,
    /// The kind of every resource created, by handle.
    pub resources: Seq<ResourceKind>,
    /// The command buffers submitted and not yet taken by the backend,
    /// oldest first.
    pub submitted: Seq<Seq<Command>>,
}

/// Bytecode comes in 32-bit words, and at least one.
pub open spec fn framed(code: Seq<u8>) -> bool {
    code.len() > 0 && code.len() % 4 == 0
}

/// The render target that a surface configured as `config` hands out.
pub open spec fn target_of(config: SurfaceConfig) -> RenderTarget {
    RenderTarget { width: config.width, height: config.height, format: config.format }
}

/// What the platform's refusal of an image means for the frame.
pub open spec fn refusal(error: wgpu::SurfaceError) -> FrameError {
    match error {
        wgpu::SurfaceError::Timeout => FrameError::Timeout,
        wgpu::SurfaceError::Outdated => FrameError::Outdated,
        wgpu::SurfaceError::Lost => FrameError::Lost,
        wgpu::SurfaceError::OutOfMemory => FrameError::OutOfMemory,
    }
}

/// What asking for a frame gives on a device in state `state`, where the
/// platform answered `acquired`: the error, or none where the frame is
/// handed out.
pub open spec fn acquire_outcome(
    state: DeviceState,
    acquired: Result<(), wgpu::SurfaceError>,
) -> Option<FrameError> {
    if state.active_frame is Some {
        Some(FrameError::FrameInFlight)
    } else if state.drawable != (state.config.width, state.config.height) {
        Some(FrameError::Outdated)
    } else {
        match acquired {
            Ok(_) => None,
            Err(error) => Some(refusal(error)),
        }
    }
}

/// The device after the surface was configured for `width` by `height`
/// pixels and `present_mode`: only those three change.
pub open spec fn after_reconfigure(
    state: DeviceState,
    width: i32,
    height: i32,
    present_mode: PresentMode,
) -> DeviceState {
    DeviceState {
        config: SurfaceConfig {
            width: width as u32,
            height: height as u32,
            format: state.config.format,
            present_mode,
        },
        ..state
    }
}

/// The device after the window reported a drawable area of `width` by
/// `height` pixels.
pub open spec fn after_resize(state: DeviceState, width: i32, height: i32) -> DeviceState {
    DeviceState { drawable: (width as u32, height as u32), ..state }
}

/// The device after a frame was asked for: with the frame in flight where
/// it was handed out, unchanged where it was not.
pub open spec fn after_acquire(
    state: DeviceState,
    acquired: Result<(), wgpu::SurfaceError>,
) -> DeviceState {
    if acquire_outcome(state, acquired) is None {
        DeviceState { active_frame: Some(target_of(state.config)), ..state }
    } else {
        state
    }
}

/// The device after a frame was presented: no frame is in flight.
pub open spec fn after_present(state: DeviceState) -> DeviceState {
    DeviceState { active_frame: None, ..state }
}

/// While a frame is in flight no second one is handed out, and presenting
/// it leaves the device as it was before the frame was acquired.
pub proof fn lemma_present_ends_the_frame(
    state: DeviceState,
    acquired: Result<(), wgpu::SurfaceError>,
)
    requires
        state.active_frame is None,
    ensures
        acquire_outcome(state, acquired) is None ==> acquire_outcome(
            after_acquire(state, acquired),
            Ok(()),
        ) == Some(FrameError::FrameInFlight),
        after_present(after_acquire(state, acquired)) == state,
{
}

/// Once the surface is configured for `width` by `height` pixels, every
/// frame handed out while that configuration stands has a target of
/// exactly that size, whatever the present mode, and of the pixel format
/// the device had before.
pub proof fn lemma_frame_follows_configuration(
    before: DeviceState,
    width: i32,
    height: i32,
    present_mode: PresentMode,
    later: DeviceState,
    acquired: Result<(), wgpu::SurfaceError>,
)
    requires
        later.config == after_reconfigure(before, width, height, present_mode).config,
        acquire_outcome(later, acquired) is None,
    ensures
        after_acquire(later, acquired).active_frame == Some(
            RenderTarget {
                width: width as u32,
                height: height as u32,
                format: before.config.format,
            },
        ),
        after_reconfigure(before, width, height, present_mode).config.format
            == before.config.format,
{
}

/// After the window changed its size no frame is handed out until the
/// surface is configured for the new size; once it is, and no frame is in
/// flight, the platform's answer alone decides.
pub proof fn lemma_resize_needs_reconfigure(
    before: DeviceState,
    width: i32,
    height: i32,
    present_mode: PresentMode,
    acquired: Result<(), wgpu::SurfaceError>,
)
    requires
        before.active_frame is None,
        (width as u32, height as u32) != (before.config.width, before.config.height),
    ensures
        acquire_outcome(after_resize(before, width, height), acquired) == Some(
            FrameError::Outdated,
        ),
        after_acquire(after_resize(before, width, height), acquired) == after_resize(
            before,
            width,
            height,
        ),
        acquire_outcome(
            after_reconfigure(after_resize(before, width, height), width, height, present_mode),
            Ok(()),
        ) is None,
{
}

/// The commands of a frame with one draw: the pass is opened on `target`
/// with `pipeline`, the vertex buffer is bound, then the index buffer and
/// the bind group where there are any, the draw over `range` is issued,
/// indexed where there is an index buffer, and the pass is closed.
pub open spec fn frame_log(
    target: RenderTarget,
    pipeline: usize,
    vertices: usize,
    indices: Option<usize>,
    resources: Option<usize>,
    range: Range<u32>,
) -> Seq<Command> {
    let opened = seq![
        Command::BeginPass { target, pipeline },
        Command::SetVertexBuffer { slot: 0, buffer: vertices },
    ];
    let indexed = match indices {
        Some(buffer) => opened.push(Command::SetIndexBuffer { buffer }),
        None => opened,
    };
    let bound = match resources {
        Some(group) => indexed.push(Command::SetBindGroup { slot: 0, group }),
        None => indexed,
    };
    let draw = match indices {
        Some(_) => Command::DrawIndexed { first: range.start, end: range.end },
        None => Command::Draw { first: range.start, end: range.end },
    };
    bound.push(draw).push(Command::EndPass)
}

/// The usage of a surface's images: render attachments. This is
/// `wgpu::TextureUsages::RENDER_ATTACHMENT`, a constant of the backend;
/// nothing is claimed of it.
#[verifier::external_body]
fn render_attachment() -> (usage: wgpu::TextureUsages) {
    wgpu::TextureUsages::RENDER_ATTACHMENT
}

/// The one graphics device of a window.
#[derive(Debug)]
pub struct Render {
    config: SurfaceConfig,
    drawable: (u32, u32),
    active_frame: Option<RenderTarget>,
    resources: Vec<ResourceKind>,
    queue: Queue,
}

impl View for Render {
    type V = DeviceState;

    closed spec fn view(&self) -> DeviceState {
        DeviceState {
            config: self.config,
            drawable: self.drawable,
            active_frame: self.active_frame,
            resources: self.resources@,
            submitted: self.queue@,
        }
    }
}

impl Render {
    /// Sets the device up for `window`, at the size it has, from what the
    /// platform answered. Without an adapter, a device or a
    /// surface format there is no device.
    pub fn new(window: &Window, present_mode: PresentMode, probe: DeviceProbe) -> (made: Result<
        Render,
        StartupError,
    >)
        ensures
            !probe.adapter_found ==> made == Err::<Render, StartupError>(StartupError::NoAdapter),
            probe.adapter_found && !probe.device_granted ==> made == Err::<Render, StartupError>(
                StartupError::NoDevice,
            ),
            probe.adapter_found && probe.device_granted && probe.preferred_format is None ==> made
                == Err::<Render, StartupError>(StartupError::NoSurfaceFormat),
            probe.adapter_found && probe.device_granted && probe.preferred_format is Some ==> {
                &&& made is Ok
                &&& made->Ok_0@ == (DeviceState {
                    config: SurfaceConfig {
                        width: window.width as u32,
                        height: window.height as u32,
                        format: probe.preferred_format->Some_0,
                        present_mode,
                    },
                    drawable: (window.width as u32, window.height as u32),
                    active_frame: None,
                    resources: Seq::empty(),
                    submitted: Seq::empty(),
                })
            },
    {
        if !probe.adapter_found {
            return Err(StartupError::NoAdapter);
        }
        if !probe.device_granted {
            return Err(StartupError::NoDevice);
        }
        match probe.preferred_format {
            None => Err(StartupError::NoSurfaceFormat),
            Some(format) => {
                let w = #[verifier::truncate] (window.width as u32);
                let h = #[verifier::truncate] (window.height as u32);
                Ok(
                    Render {
                        config: SurfaceConfig { width: w, height: h, format, present_mode },
                        drawable: (w, h),
                        active_frame: None,
                        resources: Vec::new(),
                        queue: Queue::new(),
                    },
                )
            },
        }
    }

    /// The configuration of the surface.
    pub fn surface_config(&self) -> (config: SurfaceConfig)
        ensures
            config == self@.config,
    {
        self.config
    }

    /// The configuration of the surface in the backend's terms: the size,
    /// format and present mode that the device holds.
    pub fn surface_configuration(&self) -> (config: wgpu::SurfaceConfiguration)
        ensures
            config.width == self@.config.width,
            config.height == self@.config.height,
            config.format == self@.config.format,
            config.present_mode == self@.config.present_mode.wgpu_mode(),
    {
        wgpu::SurfaceConfiguration {
            usage: render_attachment(),
            format: self.config.format,
            width: self.config.width,
            height: self.config.height,
            present_mode: self.config.present_mode.to_wgpu(),
        }
    }

    /// The command queue of the device, to submit to or to take from.
    pub fn queue(&mut self) -> (queue: &mut Queue)
        ensures
            queue@ == old(self)@.submitted,
            final(self)@ == (DeviceState { submitted: final(queue)@, ..old(self)@ }),
    {
        &mut self.queue
    }

    /// Whether a frame is acquired and not yet presented.
    pub fn frame_in_flight(&self) -> (active: bool)
        ensures
            active == (self@.active_frame is Some),
    {
        self.active_frame.is_some()
    }

    /// How many resources were created on the device.
    pub fn resource_count(&self) -> (count: usize)
        ensures
            count == self@.resources.len(),
    {
        self.resources.len()
    }

    /// What the handle `id` stands for.
    pub fn resource_kind(&self, id: usize) -> (kind: Option<ResourceKind>)
        ensures
            id < self@.resources.len() ==> kind == Some(self@.resources[id as int]),
            id >= self@.resources.len() ==> kind is None,
    {
        if id < self.resources.len() {
            Some(self.resources[id])
        } else {
            None
        }
    }

    /// Lays out `attrs`, in the order given, for pipelines of this device.
    pub fn create_shader_layout<const T: usize>(&self, attrs: [ShaderAttribute; T]) -> (layout:
        ShaderLayout<T>)
        requires
            16 * T <= usize::MAX,
        ensures
            layout@ == attrs@,
            layout@.len() == T,
    {
        ShaderLayout::new(self, attrs)
    }

    /// Makes a shader of a vertex stage and, where `fragment_shader` is
    /// given, a fragment stage. Bytecode that is not a whole, positive
    /// number of 32-bit words is refused and nothing is created.
    pub fn create_shader(&mut self, vertex_shader: &[u8], fragment_shader: Option<&[u8]>) -> (made:
        Result<Shader, ShaderError>)
        ensures
            !framed(vertex_shader@) ==> made == Err::<Shader, ShaderError>(
                ShaderError::InvalidVertexBytecode,
            ) && final(self)@ == old(self)@,
            framed(vertex_shader@) && fragment_shader is Some && !framed(fragment_shader->Some_0@)
                ==> made == Err::<Shader, ShaderError>(ShaderError::InvalidFragmentBytecode)
                && final(self)@ == old(self)@,
            framed(vertex_shader@) && fragment_shader is None ==> {
                &&& made is Ok
                &&& made->Ok_0.vert@ == vertex_shader@
                &&& made->Ok_0.vert.handle() == old(self)@.resources.len()
                &&& made->Ok_0.frag is None
                &&& final(self)@ == (DeviceState {
                    resources: old(self)@.resources.push(ResourceKind::ShaderModule),
                    ..old(self)@
                })
            },
            framed(vertex_shader@) && fragment_shader is Some && framed(fragment_shader->Some_0@)
                ==> {
                &&& made is Ok
                &&& made->Ok_0.vert@ == vertex_shader@
                &&& made->Ok_0.vert.handle() == old(self)@.resources.len()
                &&& made->Ok_0.frag is Some
                &&& made->Ok_0.frag->Some_0@ == fragment_shader->Some_0@
                &&& made->Ok_0.frag->Some_0.handle() == old(self)@.resources.len() + 1
                &&& final(self)@ == (DeviceState {
                    resources: old(self)@.resources.push(ResourceKind::ShaderModule).push(
                        ResourceKind::ShaderModule,
                    ),
                    ..old(self)@
                })
            },
    {
        if !is_framed(vertex_shader) {
            return Err(ShaderError::InvalidVertexBytecode);
        }
        match fragment_shader {
            None => {
                let id = self.issue(ResourceKind::ShaderModule);
                Ok(Shader::new(ShaderModule::new(id, vertex_shader), None))
            },
            Some(code) => {
                if !is_framed(code) {
                    return Err(ShaderError::InvalidFragmentBytecode);
                }
                let vert = self.issue(ResourceKind::ShaderModule);
                let frag = self.issue(ResourceKind::ShaderModule);
                Ok(
                    Shader::new(
                        ShaderModule::new(vert, vertex_shader),
                        Some(ShaderModule::new(frag, code)),
                    ),
                )
            },
        }
    }

    /// Builds a pipeline that reads vertices as `layout` packs them, runs
    /// `shader` and writes the surface's pixel format. A pipeline writes
    /// to the surface, so a shader without a fragment stage is refused
    /// and nothing is created.
    pub fn create_pipeline<const T: usize>(
        &mut self,
        layout: &ShaderLayout<T>,
        shader: &Shader,
        bind_group_layout: Option<&BindGroupLayout>,
    ) -> (made: Result<Pipeline, PipelineError>)
        ensures
            shader.frag is None ==> made == Err::<Pipeline, PipelineError>(
                PipelineError::MissingFragmentStage,
            ) && final(self)@ == old(self)@,
            shader.frag is Some ==> {
                &&& made is Ok
                &&& made->Ok_0.handle() == old(self)@.resources.len()
                &&& made->Ok_0.vertex_module() == shader.vert.handle()
                &&& made->Ok_0.fragment_module() == shader.frag->Some_0.handle()
                &&& made->Ok_0.bind_group_layout() == match bind_group_layout {
                    Some(l) => Some(l.id),
                    None => None,
                }
                &&& made->Ok_0.stride() == packed_size(layout@)
                &&& made->Ok_0.attributes() == packed_table(layout@)
                &&& made->Ok_0.target_format() == old(self)@.config.format
                &&& final(self)@ == (DeviceState {
                    resources: old(self)@.resources.push(ResourceKind::Pipeline),
                    ..old(self)@
                })
            },
    {
        match &shader.frag {
            None => Err(PipelineError::MissingFragmentStage),
            Some(fragment) => {
                let (stride, table) = layout.wgpu_attributes();
                let mut attributes: Vec<wgpu::VertexAttribute> = Vec::new();
                let mut i: usize = 0;
                while i < T
                    invariant
                        i <= T,
                        table@.len() == T,
                        attributes@ == table@.take(i as int),
                    decreases T - i,
                {
                    attributes.push(table[i]);
                    assert(table@.take(i + 1) =~= table@.take(i as int).push(table@[i as int]));
                    i += 1;
                }
                assert(table@.take(T as int) =~= table@);
                let descriptor = PipelineDescriptor {
                    vertex_module: shader.vert.id(),
                    fragment_module: fragment.id(),
                    bind_group_layout: match bind_group_layout {
                        Some(l) => Some(l.id),
                        None => None,
                    },
                    stride: stride as u64,
                    attributes,
                    target_format: self.config.format,
                };
                let id = self.issue(ResourceKind::Pipeline);
                Ok(Pipeline::new(id, descriptor))
            },
        }
    }

    /// Opens a recorder for one frame's commands.
    pub fn start_commands<'a>(&self) -> (recorder: CommandBuffer<'a>)
        ensures
            recorder@ == Seq::<Command>::empty(),
    {
        CommandBuffer::begin(self)
    }

    /// Records one frame with one draw and submits it: exactly one command
    /// buffer goes to the queue. A vertex or index buffer made for another
    /// use is refused, and then nothing is submitted.
    pub fn record_frame(
        &mut self,
        framebuffer: &Framebuffer,
        pipeline: &Pipeline,
        vertices: &Buffer,
        indices: Option<&Buffer>,
        resources: Option<&BindGroup>,
        range: Range<u32>,
    ) -> (done: Result<(), RecordError>)
        ensures
            vertices.usage() != BufferUsage::Vertex || (indices is Some
                && indices->Some_0.usage() != BufferUsage::Index) ==> done == Err::<
                (),
                RecordError,
            >(RecordError::WrongBufferKind) && final(self)@ == old(self)@,
            vertices.usage() == BufferUsage::Vertex && (indices is Some
                ==> indices->Some_0.usage() == BufferUsage::Index) ==> done is Ok && final(self)@
                == (DeviceState {
                submitted: old(self)@.submitted.push(
                    frame_log(
                        framebuffer.target,
                        pipeline.handle(),
                        vertices.handle(),
                        match indices {
                            Some(buffer) => Some(buffer.handle()),
                            None => None,
                        },
                        match resources {
                            Some(group) => Some(group.id),
                            None => None,
                        },
                        range,
                    ),
                ),
                ..old(self)@
            }),
    {
        let begun = self.start_commands();
        let ghost empty = begun@;
        let configured = match begun.configure_draw(pipeline, framebuffer) {
            Ok(next) => next,
            Err(error) => {
                return Err(error);
            },
        };
        let ghost opened = configured@;
        proof {
            assert(opened.drop_last() =~= empty);
        }
        let with_vertices = match configured.set_vertices(vertices) {
            Ok(next) => next,
            Err(error) => {
                return Err(error);
            },
        };
        let ghost bound_vertices = with_vertices@;
        proof {
            assert(bound_vertices.drop_last() =~= opened);
        }
        let with_indices = match indices {
            Some(buffer) => match with_vertices.set_indices(buffer) {
                Ok(next) => next,
                Err(error) => {
                    return Err(error);
                },
            },
            None => with_vertices,
        };
        let ghost bound_indices = with_indices@;
        proof {
            if indices is Some {
                assert(bound_indices.drop_last() =~= bound_vertices);
            }
        }
        let with_resources = match resources {
            Some(group) => match with_indices.bind_resources(group) {
                Ok(next) => next,
                Err(error) => {
                    return Err(error);
                },
            },
            None => with_indices,
        };
        let ghost bound_all = with_resources@;
        proof {
            if resources is Some {
                assert(bound_all.drop_last() =~= bound_indices);
            }
        }
        let drawn = match with_resources.draw(range) {
            Ok(next) => next,
            Err(error) => {
                return Err(error);
            },
        };
        proof {
            assert(drawn@.drop_last() =~= bound_all);
            assert(drawn@.push(Command::EndPass) =~= frame_log(
                framebuffer.target,
                pipeline.handle(),
                vertices.handle(),
                match indices {
                    Some(buffer) => Some(buffer.handle()),
                    None => None,
                },
                match resources {
                    Some(group) => Some(group.id),
                    None => None,
                },
                range,
            ));
        }
        drawn.submit(&mut self.queue);
        Ok(())
    }

    /// Takes note that the window's drawable area is now `width` by
    /// `height` pixels. Until the surface is configured for that size no
    /// frame is handed out. A negative size wraps as a cast to `u32` does.
    pub fn resized(&mut self, width: i32, height: i32)
        ensures
            final(self)@ == after_resize(old(self)@, width, height),
    {
        let w = #[verifier::truncate] (width as u32);
        let h = #[verifier::truncate] (height as u32);
        self.drawable = (w, h);
    }

    /// Configures the surface for `width` by `height` pixels and
    /// `present_mode`. The pixel format stays what was negotiated when
    /// the device was set up, and a frame in flight keeps its target.
    /// A negative size wraps as a cast to `u32` does.
    pub fn reconfigure(&mut self, width: i32, height: i32, present_mode: PresentMode)
        ensures
            final(self)@ == after_reconfigure(old(self)@, width, height, present_mode),
    {
        self.config = SurfaceConfig {
            width: #[verifier::truncate] (width as u32),
            height: #[verifier::truncate] (height as u32),
            format: self.config.format,
            present_mode,
        };
    }

    /// Asks for the next frame, given the platform's answer `acquired` to
    /// the request for an image. The frame is handed out where no frame
    /// is in flight, the surface is configured for the window's size and
    /// the platform gave an image; its target then has the configured
    /// size and format. Otherwise the frame is skipped and the device
    /// stays as it was.
    pub fn get_presentation_framebuffer(
        &mut self,
        acquired: Result<(), wgpu::SurfaceError>,
    ) -> (frame: Result<Framebuffer, FrameError>)
        ensures
            final(self)@ == after_acquire(old(self)@, acquired),
            match acquire_outcome(old(self)@, acquired) {
                Some(error) => frame == Err::<Framebuffer, FrameError>(error),
                None => frame is Ok && frame->Ok_0.target == target_of(old(self)@.config),
            },
    {
        if self.active_frame.is_some() {
            return Err(FrameError::FrameInFlight);
        }
        if self.drawable.0 != self.config.width || self.drawable.1 != self.config.height {
            return Err(FrameError::Outdated);
        }
        match acquired {
            Err(error) => Err(
                match error {
                    wgpu::SurfaceError::Timeout => FrameError::Timeout,
                    wgpu::SurfaceError::Outdated => FrameError::Outdated,
                    wgpu::SurfaceError::Lost => FrameError::Lost,
                    wgpu::SurfaceError::OutOfMemory => FrameError::OutOfMemory,
                },
            ),
            Ok(_) => {
                let target = RenderTarget {
                    width: self.config.width,
                    height: self.config.height,
                    format: self.config.format,
                };
                self.active_frame = Some(target);
                Ok(Framebuffer::new(target))
            },
        }
    }

    /// Takes `framebuffer` back and hands the frame in flight to the
    /// display; says whether there was one. A framebuffer is used up by
    /// this, so nothing can be drawn to it afterwards. With no frame in
    /// flight nothing happens.
    #[allow(unused_variables)]
    pub fn present(&mut self, framebuffer: Framebuffer) -> (presented: bool)
        ensures
            presented == (old(self)@.active_frame is Some),
            final(self)@ == after_present(old(self)@),
    {
        let presented = self.active_frame.is_some();
        self.active_frame = None;
        presented
    }

    fn create_buffer(&mut self, data: &[u8], usage: BufferUsage) -> (buffer: Buffer)
        ensures
            buffer@ == data@,
            buffer.usage() == usage,
            buffer.handle() == old(self)@.resources.len(),
            final(self)@ == (DeviceState {
                resources: old(self)@.resources.push(buffer_kind(usage)),
                ..old(self)@
            }),
    {
        let kind = match usage {
            BufferUsage::Vertex => ResourceKind::VertexBuffer,
            BufferUsage::Index => ResourceKind::IndexBuffer,
            BufferUsage::Uniform => ResourceKind::UniformBuffer,
        };
        let id = self.issue(kind);
        Buffer::new(id, usage, data)
    }

    /// Makes a vertex buffer that holds a copy of `data`.
    pub fn create_vertex_buffer(&mut self, data: &[u8]) -> (buffer: Buffer)
        ensures
            buffer@ == data@,
            buffer.usage() == BufferUsage::Vertex,
            buffer.handle() == old(self)@.resources.len(),
            final(self)@ == (DeviceState {
                resources: old(self)@.resources.push(ResourceKind::VertexBuffer),
                ..old(self)@
            }),
    {
        self.create_buffer(data, BufferUsage::Vertex)
    }

    /// Makes an index buffer that holds a copy of `data`.
    pub fn create_index_buffer(&mut self, data: &[u8]) -> (buffer: Buffer)
        ensures
            buffer@ == data@,
            buffer.usage() == BufferUsage::Index,
            buffer.handle() == old(self)@.resources.len(),
            final(self)@ == (DeviceState {
                resources: old(self)@.resources.push(ResourceKind::IndexBuffer),
                ..old(self)@
            }),
    {
        self.create_buffer(data, BufferUsage::Index)
    }

    /// Makes a uniform buffer that holds a copy of `data`.
    pub fn create_uniforms(&mut self, data: &[u8]) -> (buffer: Buffer)
        ensures
            buffer@ == data@,
            buffer.usage() == BufferUsage::Uniform,
            buffer.handle() == old(self)@.resources.len(),
            final(self)@ == (DeviceState {
                resources: old(self)@.resources.push(ResourceKind::UniformBuffer),
                ..old(self)@
            }),
    {
        self.create_buffer(data, BufferUsage::Uniform)
    }

    /// Makes a bind group layout whose slot 0 expects `binding_size`
    /// bytes.
    pub fn create_bind_group_layout(&mut self, binding_size: u64) -> (layout: BindGroupLayout)
        ensures
            layout == (BindGroupLayout { id: old(self)@.resources.len() as usize, binding_size }),
            final(self)@ == (DeviceState {
                resources: old(self)@.resources.push(ResourceKind::BindGroupLayout),
                ..old(self)@
            }),
    {
        let id = self.issue(ResourceKind::BindGroupLayout);
        BindGroupLayout { id, binding_size }
    }

    /// Binds the whole of `buffer` to slot 0 of `layout`. A buffer that
    /// holds fewer bytes than the slot expects is refused and nothing is
    /// created.
    pub fn create_bind_group(&mut self, layout: &BindGroupLayout, buffer: &Buffer) -> (made: Result<
        BindGroup,
        BindError,
    >)
        ensures
            buffer@.len() < layout.binding_size ==> made == Err::<BindGroup, BindError>(
                BindError::BufferTooSmall,
            ) && final(self)@ == old(self)@,
            buffer@.len() >= layout.binding_size ==> {
                &&& made == Ok::<BindGroup, BindError>(
                    BindGroup {
                        id: old(self)@.resources.len() as usize,
                        layout: layout.id,
                        binding: buffer.whole(),
                    },
                )
                &&& final(self)@ == (DeviceState {
                    resources: old(self)@.resources.push(ResourceKind::BindGroup),
                    ..old(self)@
                })
            },
    {
        if (buffer.len() as u64) < layout.binding_size {
            Err(BindError::BufferTooSmall)
        } else {
            let id = self.issue(ResourceKind::BindGroup);
            Ok(BindGroup { id, layout: layout.id, binding: buffer.binding_resource() })
        }
    }

    /// Writes `data` over the start of a uniform buffer. A buffer of
    /// another usage, or more bytes than the buffer holds, is refused and
    /// the buffer stays as it was.
    pub fn write_buffer(&self, buffer: &mut Buffer, data: &[u8]) -> (written: Result<
        (),
        WriteError,
    >)
        ensures
            final(buffer).handle() == old(buffer).handle(),
            final(buffer).usage() == old(buffer).usage(),
            final(buffer)@.len() == old(buffer)@.len(),
            old(buffer).usage() != BufferUsage::Uniform ==> written == Err::<(), WriteError>(
                WriteError::NotUniform,
            ) && final(buffer)@ == old(buffer)@,
            old(buffer).usage() == BufferUsage::Uniform && data@.len() > old(buffer)@.len()
                ==> written == Err::<(), WriteError>(WriteError::TooLarge) && final(buffer)@ == old(
                buffer,
            )@,
            old(buffer).usage() == BufferUsage::Uniform && data@.len() <= old(buffer)@.len()
                ==> written is Ok && final(buffer)@ == overwritten(old(buffer)@, data@),
    {
        match buffer.kind() {
            BufferUsage::Uniform => {
                if data.len() > buffer.len() {
                    Err(WriteError::TooLarge)
                } else {
                    buffer.overwrite(data);
                    Ok(())
                }
            },
            _ => Err(WriteError::NotUniform),
        }
    }

    fn issue(&mut self, kind: ResourceKind) -> (id: usize)
        ensures
            id == old(self)@.resources.len(),
            final(self)@ == (DeviceState {
                resources: old(self)@.resources.push(kind),
                ..old(self)@
            }),
    {
        let id = self.resources.len();
        self.resources.push(kind);
        id
    }
}

/// The resource kind of a buffer of usage `usage`.
pub open spec fn buffer_kind(usage: BufferUsage) -> ResourceKind {
    match usage {
        BufferUsage::Vertex => ResourceKind::VertexBuffer,
        BufferUsage::Index => ResourceKind::IndexBuffer,
        BufferUsage::Uniform => ResourceKind::UniformBuffer,
    }
}

fn is_framed(code: &[u8]) -> (ok: bool)
    ensures
        ok == framed(code@),
{
    code.len() > 0 && code.len() % 4 == 0
}

} // verus!
