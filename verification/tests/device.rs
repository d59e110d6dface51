use conc_render::{
    Buffer, BufferUsage, Command, Framebuffer, DeviceProbe, FrameError, PipelineError, PresentMode, RecordError, Render,
    RenderTarget, ResourceKind, ShaderAttribute, ShaderAttributeType, ShaderError, StartupError,
    SurfaceConfig, Window,
};

const FORMAT: wgpu::TextureFormat = wgpu::TextureFormat::Bgra8UnormSrgb;

fn ready() -> DeviceProbe {
    DeviceProbe { adapter_found: true, device_granted: true, preferred_format: Some(FORMAT) }
}

fn device() -> Render {
    Render::new(&Window::new(640, 480), PresentMode::Fifo, ready()).unwrap()
}

fn words(n: usize) -> Vec<u8> {
    let mut code = vec![0x03, 0x02, 0x23, 0x07];
    code.resize(4 * n, 0);
    code
}

#[test]
fn a_new_device_is_configured_for_the_window() {
    let render = device();
    assert_eq!(
        render.surface_config(),
        SurfaceConfig { width: 640, height: 480, format: FORMAT, present_mode: PresentMode::Fifo }
    );
    assert!(!render.frame_in_flight());
    assert_eq!(render.resource_count(), 0);
}

#[test]
fn startup_fails_without_adapter_device_or_format() {
    let no_adapter = DeviceProbe { adapter_found: false, ..ready() };
    let no_device = DeviceProbe { device_granted: false, ..ready() };
    let no_format = DeviceProbe { preferred_format: None, ..ready() };
    let nothing =
        DeviceProbe { adapter_found: false, device_granted: false, preferred_format: None };
    assert_eq!(
        Render::new(&Window::new(640, 480), PresentMode::Fifo, no_adapter).unwrap_err(),
        StartupError::NoAdapter
    );
    assert_eq!(
        Render::new(&Window::new(640, 480), PresentMode::Fifo, no_device).unwrap_err(),
        StartupError::NoDevice
    );
    assert_eq!(
        Render::new(&Window::new(640, 480), PresentMode::Fifo, no_format).unwrap_err(),
        StartupError::NoSurfaceFormat
    );
    assert_eq!(
        Render::new(&Window::new(640, 480), PresentMode::Fifo, nothing).unwrap_err(),
        StartupError::NoAdapter
    );
}

#[test]
fn present_modes_map_to_the_backend() {
    assert_eq!(PresentMode::Immediate.to_wgpu(), wgpu::PresentMode::Immediate);
    assert_eq!(PresentMode::Fifo.to_wgpu(), wgpu::PresentMode::Fifo);
    assert_eq!(PresentMode::Mailbox.to_wgpu(), wgpu::PresentMode::Mailbox);
}

#[test]
fn backend_configuration_mirrors_the_device() {
    let mut render = device();
    render.reconfigure(1024, 768, PresentMode::Mailbox);
    let config = render.surface_configuration();
    assert_eq!(config.usage, wgpu::TextureUsages::RENDER_ATTACHMENT);
    assert_eq!(config.format, FORMAT);
    assert_eq!(config.width, 1024);
    assert_eq!(config.height, 768);
    assert_eq!(config.present_mode, wgpu::PresentMode::Mailbox);
}

#[test]
fn reconfigure_changes_size_and_mode_but_never_the_format() {
    let mut render = device();
    for mode in [PresentMode::Immediate, PresentMode::Fifo, PresentMode::Mailbox] {
        render.reconfigure(800, 600, mode);
        assert_eq!(
            render.surface_config(),
            SurfaceConfig { width: 800, height: 600, format: FORMAT, present_mode: mode }
        );
    }
}

#[test]
fn frame_after_reconfigure_has_the_new_size() {
    let mut render = device();
    render.resized(800, 600);
    render.reconfigure(800, 600, PresentMode::Immediate);
    let frame = render.get_presentation_framebuffer(Ok(())).unwrap();
    assert_eq!(
        *frame.get_target(),
        RenderTarget { width: 800, height: 600, format: FORMAT }
    );
    assert!(render.frame_in_flight());
}

#[test]
fn negative_sizes_wrap_like_a_cast() {
    let mut render = device();
    render.reconfigure(-1, 0, PresentMode::Fifo);
    assert_eq!(render.surface_config().width, u32::MAX);
    assert_eq!(render.surface_config().height, 0);
}

#[test]
fn platform_refusals_skip_the_frame() {
    let mut render = device();
    let cases = [
        (wgpu::SurfaceError::Timeout, FrameError::Timeout),
        (wgpu::SurfaceError::Outdated, FrameError::Outdated),
        (wgpu::SurfaceError::Lost, FrameError::Lost),
        (wgpu::SurfaceError::OutOfMemory, FrameError::OutOfMemory),
    ];
    for (answer, expected) in cases {
        assert_eq!(
            render.get_presentation_framebuffer(Err(answer)).unwrap_err(),
            expected
        );
        assert!(!render.frame_in_flight());
    }
    assert!(render.get_presentation_framebuffer(Ok(())).is_ok());
}

#[test]
fn a_second_frame_waits_for_present() {
    let mut render = device();
    let first = render.get_presentation_framebuffer(Ok(())).unwrap();
    assert_eq!(
        render.get_presentation_framebuffer(Ok(())).unwrap_err(),
        FrameError::FrameInFlight
    );
    assert!(render.frame_in_flight());
    assert!(render.present(first));
    assert!(render.get_presentation_framebuffer(Ok(())).is_ok());
}

#[test]
fn present_with_nothing_acquired_does_nothing() {
    let mut render = device();
    let target = RenderTarget { width: 640, height: 480, format: FORMAT };
    assert!(!render.present(Framebuffer::new(target)));
    assert!(!render.frame_in_flight());
    assert!(!render.present(Framebuffer::new(target)));
    assert_eq!(render.surface_config().width, 640);
    assert!(render.get_presentation_framebuffer(Ok(())).is_ok());
}

#[test]
fn resize_without_reconfigure_skips_frames_until_reconfigured() {
    let mut render = device();
    let mut presented = 0;
    let mut skipped = 0;
    for frame in 0..6 {
        if frame == 2 {
            render.resized(800, 600);
        }
        if frame == 4 {
            render.reconfigure(800, 600, PresentMode::Fifo);
        }
        match render.get_presentation_framebuffer(Ok(())) {
            Ok(framebuffer) => {
                let expected = if frame < 2 { (640, 480) } else { (800, 600) };
                assert_eq!((framebuffer.target.width, framebuffer.target.height), expected);
                assert!(frame < 2 || frame >= 4);
                assert!(render.present(framebuffer));
                presented += 1;
            }
            Err(error) => {
                assert_eq!(error, FrameError::Outdated);
                assert!(frame == 2 || frame == 3);
                assert!(!render.frame_in_flight());
                skipped += 1;
            }
        }
    }
    assert_eq!(presented, 4);
    assert_eq!(skipped, 2);
}

#[test]
fn reconfigure_for_the_wrong_size_does_not_help() {
    let mut render = device();
    render.resized(800, 600);
    render.reconfigure(800, 601, PresentMode::Fifo);
    assert_eq!(
        render.get_presentation_framebuffer(Ok(())).unwrap_err(),
        FrameError::Outdated
    );
    render.reconfigure(800, 600, PresentMode::Fifo);
    assert!(render.get_presentation_framebuffer(Ok(())).is_ok());
}

#[test]
fn shader_takes_whole_words_only() {
    let mut render = device();
    assert_eq!(
        render.create_shader(&[], None).unwrap_err(),
        ShaderError::InvalidVertexBytecode
    );
    assert_eq!(
        render.create_shader(&words(5)[..19], Some(&words(5))).unwrap_err(),
        ShaderError::InvalidVertexBytecode
    );
    assert_eq!(
        render.create_shader(&words(5), Some(&words(5)[..18])).unwrap_err(),
        ShaderError::InvalidFragmentBytecode
    );
    assert_eq!(
        render.create_shader(&words(5), Some(&[])).unwrap_err(),
        ShaderError::InvalidFragmentBytecode
    );
    assert_eq!(render.resource_count(), 0);
}

#[test]
fn shader_keeps_its_bytecode() {
    let mut render = device();
    let both = render.create_shader(&words(5), Some(&words(6))).unwrap();
    assert_eq!(both.vert.id(), 0);
    assert_eq!(both.vert.code(), &words(5)[..]);
    let frag = both.frag.as_ref().unwrap();
    assert_eq!(frag.id(), 1);
    assert_eq!(frag.code(), &words(6)[..]);
    let vertex_only = render.create_shader(&words(7), None).unwrap();
    assert_eq!(vertex_only.vert.id(), 2);
    assert!(vertex_only.frag.is_none());
    assert_eq!(render.resource_count(), 3);
    assert_eq!(render.resource_kind(2), Some(ResourceKind::ShaderModule));
}

#[test]
fn pipeline_needs_a_fragment_stage() {
    let mut render = device();
    let layout = render.create_shader_layout([ShaderAttribute::new(ShaderAttributeType::Vec3, 0)]);
    let shader = render.create_shader(&words(5), None).unwrap();
    let before = render.resource_count();
    assert_eq!(
        render.create_pipeline(&layout, &shader, None).unwrap_err(),
        PipelineError::MissingFragmentStage
    );
    assert_eq!(render.resource_count(), before);
}

#[test]
fn pipeline_describes_the_layout_and_the_surface_format() {
    let mut render = device();
    let layout = render.create_shader_layout([
        ShaderAttribute::new(ShaderAttributeType::Vec3, 0),
        ShaderAttribute::new(ShaderAttributeType::Vec3, 1),
    ]);
    let shader = render.create_shader(&words(5), Some(&words(5))).unwrap();
    let bind_layout = render.create_bind_group_layout(80);
    let pipeline = render.create_pipeline(&layout, &shader, Some(&bind_layout)).unwrap();
    assert_eq!(pipeline.pipeline(), 3);
    assert_eq!(pipeline.vertex_stage(), 0);
    assert_eq!(pipeline.fragment_stage(), 1);
    assert_eq!(pipeline.layout(), Some(2));
    assert_eq!(pipeline.array_stride(), 24);
    assert_eq!(pipeline.format(), FORMAT);
    let table = pipeline.vertex_attributes();
    assert_eq!(table.len(), 2);
    assert_eq!(
        table[1],
        wgpu::VertexAttribute {
            format: wgpu::VertexFormat::Float32x3,
            offset: 12,
            shader_location: 1,
        }
    );
    assert_eq!(render.resource_kind(3), Some(ResourceKind::Pipeline));
    let plain = render.create_pipeline(&layout, &shader, None).unwrap();
    assert_eq!(plain.layout(), None);
    assert_eq!(plain.pipeline(), 4);
}

#[test]
fn one_frame_end_to_end() {
    let mut render = device();
    let vertices = render.create_vertex_buffer(&[0u8; 72]);
    let layout = render.create_shader_layout([
        ShaderAttribute::new(ShaderAttributeType::Vec3, 0),
        ShaderAttribute::new(ShaderAttributeType::Vec3, 1),
    ]);
    let shader = render.create_shader(&words(5), Some(&words(5))).unwrap();
    let pipeline = render.create_pipeline(&layout, &shader, None).unwrap();

    let framebuffer = render.get_presentation_framebuffer(Ok(())).unwrap();
    render
        .start_commands()
        .configure_draw(&pipeline, &framebuffer)
        .unwrap()
        .set_vertices(&vertices)
        .unwrap()
        .draw(0..3)
        .unwrap()
        .submit(render.queue());
    assert!(render.present(framebuffer));

    assert!(!render.frame_in_flight());
    let lists = render.queue().take_pending();
    assert_eq!(lists.len(), 1);
    assert_eq!(
        lists[0].commands(),
        &[
            Command::BeginPass {
                target: RenderTarget { width: 640, height: 480, format: FORMAT },
                pipeline: pipeline.pipeline(),
            },
            Command::SetVertexBuffer { slot: 0, buffer: vertices.get_buf() },
            Command::Draw { first: 0, end: 3 },
            Command::EndPass,
        ]
    );
    assert_eq!(render.queue().len(), 0);
}

#[test]
fn draw_before_configure_on_a_device_recorder_fails() {
    let render = device();
    assert_eq!(
        render.start_commands().draw(0..3).unwrap_err(),
        RecordError::PassNotOpen
    );
}

#[test]
fn record_frame_submits_one_indexed_draw() {
    let mut render = device();
    let vertices = render.create_vertex_buffer(&[0u8; 72]);
    let indices = render.create_index_buffer(&[0, 0, 1, 0, 2, 0]);
    let uniforms = render.create_uniforms(&[0u8; 80]);
    let bind_layout = render.create_bind_group_layout(80);
    let group = render.create_bind_group(&bind_layout, &uniforms).unwrap();
    let layout = render.create_shader_layout([
        ShaderAttribute::new(ShaderAttributeType::Vec3, 0),
        ShaderAttribute::new(ShaderAttributeType::Vec3, 1),
    ]);
    let shader = render.create_shader(&words(5), Some(&words(5))).unwrap();
    let pipeline = render.create_pipeline(&layout, &shader, Some(&bind_layout)).unwrap();
    let framebuffer = render.get_presentation_framebuffer(Ok(())).unwrap();

    let done = render.record_frame(
        &framebuffer,
        &pipeline,
        &vertices,
        Some(&indices),
        Some(&group),
        0..3,
    );
    assert_eq!(done, Ok(()));
    assert_eq!(render.queue().len(), 1);
    assert_eq!(
        render.queue().get(0).unwrap().commands(),
        &[
            Command::BeginPass {
                target: RenderTarget { width: 640, height: 480, format: FORMAT },
                pipeline: 7,
            },
            Command::SetVertexBuffer { slot: 0, buffer: 0 },
            Command::SetIndexBuffer { buffer: 1 },
            Command::SetBindGroup { slot: 0, group: 4 },
            Command::DrawIndexed { first: 0, end: 3 },
            Command::EndPass,
        ]
    );
    assert!(render.present(framebuffer));
}

#[test]
fn record_frame_without_indices_draws_vertices() {
    let mut render = device();
    let vertices = Buffer::new(11, BufferUsage::Vertex, &[0u8; 72]);
    let layout = render.create_shader_layout([ShaderAttribute::new(ShaderAttributeType::Vec3, 0)]);
    let shader = render.create_shader(&words(5), Some(&words(5))).unwrap();
    let pipeline = render.create_pipeline(&layout, &shader, None).unwrap();
    let framebuffer = render.get_presentation_framebuffer(Ok(())).unwrap();
    assert_eq!(
        render.record_frame(&framebuffer, &pipeline, &vertices, None, None, 2..5),
        Ok(())
    );
    assert_eq!(
        render.queue().get(0).unwrap().commands(),
        &[
            Command::BeginPass {
                target: RenderTarget { width: 640, height: 480, format: FORMAT },
                pipeline: 2,
            },
            Command::SetVertexBuffer { slot: 0, buffer: 11 },
            Command::Draw { first: 2, end: 5 },
            Command::EndPass,
        ]
    );
}

#[test]
fn record_frame_refuses_buffers_of_another_usage() {
    let mut render = device();
    let vertices = render.create_vertex_buffer(&[0u8; 72]);
    let indices = render.create_index_buffer(&[0, 0, 1, 0, 2, 0]);
    let layout = render.create_shader_layout([ShaderAttribute::new(ShaderAttributeType::Vec3, 0)]);
    let shader = render.create_shader(&words(5), Some(&words(5))).unwrap();
    let pipeline = render.create_pipeline(&layout, &shader, None).unwrap();
    let framebuffer = render.get_presentation_framebuffer(Ok(())).unwrap();
    assert_eq!(
        render.record_frame(&framebuffer, &pipeline, &indices, None, None, 0..3),
        Err(RecordError::WrongBufferKind)
    );
    assert_eq!(
        render.record_frame(&framebuffer, &pipeline, &vertices, Some(&vertices), None, 0..3),
        Err(RecordError::WrongBufferKind)
    );
    assert_eq!(render.queue().len(), 0);
}
