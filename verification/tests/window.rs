use conc_render::{DeviceProbe, FrameError, PresentMode, Render, Window, WindowEvent};

#[test]
fn a_new_window_is_open_and_unresized() {
    let window = Window::new(640, 480);
    assert_eq!(
        window,
        Window { should_close: false, did_resize: false, width: 640, height: 480 }
    );
}

#[test]
fn update_without_events_clears_the_resize_mark() {
    let mut window = Window { should_close: false, did_resize: true, width: 800, height: 600 };
    window.update(&[]);
    assert_eq!(
        window,
        Window { should_close: false, did_resize: false, width: 800, height: 600 }
    );
}

#[test]
fn resize_sets_size_and_mark() {
    let mut window = Window::new(640, 480);
    window.update(&[WindowEvent::Other, WindowEvent::Resized(800, 600)]);
    assert_eq!(
        window,
        Window { should_close: false, did_resize: true, width: 800, height: 600 }
    );
    window.update(&[WindowEvent::Other]);
    assert_eq!(
        window,
        Window { should_close: false, did_resize: false, width: 800, height: 600 }
    );
}

#[test]
fn the_last_resize_of_an_update_counts() {
    let mut window = Window::new(640, 480);
    window.update(&[
        WindowEvent::Resized(800, 600),
        WindowEvent::Quit,
        WindowEvent::Resized(1024, 768),
    ]);
    assert_eq!(
        window,
        Window { should_close: true, did_resize: true, width: 1024, height: 768 }
    );
}

#[test]
fn quit_is_never_taken_back() {
    let mut window = Window::new(640, 480);
    window.update(&[WindowEvent::Quit]);
    assert!(window.should_close);
    window.update(&[WindowEvent::Other, WindowEvent::Resized(10, 10)]);
    assert!(window.should_close);
}

#[test]
fn close_marks_the_window_only() {
    let mut window = Window::new(640, 480);
    window.close();
    assert_eq!(
        window,
        Window { should_close: true, did_resize: false, width: 640, height: 480 }
    );
}

#[test]
fn a_resized_window_drives_the_device() {
    let probe = DeviceProbe {
        adapter_found: true,
        device_granted: true,
        preferred_format: Some(wgpu::TextureFormat::Bgra8Unorm),
    };
    let mut window = Window::new(640, 480);
    let mut render = Render::new(&window, PresentMode::Mailbox, probe).unwrap();
    window.update(&[WindowEvent::Resized(320, 240)]);
    assert!(window.did_resize);
    render.resized(window.width, window.height);
    assert_eq!(
        render.get_presentation_framebuffer(Ok(())).unwrap_err(),
        FrameError::Outdated
    );
    render.reconfigure(window.width, window.height, PresentMode::Mailbox);
    let frame = render.get_presentation_framebuffer(Ok(())).unwrap();
    assert_eq!((frame.target.width, frame.target.height), (320, 240));
    assert_eq!(frame.target.format, wgpu::TextureFormat::Bgra8Unorm);
}
