use grapher3d::frame::{Command, GpuResource, InitError, Rgba8, SurfaceError};
use grapher3d::pipeline::{fullscreen_vertex, GpuConnector, Topology};
use grapher3d::state::{recovery_for, Recovery, State};
use grapher3d::surface::{choose_format, PixelFormat, PresentMode, SurfaceConfig};

fn full_pass(format: PixelFormat) -> Vec<Command> {
    vec![
        Command::BeginRenderPass { clear: Rgba8 { r: 0, g: 0, b: 0, a: 255 } },
        Command::SetPipeline { format },
        Command::Draw { vertex_start: 0, vertex_end: 3, instance_start: 0, instance_end: 1 },
        Command::EndRenderPass,
    ]
}

#[test]
fn format_prefers_first_srgb8() {
    let formats = vec![
        PixelFormat::Other(0),
        PixelFormat::Rgba8UnormSrgb,
        PixelFormat::Bgra8UnormSrgb,
    ];
    assert_eq!(choose_format(&formats), Some(PixelFormat::Rgba8UnormSrgb));
    let formats = vec![PixelFormat::Bgra8UnormSrgb, PixelFormat::Rgba8UnormSrgb];
    assert_eq!(choose_format(&formats), Some(PixelFormat::Bgra8UnormSrgb));
}

#[test]
fn format_falls_back_to_first() {
    let formats = vec![PixelFormat::Other(4), PixelFormat::Other(9)];
    assert_eq!(choose_format(&formats), Some(PixelFormat::Other(4)));
}

#[test]
fn format_of_empty_list_is_none() {
    assert_eq!(choose_format(&vec![]), None);
}

#[test]
fn init_without_formats_fails() {
    assert!(matches!(GpuResource::new(&vec![], 800, 600), Err(InitError::NoSurfaceFormat)));
    assert!(matches!(State::new(&vec![], 800, 600), Err(InitError::NoSurfaceFormat)));
}

#[test]
fn config_raises_zero_size_to_one() {
    let c = SurfaceConfig::new(PixelFormat::Other(1), 0, 0);
    assert_eq!((c.width, c.height), (1, 1));
    assert_eq!(c.present_mode, PresentMode::Fifo);
    assert_eq!(c.frame_latency, 2);
    let d = GpuResource::new(&vec![PixelFormat::Other(3)], 0, 480).ok().unwrap();
    assert_eq!((d.config().width, d.config().height), (1, 480));
    assert_eq!(d.config().format, PixelFormat::Other(3));
}

#[test]
fn resize_then_frame_has_new_size() {
    let mut d = GpuResource::new(&vec![PixelFormat::Bgra8UnormSrgb], 640, 480).ok().unwrap();
    assert!(d.resize(1024, 768));
    let frame = d.begin_frame(Ok(())).ok().unwrap();
    assert_eq!((frame.width(), frame.height()), (1024, 768));
    assert!(frame.commands().is_empty());
    let buffer = d.submit_frame(frame);
    assert_eq!((buffer.width, buffer.height), (1024, 768));
    assert!(d.resize(1, 1));
    let frame = d.begin_frame(Ok(())).ok().unwrap();
    assert_eq!((frame.width(), frame.height()), (1, 1));
}

#[test]
fn resize_with_zero_is_noop() {
    let mut d = GpuResource::new(&vec![PixelFormat::Bgra8UnormSrgb], 640, 480).ok().unwrap();
    assert!(!d.resize(0, 300));
    assert!(!d.resize(300, 0));
    assert!(!d.resize(0, 0));
    assert_eq!((d.config().width, d.config().height), (640, 480));
    let frame = d.begin_frame(Ok(())).ok().unwrap();
    assert_eq!((frame.width(), frame.height()), (640, 480));
}

#[test]
fn resize_is_idempotent() {
    let mut s = State::new(&vec![PixelFormat::Rgba8UnormSrgb], 10, 10).ok().unwrap();
    s.resize(300, 200);
    s.resize(300, 200);
    assert_eq!((s.gpu_res().config().width, s.gpu_res().config().height), (300, 200));
    assert_eq!(s.gpu_res().config().format, PixelFormat::Rgba8UnormSrgb);
}

#[test]
fn failed_acquisition_is_returned() {
    let mut d = GpuResource::new(&vec![PixelFormat::Bgra8UnormSrgb], 64, 64).ok().unwrap();
    for e in [
        SurfaceError::Timeout,
        SurfaceError::Outdated,
        SurfaceError::Lost,
        SurfaceError::OutOfMemory,
        SurfaceError::Other,
    ] {
        assert_eq!(d.begin_frame(Err(e)).err(), Some(e));
        assert!(!d.frame_open());
    }
    assert_eq!(d.frames_submitted(), 0);
}

#[test]
fn frame_protocol_tracks_open_frame() {
    let mut d = GpuResource::new(&vec![PixelFormat::Bgra8UnormSrgb], 64, 64).ok().unwrap();
    let frame = d.begin_frame(Ok(())).ok().unwrap();
    assert!(d.frame_open());
    assert_eq!(frame.seq(), 0);
    let buffer = d.submit_frame(frame);
    assert_eq!(buffer.seq, 0);
    assert!(!d.frame_open());
    assert_eq!(d.frames_submitted(), 1);
}

#[test]
fn render_pass_records_one_draw() {
    let mut d = GpuResource::new(&vec![PixelFormat::Other(5)], 64, 64).ok().unwrap();
    let mut connector = GpuConnector::new(&d);
    let mut frame = d.begin_frame(Ok(())).ok().unwrap();
    connector.render_pass(&mut frame);
    assert_eq!(frame.commands(), &full_pass(PixelFormat::Other(5)));
    let draws: Vec<&Command> =
        frame.commands().iter().filter(|c| matches!(c, Command::Draw { .. })).collect();
    assert_eq!(draws.len(), 1);
    let passes = frame
        .commands()
        .iter()
        .filter(|c| matches!(c, Command::BeginRenderPass { .. }))
        .count();
    assert_eq!(passes, 1);
}

#[test]
fn cycles_submit_in_order() {
    let mut s = State::new(&vec![PixelFormat::Bgra8UnormSrgb], 320, 240).ok().unwrap();
    let mut seqs = Vec::new();
    for _ in 0..5 {
        let buffer = s.render(Ok(())).ok().unwrap();
        assert_eq!(buffer.commands, full_pass(PixelFormat::Bgra8UnormSrgb));
        seqs.push(buffer.seq);
    }
    assert_eq!(seqs, vec![0, 1, 2, 3, 4]);
    assert_eq!(s.frames_submitted(), 5);
}

#[test]
fn failed_cycle_changes_nothing() {
    let mut s = State::new(&vec![PixelFormat::Bgra8UnormSrgb], 320, 240).ok().unwrap();
    s.render(Ok(())).ok().unwrap();
    assert_eq!(s.render(Err(SurfaceError::Timeout)).err(), Some(SurfaceError::Timeout));
    assert_eq!(s.frames_submitted(), 1);
    let buffer = s.render(Ok(())).ok().unwrap();
    assert_eq!(buffer.seq, 1);
}

#[test]
fn pipeline_targets_surface_format() {
    let formats = vec![PixelFormat::Other(2), PixelFormat::Other(8)];
    let s = State::new(&formats, 100, 100).ok().unwrap();
    let p = s.connector().pipeline();
    assert_eq!(p.target_format, s.gpu_res().config().format);
    assert_eq!(p.target_format, PixelFormat::Other(2));
    assert_eq!(p.topology, Topology::TriangleList);
    assert_eq!((p.bind_groups, p.vertex_buffers, p.sample_count), (0, 0, 1));
    assert!(!p.depth_stencil && !p.blending && p.write_all_channels);
}

#[test]
fn first_cycle_in_1200_by_800_window() {
    let formats = vec![PixelFormat::Other(0), PixelFormat::Bgra8UnormSrgb];
    let mut s = State::new(&formats, 1200, 800).ok().unwrap();
    let buffer = s.render(Ok(())).ok().unwrap();
    assert_eq!((buffer.width, buffer.height), (1200, 800));
    assert_eq!(buffer.seq, 0);
    assert_eq!(
        buffer.commands[0],
        Command::BeginRenderPass { clear: Rgba8 { r: 0, g: 0, b: 0, a: 255 } }
    );
    let draw_at = buffer
        .commands
        .iter()
        .position(|c| matches!(c, Command::Draw { .. }))
        .unwrap();
    assert!(draw_at > 0);
    assert_eq!(buffer.commands, full_pass(PixelFormat::Bgra8UnormSrgb));
    let verts: Vec<(i32, i32)> = (0..3).map(fullscreen_vertex).collect();
    assert_eq!(verts, vec![(-1, -1), (3, -1), (-1, 3)]);
}

#[test]
fn recovery_policy() {
    assert_eq!(recovery_for(SurfaceError::Timeout), Recovery::SkipTick);
    assert_eq!(recovery_for(SurfaceError::Outdated), Recovery::Reconfigure);
    assert_eq!(recovery_for(SurfaceError::Lost), Recovery::Reconfigure);
    assert_eq!(recovery_for(SurfaceError::OutOfMemory), Recovery::SkipTick);
    assert_eq!(recovery_for(SurfaceError::Other), Recovery::SkipTick);
}

#[test]
fn black_is_opaque() {
    assert_eq!(Rgba8::black(), Rgba8 { r: 0, g: 0, b: 0, a: 255 });
    assert!(PixelFormat::Bgra8UnormSrgb.is_srgb8());
    assert!(!PixelFormat::Other(0).is_srgb8());
}
