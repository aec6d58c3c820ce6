use wgpu_engine::DrawCmd;
use wgpu_engine::Frame;
use wgpu_engine::WgpuRenderer;

fn expected_circle(ticks: u64, i: u64) -> DrawCmd {
    DrawCmd::Circle {
        angle_centiradians: ticks + 30 * i,
        radius_tenths: (200 - 15 * i) as u16,
        red: (100 + 15 * i) as u8,
        green: (50 + 10 * i) as u8,
        blue: (200 - 5 * i) as u8,
        alpha_permille: 800,
    }
}

fn render_some(renderer: &mut WgpuRenderer) -> Frame {
    renderer.render(true).expect("context was available, a frame is owed")
}

#[test]
fn new_starts_at_zero_rotation() {
    let renderer = WgpuRenderer::new(640, 480);
    assert_eq!(renderer.rotation_centiradians(), 0);
}

#[test]
fn rotation_advances_one_centiradian_per_render() {
    let mut renderer = WgpuRenderer::new(640, 480);
    for k in 1..=5u64 {
        let frame = render_some(&mut renderer);
        assert_eq!(renderer.rotation_centiradians(), k);
        // The first circle sits at the rotation angle itself.
        assert_eq!(
            frame.commands[1],
            DrawCmd::Circle {
                angle_centiradians: k,
                radius_tenths: 200,
                red: 100,
                green: 50,
                blue: 200,
                alpha_permille: 800,
            }
        );
    }
}

#[test]
fn clear_comes_first_then_only_circles() {
    let mut renderer = WgpuRenderer::new(300, 200);
    let frame = render_some(&mut renderer);
    assert_eq!(
        frame.commands[0],
        DrawCmd::Clear { red: 26, green: 26, blue: 46 }
    );
    let clears = frame
        .commands
        .iter()
        .filter(|c| matches!(c, DrawCmd::Clear { .. }))
        .count();
    assert_eq!(clears, 1);
    for cmd in &frame.commands[1..] {
        assert!(matches!(cmd, DrawCmd::Circle { .. }));
    }
}

#[test]
fn ten_circles_with_distinct_color_ramp() {
    let mut renderer = WgpuRenderer::new(300, 200);
    let frame = render_some(&mut renderer);
    assert_eq!(frame.commands.len(), 11);
    for i in 0..10u64 {
        assert_eq!(frame.commands[(i + 1) as usize], expected_circle(1, i));
    }
    // No two circles of a frame share a colour.
    for i in 1..11usize {
        for j in (i + 1)..11usize {
            assert_ne!(frame.commands[i], frame.commands[j]);
        }
    }
}

#[test]
fn radii_positive_and_strictly_decreasing() {
    let mut renderer = WgpuRenderer::new(300, 200);
    let frame = render_some(&mut renderer);
    let radii: Vec<u16> = frame.commands[1..]
        .iter()
        .map(|c| match c {
            DrawCmd::Circle { radius_tenths, .. } => *radius_tenths,
            DrawCmd::Clear { .. } => panic!("only circles follow the clear"),
        })
        .collect();
    assert_eq!(radii[0], 200);
    assert_eq!(radii[9], 65);
    for i in 0..radii.len() {
        assert!(radii[i] > 0);
        assert_eq!(radii[i] as u64, 200 - 15 * i as u64);
        if i > 0 {
            assert!(radii[i] < radii[i - 1]);
        }
    }
}

#[test]
fn resize_sets_bounds_and_keeps_rotation() {
    let mut renderer = WgpuRenderer::new(10, 20);
    let frame = render_some(&mut renderer);
    assert_eq!((frame.width, frame.height), (10, 20));
    renderer.resize(800, 600);
    assert_eq!(renderer.rotation_centiradians(), 1);
    // The very next frame is computed for the new bounds.
    let frame = render_some(&mut renderer);
    assert_eq!((frame.width, frame.height), (800, 600));
    assert_eq!(renderer.rotation_centiradians(), 2);
}

#[test]
fn missing_context_skips_frame_but_advances_rotation() {
    let mut renderer = WgpuRenderer::new(100, 100);
    assert!(renderer.render(false).is_none());
    assert_eq!(renderer.rotation_centiradians(), 1);
    // The skipped tick is visible in the next frame's angles.
    let frame = render_some(&mut renderer);
    assert_eq!(renderer.rotation_centiradians(), 2);
    assert_eq!(frame.commands[1], expected_circle(2, 0));
}

#[test]
fn resize_twice_with_same_size_equals_once() {
    let mut once = WgpuRenderer::new(100, 100);
    let mut twice = WgpuRenderer::new(100, 100);
    once.resize(320, 240);
    twice.resize(320, 240);
    twice.resize(320, 240);
    assert_eq!(once.rotation_centiradians(), twice.rotation_centiradians());
    assert_eq!(render_some(&mut once), render_some(&mut twice));
}

#[test]
fn first_frame_exact_commands() {
    let mut renderer = WgpuRenderer::new(200, 100);
    let frame = render_some(&mut renderer);
    assert_eq!(frame.width, 200);
    assert_eq!(frame.height, 100);
    let mut expected = vec![DrawCmd::Clear { red: 26, green: 26, blue: 46 }];
    for i in 0..10u64 {
        expected.push(DrawCmd::Circle {
            angle_centiradians: 1 + 30 * i,
            radius_tenths: (200 - 15 * i) as u16,
            red: (100 + 15 * i) as u8,
            green: (50 + 10 * i) as u8,
            blue: (200 - 5 * i) as u8,
            alpha_permille: 800,
        });
    }
    assert_eq!(frame.commands, expected);
}

#[test]
fn zero_size_surface_still_renders() {
    let mut renderer = WgpuRenderer::new(0, 0);
    let frame = render_some(&mut renderer);
    assert_eq!((frame.width, frame.height), (0, 0));
    assert_eq!(frame.commands.len(), 11);
}
