use bolt::frame::handle_frame_result;
use bolt::geometry::quad_indices;
use bolt::renderer::clear_color;
use bolt::{CameraUniform, FrameAction, Renderer2D, Rgba, Shape2D, SurfaceError, Vec3, Vertex};

fn rgba(r: f32, g: f32, b: f32, a: f32) -> Rgba {
    Rgba { r: r.to_bits(), g: g.to_bits(), b: b.to_bits(), a: a.to_bits() }
}

fn camera_with(seed: u32) -> CameraUniform {
    let mut entries = [0u32; 16];
    for (i, entry) in entries.iter_mut().enumerate() {
        *entry = seed.wrapping_add(i as u32);
    }
    CameraUniform::new(entries)
}

#[test]
fn one_quad_frame_on_a_100_by_100_window() {
    let camera = camera_with(7);
    let renderer = Renderer2D::new(100, 100, camera);
    let quad = Shape2D::Quad {
        position: Vec3 { x: 0, y: 0, z: 0 },
        scale: Vec3 { x: 50, y: 50, z: 1 },
        color: rgba(0.1, 0.2, 0.3, 1.0),
    };

    let plan = renderer.draw(quad);

    let color = rgba(0.1, 0.2, 0.3, 1.0);
    let expected = vec![
        Vertex { position: Vec3 { x: -25, y: -25, z: 0 }, color },
        Vertex { position: Vec3 { x: -25, y: 25, z: 0 }, color },
        Vertex { position: Vec3 { x: 25, y: 25, z: 0 }, color },
        Vertex { position: Vec3 { x: 25, y: -25, z: 0 }, color },
    ];
    assert_eq!(plan.vertices, expected);
    assert_eq!(plan.indices, vec![0, 2, 1, 0, 3, 2]);
    assert_eq!(plan.camera, camera);
    assert_eq!(plan.clear_color, rgba(1.0, 0.0, 1.0, 1.0));
}

#[test]
fn vertices_cover_the_four_sign_combinations() {
    let quad = Shape2D::Quad {
        position: Vec3 { x: 10, y: -20, z: 5 },
        scale: Vec3 { x: 8, y: 6, z: 2 },
        color: rgba(0.5, 0.5, 0.5, 1.0),
    };

    let verts = quad.vertices();

    assert_eq!(verts[0].position, Vec3 { x: 6, y: -23, z: 5 });
    assert_eq!(verts[1].position, Vec3 { x: 6, y: -17, z: 5 });
    assert_eq!(verts[2].position, Vec3 { x: 14, y: -17, z: 5 });
    assert_eq!(verts[3].position, Vec3 { x: 14, y: -23, z: 5 });
}

#[test]
fn all_four_vertices_share_the_quad_color() {
    let color = rgba(0.25, 0.75, 0.0, 0.5);
    let quad = Shape2D::Quad {
        position: Vec3 { x: -3, y: 9, z: 0 },
        scale: Vec3 { x: 11, y: 4, z: 1 },
        color,
    };

    for vertex in quad.vertices() {
        assert_eq!(vertex.color, color);
    }
}

#[test]
fn odd_scales_halve_toward_zero() {
    let quad = Shape2D::Quad {
        position: Vec3 { x: 0, y: 0, z: 0 },
        scale: Vec3 { x: 5, y: 3, z: 1 },
        color: rgba(1.0, 1.0, 1.0, 1.0),
    };

    let verts = quad.vertices();

    assert_eq!(verts[0].position, Vec3 { x: -2, y: -1, z: 0 });
    assert_eq!(verts[2].position, Vec3 { x: 2, y: 1, z: 0 });
}

#[test]
fn zero_scale_collapses_to_the_center() {
    let quad = Shape2D::Quad {
        position: Vec3 { x: 4, y: -7, z: 2 },
        scale: Vec3 { x: 0, y: 0, z: 0 },
        color: rgba(0.0, 0.0, 0.0, 1.0),
    };

    for vertex in quad.vertices() {
        assert_eq!(vertex.position, Vec3 { x: 4, y: -7, z: 2 });
    }
}

#[test]
fn index_list_is_two_triangles_over_four_vertices() {
    let idx = quad_indices();
    assert_eq!(idx, vec![0, 2, 1, 0, 3, 2]);
    assert!(idx.iter().all(|&i| i < 4));
    for corner in 0u16..4 {
        assert!(idx.contains(&corner));
    }
}

#[test]
fn index_triangles_wind_counter_clockwise() {
    let quad = Shape2D::Quad {
        position: Vec3 { x: 12, y: 34, z: 0 },
        scale: Vec3 { x: 20, y: 10, z: 1 },
        color: rgba(1.0, 0.0, 0.0, 1.0),
    };
    let verts = quad.vertices();
    let idx = quad_indices();

    let doubled_area = |a: Vec3, b: Vec3, c: Vec3| -> i64 {
        (b.x - a.x) * (c.y - a.y) - (b.y - a.y) * (c.x - a.x)
    };
    let first = doubled_area(
        verts[idx[0] as usize].position,
        verts[idx[1] as usize].position,
        verts[idx[2] as usize].position,
    );
    let second = doubled_area(
        verts[idx[3] as usize].position,
        verts[idx[4] as usize].position,
        verts[idx[5] as usize].position,
    );

    assert!(first > 0);
    assert!(second > 0);
    assert_eq!(first + second, 2 * 20 * 10);
}

#[test]
fn camera_stays_constant_across_draws_and_resizes() {
    let camera = camera_with(99);
    let mut renderer = Renderer2D::new(100, 100, camera);
    let small = Shape2D::Quad {
        position: Vec3 { x: 0, y: 0, z: 0 },
        scale: Vec3 { x: 2, y: 2, z: 1 },
        color: rgba(0.9, 0.9, 0.9, 1.0),
    };
    let large = Shape2D::Quad {
        position: Vec3 { x: 30, y: 40, z: 0 },
        scale: Vec3 { x: 80, y: 60, z: 1 },
        color: rgba(0.2, 0.4, 0.6, 0.8),
    };

    let first = renderer.draw(small);
    renderer.resize(640, 480);
    let second = renderer.draw(large);

    assert_eq!(first.camera, camera);
    assert_eq!(second.camera, camera);
    assert_eq!(renderer.camera(), camera);
}

#[test]
fn out_of_memory_terminates_the_frame_loop() {
    assert_eq!(handle_frame_result(Err(SurfaceError::OutOfMemory)), FrameAction::Terminate);
}

#[test]
fn lost_surface_asks_for_reconfiguration() {
    assert_eq!(handle_frame_result(Err(SurfaceError::Lost)), FrameAction::Reconfigure);
}

#[test]
fn transient_failures_proceed_to_the_next_frame() {
    assert_eq!(handle_frame_result(Err(SurfaceError::Timeout)), FrameAction::Proceed);
    assert_eq!(handle_frame_result(Err(SurfaceError::Outdated)), FrameAction::Proceed);
}

#[test]
fn successful_presents_proceed_to_the_next_frame() {
    assert_eq!(handle_frame_result(Ok(())), FrameAction::Proceed);
}

#[test]
fn clear_color_is_opaque_magenta() {
    let clear = clear_color();
    assert_eq!(clear.r, 1.0f32.to_bits());
    assert_eq!(clear.g, 0.0f32.to_bits());
    assert_eq!(clear.b, 1.0f32.to_bits());
    assert_eq!(clear.a, 1.0f32.to_bits());
}
