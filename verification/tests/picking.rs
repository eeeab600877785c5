use mousepick::camera::CameraEntity;
use mousepick::camera::resolve_active_camera;
use mousepick::geom::Camera;
use mousepick::geom::Mat3;
use mousepick::geom::Transform;
use mousepick::geom::Vec3;
use mousepick::geom::WorldPoint;
use mousepick::geom::screen_to_world;
use mousepick::sprite::SpriteEntity;
use mousepick::sprite::SpriteRec;
use mousepick::sprite::SpriteSheet;
use mousepick::sprite::hover_name;
use mousepick::system::ControlsSystem;
use mousepick::system::FrameStatus;
use mousepick::system::PixelPos;
use mousepick::system::World;
use mousepick::text::format_world_point;
use mousepick::ui::UiStore;

fn identity() -> Mat3 {
    Mat3 {
        r00: 1000,
        r01: 0,
        r02: 0,
        r10: 0,
        r11: 1000,
        r12: 0,
        r20: 0,
        r21: 0,
        r22: 1000,
    }
}

/// Rotation by +90 degrees about the x axis: the camera looks along world y,
/// parallel to the ground plane.
fn quarter_turn_x() -> Mat3 {
    Mat3 {
        r00: 1000,
        r01: 0,
        r02: 0,
        r10: 0,
        r11: 0,
        r12: -1000,
        r20: 0,
        r21: 1000,
        r22: 0,
    }
}

fn camera_at(x: i64, y: i64, z: i64, rotation: Mat3) -> CameraEntity {
    CameraEntity {
        entity: 1,
        camera: Camera { tan_half_x: 500, tan_half_y: 500 },
        transform: Transform { translation: Vec3 { x, y, z }, rotation },
    }
}

fn floor_sprite(name: &str, cx: i64, cy: i64, w: i64, h: i64) -> SpriteEntity {
    SpriteEntity {
        transform: Transform {
            translation: Vec3 { x: cx, y: cy, z: 0 },
            rotation: identity(),
        },
        sheet: 0,
        sprite_number: 0,
        name: String::from(name),
    }
}

fn one_sheet(w: i64, h: i64) -> Vec<Option<SpriteSheet>> {
    vec![Some(SpriteSheet { sprites: vec![SpriteRec { width: w, height: h }] })]
}

fn world_with(cameras: Vec<CameraEntity>, pointer: Option<PixelPos>) -> World {
    World {
        pointer,
        screen_w: 1_024_000,
        screen_h: 768_000,
        active_camera: None,
        cameras,
        sprites: vec![floor_sprite("Floor", 0, 0, 20_000, 20_000)],
        sheets: one_sheet(20_000, 20_000),
    }
}

fn store_with(a: &str, b: &str) -> UiStore {
    UiStore {
        mouse_position: Some(String::from(a)),
        under_mouse: Some(String::from(b)),
    }
}

#[test]
fn center_pixel_hits_below_camera() {
    // A camera at (3, 5, 20) looking straight down -z: the center pixel's
    // ray meets z = 0 exactly at (3, 5).
    let cam = camera_at(3_000, 5_000, 20_000, identity());
    let hit = screen_to_world(
        &cam.camera,
        &cam.transform,
        1_024_000,
        768_000,
        512_000,
        384_000,
    );
    assert_eq!(hit, Some(WorldPoint { x: 3_000, y: 5_000 }));
}

#[test]
fn right_edge_pixel_hits_analytic_point() {
    // Camera at the origin, 20 units above the plane, half-fov tangent 0.5:
    // the right-edge center pixel lands at x = 0.5 * 20 = 10, y = 0.
    let cam = camera_at(0, 0, 20_000, identity());
    let hit = screen_to_world(
        &cam.camera,
        &cam.transform,
        1_000_000,
        1_000_000,
        1_000_000,
        500_000,
    );
    assert_eq!(hit, Some(WorldPoint { x: 10_000, y: 0 }));
}

#[test]
fn parallel_ray_misses() {
    let cam = camera_at(0, 0, 20_000, quarter_turn_x());
    let hit = screen_to_world(
        &cam.camera,
        &cam.transform,
        1_024_000,
        768_000,
        512_000,
        384_000,
    );
    assert_eq!(hit, None);
}

#[test]
fn far_intersection_counts_as_miss() {
    // Nearly grazing ray: the hit lies far beyond the representable world
    // range, which counts as no intersection.
    let cam = CameraEntity {
        entity: 1,
        camera: Camera { tan_half_x: 1_000_000, tan_half_y: 1_000_000 },
        transform: Transform {
            translation: Vec3 { x: 0, y: 0, z: 1_000_000_000 },
            rotation: identity(),
        },
    };
    let hit = screen_to_world(
        &cam.camera,
        &cam.transform,
        1_000_000,
        1_000_000,
        1_000_000,
        500_000,
    );
    assert_eq!(hit, None);
}

#[test]
fn boundary_point_is_not_hovered() {
    // The sprite is 20 by 20 centered on the origin: x ranges over the open
    // interval (-10, 10). A point exactly on the edge is outside.
    let sprites = vec![floor_sprite("Floor", 0, 0, 20_000, 20_000)];
    let sheets = one_sheet(20_000, 20_000);
    let on_edge = hover_name(&WorldPoint { x: 10_000, y: 0 }, &sprites, &sheets);
    assert_eq!(on_edge, None);
    let just_inside = hover_name(&WorldPoint { x: 9_999, y: 0 }, &sprites, &sheets);
    assert_eq!(just_inside, Some(String::from("Floor")));
    let corner = hover_name(&WorldPoint { x: 10_000, y: 10_000 }, &sprites, &sheets);
    assert_eq!(corner, None);
}

#[test]
fn overlapping_boxes_last_wins_deterministically() {
    let sprites = vec![
        floor_sprite("First", 0, 0, 20_000, 20_000),
        floor_sprite("Second", 1_000, 0, 20_000, 20_000),
    ];
    let sheets = one_sheet(20_000, 20_000);
    let p = WorldPoint { x: 500, y: 0 };
    let first_run = hover_name(&p, &sprites, &sheets);
    assert_eq!(first_run, Some(String::from("Second")));
    for _ in 0..10 {
        assert_eq!(hover_name(&p, &sprites, &sheets), first_run);
    }
}

#[test]
fn unresolved_sprites_are_skipped() {
    let sheets = one_sheet(20_000, 20_000);
    let p = WorldPoint { x: 0, y: 0 };

    // Sheet slot out of range.
    let mut s = floor_sprite("Floor", 0, 0, 20_000, 20_000);
    s.sheet = 7;
    assert_eq!(hover_name(&p, &vec![s], &sheets), None);

    // Sheet present but still loading.
    let s = floor_sprite("Floor", 0, 0, 20_000, 20_000);
    let empty_slot: Vec<Option<SpriteSheet>> = vec![None];
    assert_eq!(hover_name(&p, &vec![s], &empty_slot), None);

    // Sprite index out of range.
    let mut s = floor_sprite("Floor", 0, 0, 20_000, 20_000);
    s.sprite_number = 3;
    assert_eq!(hover_name(&p, &vec![s], &sheets), None);

    // An unresolved entity does not shadow a resolved one under it.
    let good = floor_sprite("Floor", 0, 0, 20_000, 20_000);
    let mut bad = floor_sprite("Ghost", 0, 0, 20_000, 20_000);
    bad.sheet = 7;
    assert_eq!(
        hover_name(&p, &vec![good, bad], &sheets),
        Some(String::from("Floor"))
    );
}

#[test]
fn formats_with_sign_kept_on_negative_zero() {
    let s = format_world_point(&WorldPoint { x: 12_490, y: -200 });
    assert_eq!(s, "(12, -0)");
}

#[test]
fn formats_half_steps_away_from_zero() {
    let s = format_world_point(&WorldPoint { x: 12_500, y: 500 });
    assert_eq!(s, "(13, 1)");
    let s = format_world_point(&WorldPoint { x: -12_500, y: -500 });
    assert_eq!(s, "(-13, -1)");
}

#[test]
fn formats_origin_without_signs() {
    let s = format_world_point(&WorldPoint { x: 0, y: 0 });
    assert_eq!(s, "(0, 0)");
}

#[test]
fn resolver_prefers_active_reference() {
    let cams = vec![
        camera_at(0, 0, 10_000, identity()),
        CameraEntity { entity: 9, ..camera_at(0, 0, 20_000, identity()) },
    ];
    assert_eq!(resolve_active_camera(Some(9), &cams), Some(1));
    assert_eq!(resolve_active_camera(Some(1), &cams), Some(0));
    // A dangling reference falls back to the first camera.
    assert_eq!(resolve_active_camera(Some(42), &cams), Some(0));
    assert_eq!(resolve_active_camera(None, &cams), Some(0));
    let none: Vec<CameraEntity> = Vec::new();
    assert_eq!(resolve_active_camera(Some(9), &none), None);
}

#[test]
fn frame_updates_both_slots() {
    let mut sys = ControlsSystem;
    let world = world_with(
        vec![camera_at(0, 0, 20_000, identity())],
        Some(PixelPos { x: 512_000, y: 384_000 }),
    );
    let mut ui = store_with("stale", "stale");
    let status = sys.run(&world, &mut ui);
    assert_eq!(status, FrameStatus::Updated);
    assert_eq!(ui.mouse_position.as_deref(), Some("(0, 0)"));
    assert_eq!(ui.under_mouse.as_deref(), Some("Floor"));
}

#[test]
fn no_camera_leaves_slots_alone() {
    let mut sys = ControlsSystem;
    let world = world_with(Vec::new(), Some(PixelPos { x: 512_000, y: 384_000 }));
    let mut ui = store_with("kept", "kept");
    let status = sys.run(&world, &mut ui);
    assert_eq!(status, FrameStatus::NoCamera);
    assert_eq!(ui.mouse_position.as_deref(), Some("kept"));
    assert_eq!(ui.under_mouse.as_deref(), Some("kept"));
}

#[test]
fn no_pointer_leaves_slots_alone() {
    let mut sys = ControlsSystem;
    let world = world_with(vec![camera_at(0, 0, 20_000, identity())], None);
    let mut ui = store_with("kept", "kept");
    let status = sys.run(&world, &mut ui);
    assert_eq!(status, FrameStatus::NoPointer);
    assert_eq!(ui.mouse_position.as_deref(), Some("kept"));
    assert_eq!(ui.under_mouse.as_deref(), Some("kept"));
}

#[test]
fn parallel_ray_keeps_prior_text() {
    let mut sys = ControlsSystem;
    let world = world_with(
        vec![camera_at(0, 0, 20_000, quarter_turn_x())],
        Some(PixelPos { x: 512_000, y: 384_000 }),
    );
    let mut ui = store_with("(3, 5)", "Floor");
    let status = sys.run(&world, &mut ui);
    assert_eq!(status, FrameStatus::NoIntersection);
    assert_eq!(ui.mouse_position.as_deref(), Some("(3, 5)"));
    assert_eq!(ui.under_mouse.as_deref(), Some("Floor"));
}

#[test]
fn missing_slots_stay_missing() {
    let mut sys = ControlsSystem;
    let world = world_with(
        vec![camera_at(0, 0, 20_000, identity())],
        Some(PixelPos { x: 512_000, y: 384_000 }),
    );
    let mut ui = UiStore { mouse_position: None, under_mouse: None };
    let status = sys.run(&world, &mut ui);
    assert_eq!(status, FrameStatus::Updated);
    assert!(ui.mouse_position.is_none());
    assert!(ui.under_mouse.is_none());
}

#[test]
fn leaving_the_floor_clears_the_name() {
    let mut sys = ControlsSystem;
    let mut ui = store_with("", "");

    // Frame one: the pointer rests over the floor sprite.
    let over = world_with(
        vec![camera_at(0, 0, 20_000, identity())],
        Some(PixelPos { x: 512_000, y: 384_000 }),
    );
    sys.run(&over, &mut ui);
    assert_eq!(ui.under_mouse.as_deref(), Some("Floor"));

    // Frame two: the camera has moved far to the side, so the center pixel
    // lands outside the floor's box and the name clears.
    let away = world_with(
        vec![camera_at(50_000, 0, 20_000, identity())],
        Some(PixelPos { x: 512_000, y: 384_000 }),
    );
    sys.run(&away, &mut ui);
    assert_eq!(ui.under_mouse.as_deref(), Some(""));
    assert_eq!(ui.mouse_position.as_deref(), Some("(50, 0)"));
}

#[test]
fn repeated_frames_are_identical() {
    let world = world_with(
        vec![camera_at(0, 0, 20_000, identity())],
        Some(PixelPos { x: 600_000, y: 300_000 }),
    );
    let mut first = store_with("a", "b");
    let mut sys = ControlsSystem;
    let s1 = sys.run(&world, &mut first);
    for _ in 0..5 {
        let mut again = store_with("a", "b");
        let s2 = sys.run(&world, &mut again);
        assert_eq!(s1, s2);
        assert_eq!(first.mouse_position, again.mouse_position);
        assert_eq!(first.under_mouse, again.under_mouse);
    }
}
