//! The per-frame picking system.
//!
//! One run reads the pointer, resolves the camera, casts the ray onto the
//! ground plane, hit-tests the sprites and offers the results to the two UI
//! slots. Every failure is frame-local: a missing pointer, a missing
//! camera, or a ray that misses the plane leaves the store untouched, so
//! the previous frame's text stays visible.

use vstd::prelude::*;
use crate::camera::CameraEntity;
use crate::camera::chosen_camera;
use crate::camera::resolve_active_camera;
use crate::geom::WorldPoint;
use crate::geom::dir_z;
use crate::geom::hit_x;
use crate::geom::hit_y;
use crate::geom::ray_hits_ground;
use crate::geom::screen_to_world;
use crate::geom::valid_camera;
use crate::geom::valid_pixel;
use crate::geom::valid_screen;
use crate::geom::valid_transform;
use crate::sprite::SpriteEntity;
use crate::sprite::SpriteSheet;
use crate::sprite::hover_spec;
use crate::sprite::hover_name;
use crate::text::format_world_point;
use crate::text::point_text;
use crate::ui::UiStore;
use crate::ui::UiView;
use crate::ui::slot_after_write;

verus! {

/// The pointer position in window pixels, fixed-point.
#[derive(Clone, Copy, PartialEq, Eq, Structural, Debug)]
pub struct PixelPos {
    pub x: i64,
    pub y: i64,
}

/// Everything one frame of picking reads: the pointer state, the window
/// size, the active-camera reference, and the component stores, each
/// iterated in a fixed order.
#[derive(Debug)]
pub struct World {
    pub pointer: Option<PixelPos>,
    pub screen_w: i64,
    pub screen_h: i64,
    pub active_camera: Option<u64>,
    pub cameras: Vec<CameraEntity>,
    pub sprites: Vec<SpriteEntity>,
    pub sheets: Vec<Option<SpriteSheet>>,
}

/// What one frame did.
#[derive(Clone, Copy, PartialEq, Eq, Structural, Debug)]
pub enum FrameStatus {
    /// No pointer position is available: nothing was computed.
    NoPointer,
    /// No camera entity exists: picking was skipped.
    NoCamera,
    /// The camera ray does not meet the ground plane: writes were skipped.
    NoIntersection,
    /// A world point was computed and both slots were offered fresh text.
    Updated,
}

/// The machine bounds every frame input must respect; world coordinates,
/// screen sizes and projection tangents each stay within their fixed-point
/// range.
pub open spec fn valid_world(w: World) -> bool {
    &&& valid_screen(w.screen_w as int, w.screen_h as int)
    &&& (w.pointer matches Some(p) ==> valid_pixel(p.x as int) && valid_pixel(p.y as int))
    &&& forall|i: int|
        0 <= i < w.cameras@.len() ==> valid_camera((#[trigger] w.cameras@[i]).camera)
            && valid_transform(w.cameras@[i].transform)
}

/// The camera entity this frame picks through, if any exists.
pub open spec fn frame_camera(w: World) -> Option<CameraEntity> {
    match chosen_camera(w.active_camera, w.cameras@) {
        Some(i) => Some(w.cameras@[i]),
        None => None,
    }
}

/// The world point this frame computes: the chosen camera's ray through the
/// pointer pixel, intersected with the ground plane. `None` when there is
/// no pointer, no camera, or no representable intersection.
pub open spec fn frame_hit(w: World) -> Option<WorldPoint> {
    match w.pointer {
        Some(pix) => match frame_camera(w) {
            Some(ce) => if ray_hits_ground(
                ce.camera,
                ce.transform,
                w.screen_w as int,
                w.screen_h as int,
                pix.x as int,
                pix.y as int,
            ) {
                Some(
                    WorldPoint {
                        x: hit_x(
                            ce.camera,
                            ce.transform,
                            w.screen_w as int,
                            w.screen_h as int,
                            pix.x as int,
                            pix.y as int,
                        ) as i64,
                        y: hit_y(
                            ce.camera,
                            ce.transform,
                            w.screen_w as int,
                            w.screen_h as int,
                            pix.x as int,
                            pix.y as int,
                        ) as i64,
                    },
                )
            } else {
                None
            },
            None => None,
        },
        None => None,
    }
}

/// The status one frame reports.
pub open spec fn frame_status_spec(w: World) -> FrameStatus {
    if w.pointer is None {
        FrameStatus::NoPointer
    } else if frame_camera(w) is None {
        FrameStatus::NoCamera
    } else if frame_hit(w) is None {
        FrameStatus::NoIntersection
    } else {
        FrameStatus::Updated
    }
}

/// The text offered to the "under_mouse" slot: the hovered name, or the
/// empty string when nothing is hovered.
pub open spec fn frame_hover_text(w: World, p: WorldPoint) -> Seq<char> {
    match hover_spec(p, w.sprites@, w.sheets@) {
        Some(nm) => nm,
        None => Seq::<char>::empty(),
    }
}

/// The store content after one frame: untouched unless a world point was
/// computed, in which case each existing slot receives its fresh text.
pub open spec fn frame_ui_spec(w: World, u: UiView) -> UiView {
    match frame_hit(w) {
        Some(p) => UiView {
            mouse_position: slot_after_write(u.mouse_position, point_text(p)),
            under_mouse: slot_after_write(u.under_mouse, frame_hover_text(w, p)),
        },
        None => u,
    }
}

/// The picking system; one `run` per simulation frame.
pub struct ControlsSystem;

impl ControlsSystem {
    /// Runs one frame of picking over `world`, writing into `ui`.
    ///
    /// The store changes only when a world point was computed; with no
    /// camera at all, or a ray parallel to the ground plane, both slots
    /// keep their prior content and no failure escapes.
    pub fn run(&mut self, world: &World, ui: &mut UiStore) -> (s: FrameStatus)
        requires
            valid_world(*world),
        ensures
            final(ui)@ == frame_ui_spec(*world, old(ui)@),
            s == frame_status_spec(*world),
            frame_hit(*world) is None ==> final(ui)@ == old(ui)@,
            world.cameras@.len() == 0 && world.pointer is Some ==> final(ui)@ == old(ui)@ && s
                == FrameStatus::NoCamera,
            (world.pointer matches Some(pix) && frame_camera(*world) matches Some(ce) && dir_z(
                ce.camera,
                ce.transform,
                world.screen_w as int,
                world.screen_h as int,
                pix.x as int,
                pix.y as int,
            ) == 0) ==> final(ui)@ == old(ui)@,
    {
        let pix: PixelPos = match &world.pointer {
            Some(p) => *p,
            None => {
                return FrameStatus::NoPointer;
            },
        };
        let idx: usize = match resolve_active_camera(world.active_camera, &world.cameras) {
            Some(i) => i,
            None => {
                return FrameStatus::NoCamera;
            },
        };
        let ce = &world.cameras[idx];
        let p: WorldPoint = match screen_to_world(
            &ce.camera,
            &ce.transform,
            world.screen_w,
            world.screen_h,
            pix.x,
            pix.y,
        ) {
            Some(p) => p,
            None => {
                return FrameStatus::NoIntersection;
            },
        };
        assert(frame_hit(*world) == Some(p));
        let text: String = format_world_point(&p);
        ui.set_mouse_position(text);
        let hovered: Option<String> = hover_name(&p, &world.sprites, &world.sheets);
        match hovered {
            Some(nm) => ui.set_under_mouse(nm),
            None => ui.set_under_mouse(String::new()),
        }
        FrameStatus::Updated
    }
}

/// Determinism: the frame outcome is a function of the world and the prior
/// store content alone, so equal inputs give equal UI content and status.
pub proof fn lemma_frame_deterministic(w1: World, w2: World, u1: UiView, u2: UiView)
    requires
        w1 == w2,
        u1 == u2,
    ensures
        frame_ui_spec(w1, u1) == frame_ui_spec(w2, u2),
        frame_status_spec(w1) == frame_status_spec(w2),
{
}

/// Transition: when the frame's world point misses every sprite box, an
/// existing "under_mouse" slot reads the empty string afterwards, whatever
/// it held before.
pub proof fn lemma_hover_cleared(w: World, u: UiView, p: WorldPoint)
    requires
        frame_hit(w) == Some(p),
        hover_spec(p, w.sprites@, w.sheets@) is None,
        u.under_mouse is Some,
    ensures
        frame_ui_spec(w, u).under_mouse == Some(Seq::<char>::empty()),
{
}

} // verus!
