//! Choosing the camera a frame picks through.
//!
//! The active-camera reference names an entity; when that entity carries
//! both a camera and a transform it wins, otherwise the first entry of the
//! camera list is used. The list's order is part of the input: callers are
//! expected to keep it stable within a run, since the fallback choice
//! follows it.

use vstd::prelude::*;
use crate::geom::Camera;
use crate::geom::Transform;

verus! {

/// A camera entity: its handle and its two components.
#[derive(Clone, Copy, PartialEq, Eq, Structural, Debug)]
pub struct CameraEntity {
    pub entity: u64,
    pub camera: Camera,
    pub transform: Transform,
}

/// Index of the first entity of `cams` whose handle is `id`, if any.
pub open spec fn first_cam_match(id: u64, cams: Seq<CameraEntity>) -> Option<int>
    decreases cams.len(),
{
    if cams.len() == 0 {
        None
    } else if cams[0].entity == id {
        Some(0)
    } else {
        match first_cam_match(id, cams.drop_first()) {
            Some(i) => Some(i + 1),
            None => None,
        }
    }
}

/// The camera the frame uses: the entity the active reference names when it
/// is present, else the first entry, else none at all.
pub open spec fn chosen_camera(active: Option<u64>, cams: Seq<CameraEntity>) -> Option<int> {
    let fallback = if cams.len() > 0 {
        Some(0int)
    } else {
        None
    };
    match active {
        Some(id) => match first_cam_match(id, cams) {
            Some(i) => Some(i),
            None => fallback,
        },
        None => fallback,
    }
}

/// What `first_cam_match` finds is the earliest entity with that handle;
/// when it finds nothing, no entity has the handle.
pub proof fn lemma_first_match_props(id: u64, cams: Seq<CameraEntity>)
    ensures
        match first_cam_match(id, cams) {
            Some(i) => 0 <= i < cams.len() && cams[i].entity == id && forall|j: int|
                0 <= j < i ==> (#[trigger] cams[j]).entity != id,
            None => forall|j: int| 0 <= j < cams.len() ==> (#[trigger] cams[j]).entity != id,
        },
    decreases cams.len(),
{
    if cams.len() > 0 && cams[0].entity != id {
        lemma_first_match_props(id, cams.drop_first());
        assert(forall|j: int|
            1 <= j < cams.len() ==> #[trigger] cams[j] == cams.drop_first()[j - 1]);
    }
}

/// The resolver's policy in one predicate: the answer `i` names the
/// earliest entity carrying the active handle when one exists, and position
/// zero otherwise.
pub open spec fn camera_pick_ok(active: Option<u64>, cams: Seq<CameraEntity>, i: int) -> bool {
    &&& 0 <= i < cams.len()
    &&& match active {
        Some(id) => if exists|j: int| 0 <= j < cams.len() && (#[trigger] cams[j]).entity == id {
            cams[i].entity == id && forall|j: int| 0 <= j < i ==> (#[trigger] cams[j]).entity
                != id
        } else {
            i == 0
        },
        None => i == 0,
    }
}

/// Scans `cameras` from position `k` for the handle `id`.
fn find_cam(cameras: &Vec<CameraEntity>, id: u64, k: usize) -> (r: Option<usize>)
    requires
        k <= cameras@.len(),
    ensures
        r is None <==> first_cam_match(id, cameras@.subrange(k as int, cameras@.len() as int))
            is None,
        r matches Some(i) ==> k <= i < cameras@.len() && first_cam_match(
            id,
            cameras@.subrange(k as int, cameras@.len() as int),
        ) == Some(i - k),
    decreases cameras@.len() - k,
{
    let ghost tail = cameras@.subrange(k as int, cameras@.len() as int);
    if k == cameras.len() {
        None
    } else if cameras[k].entity == id {
        assert(tail[0] == cameras@[k as int]);
        Some(k)
    } else {
        assert(tail[0] == cameras@[k as int]);
        let r = find_cam(cameras, id, k + 1);
        proof {
            assert(tail.drop_first() =~= cameras@.subrange(k + 1, cameras@.len() as int));
        }
        r
    }
}

/// Resolves the camera for this frame: the entity the active reference
/// names when it is in `cameras`, else the first entry of `cameras`, and
/// `None` exactly when `cameras` is empty.
pub fn resolve_active_camera(active: Option<u64>, cameras: &Vec<CameraEntity>) -> (r: Option<
    usize,
>)
    ensures
        r is None <==> cameras@.len() == 0,
        r matches Some(i) ==> chosen_camera(active, cameras@) == Some(i as int) && camera_pick_ok(
            active,
            cameras@,
            i as int,
        ),
{
    proof {
        assert(cameras@.subrange(0, cameras@.len() as int) =~= cameras@);
        match active {
            Some(id) => lemma_first_match_props(id, cameras@),
            None => {},
        }
    }
    let found: Option<usize> = match active {
        Some(id) => find_cam(cameras, id, 0),
        None => None,
    };
    match found {
        Some(i) => Some(i),
        None => {
            if cameras.len() > 0 {
                Some(0)
            } else {
                None
            }
        },
    }
}

} // verus!
