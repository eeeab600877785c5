//! Named sprites and the hover hit-test.
//!
//! A sprite's bounding box is axis-aligned in the x/y plane, centered on its
//! transform's translation, with the sprite record's width and height as
//! extents; rotation and z translation are ignored. Containment is strict on
//! all four edges. When several boxes contain the point, the entity latest
//! in the supplied sequence wins: the order of that sequence is part of the
//! input, which makes the tie-break deterministic.
//!
//! All comparisons are carried out on doubled coordinates, so half-extents
//! never round.

use vstd::prelude::*;
use crate::geom::Transform;
use crate::geom::WorldPoint;

verus! {

/// One sprite record of a sheet: extents in world units, fixed-point.
#[derive(Clone, Copy, PartialEq, Eq, Structural, Debug)]
pub struct SpriteRec {
    pub width: i64,
    pub height: i64,
}

/// An ordered sheet of sprite records.
#[derive(Debug)]
pub struct SpriteSheet {
    pub sprites: Vec<SpriteRec>,
}

/// A pickable entity: its transform, a slot into the sheet registry, the
/// sprite index within that sheet, and its immutable name.
#[derive(Debug)]
pub struct SpriteEntity {
    pub transform: Transform,
    pub sheet: usize,
    pub sprite_number: usize,
    pub name: String,
}

/// The sprite record an entity refers to, or `None` while the sheet is
/// absent from the registry, still loading, or the index is out of range.
pub open spec fn sprite_rec(s: SpriteEntity, sheets: Seq<Option<SpriteSheet>>) -> Option<
    SpriteRec,
> {
    if s.sheet < sheets.len() {
        match sheets[s.sheet as int] {
            Some(sh) => if s.sprite_number < sh.sprites.len() {
                Some(sh.sprites[s.sprite_number as int])
            } else {
                None
            },
            None => None,
        }
    } else {
        None
    }
}

/// Strict containment of `p` in the box of extents `rec` centered on `t`'s
/// translation, stated on doubled coordinates.
pub open spec fn in_box(p: WorldPoint, t: Transform, rec: SpriteRec) -> bool {
    &&& 2 * t.translation.x - rec.width < 2 * p.x < 2 * t.translation.x + rec.width
    &&& 2 * t.translation.y - rec.height < 2 * p.y < 2 * t.translation.y + rec.height
}

/// Whether the entity's sprite resolves and its box strictly contains `p`.
pub open spec fn sprite_hit(p: WorldPoint, s: SpriteEntity, sheets: Seq<Option<SpriteSheet>>) -> bool {
    match sprite_rec(s, sheets) {
        Some(rec) => in_box(p, s.transform, rec),
        None => false,
    }
}

/// The name reported for `p`: that of the last entity in `sprites` whose box
/// contains `p`, or `None` when no box does.
pub open spec fn hover_spec(
    p: WorldPoint,
    sprites: Seq<SpriteEntity>,
    sheets: Seq<Option<SpriteSheet>>,
) -> Option<Seq<char>>
    decreases sprites.len(),
{
    if sprites.len() == 0 {
        None
    } else if sprite_hit(p, sprites.last(), sheets) {
        Some(sprites.last().name@)
    } else {
        hover_spec(p, sprites.drop_last(), sheets)
    }
}

/// A world point exactly on a bounding-box edge is outside the box: the
/// boundary is exclusive.
pub proof fn lemma_boundary_excluded(p: WorldPoint, t: Transform, rec: SpriteRec)
    requires
        2 * p.x == 2 * t.translation.x - rec.width || 2 * p.x == 2 * t.translation.x + rec.width
            || 2 * p.y == 2 * t.translation.y - rec.height || 2 * p.y == 2 * t.translation.y
            + rec.height,
    ensures
        !in_box(p, t, rec),
{
}

/// A world point on the bounding-box edge of a sprite is never reported as
/// hovering it: hit-testing that sprite alone reports nothing.
pub proof fn lemma_edge_not_reported(
    p: WorldPoint,
    s: SpriteEntity,
    sheets: Seq<Option<SpriteSheet>>,
)
    requires
        match sprite_rec(s, sheets) {
            Some(rec) => 2 * p.x == 2 * s.transform.translation.x - rec.width || 2 * p.x == 2
                * s.transform.translation.x + rec.width || 2 * p.y == 2
                * s.transform.translation.y - rec.height || 2 * p.y == 2
                * s.transform.translation.y + rec.height,
            None => false,
        },
    ensures
        hover_spec(p, seq![s], sheets) is None,
{
    match sprite_rec(s, sheets) {
        Some(rec) => {
            lemma_boundary_excluded(p, s.transform, rec);
            assert(forall|i: int| 0 <= i < seq![s].len() ==> #[trigger] seq![s][i] == s);
            lemma_no_hit_no_hover(p, seq![s], sheets);
        },
        None => {},
    }
}

/// When no entity's box contains the point, no name is reported.
pub proof fn lemma_no_hit_no_hover(
    p: WorldPoint,
    sprites: Seq<SpriteEntity>,
    sheets: Seq<Option<SpriteSheet>>,
)
    requires
        forall|i: int| 0 <= i < sprites.len() ==> !sprite_hit(p, #[trigger] sprites[i], sheets),
    ensures
        hover_spec(p, sprites, sheets) is None,
    decreases sprites.len(),
{
    if sprites.len() > 0 {
        assert(sprites.last() == sprites[sprites.len() - 1]);
        lemma_no_hit_no_hover(p, sprites.drop_last(), sheets);
    }
}

/// Exact containment test for one resolved sprite record.
fn box_contains(p: &WorldPoint, t: &Transform, rec: SpriteRec) -> (b: bool)
    ensures
        b == in_box(*p, *t, rec),
{
    let px2: i128 = 2 * (p.x as i128);
    let py2: i128 = 2 * (p.y as i128);
    let cx2: i128 = 2 * (t.translation.x as i128);
    let cy2: i128 = 2 * (t.translation.y as i128);
    let w: i128 = rec.width as i128;
    let h: i128 = rec.height as i128;
    cx2 - w < px2 && px2 < cx2 + w && cy2 - h < py2 && py2 < cy2 + h
}

/// Hit-tests `p` against every entity of `sprites` and returns the name of
/// the hovered one: the last whose resolved box strictly contains `p`.
/// Entities whose sheet or sprite index does not resolve are skipped.
pub fn hover_name(
    p: &WorldPoint,
    sprites: &Vec<SpriteEntity>,
    sheets: &Vec<Option<SpriteSheet>>,
) -> (r: Option<String>)
    ensures
        r is Some <==> hover_spec(*p, sprites@, sheets@) is Some,
        r matches Some(nm) ==> hover_spec(*p, sprites@, sheets@) == Some(nm@),
{
    let mut found: Option<String> = None;
    let mut i: usize = 0;
    while i < sprites.len()
        invariant
            i <= sprites.len(),
            found is Some <==> hover_spec(*p, sprites@.subrange(0, i as int), sheets@) is Some,
            found matches Some(nm) ==> hover_spec(*p, sprites@.subrange(0, i as int), sheets@)
                == Some(nm@),
        decreases sprites.len() - i,
    {
        let s = &sprites[i];
        let mut hit: bool = false;
        if s.sheet < sheets.len() {
            match &sheets[s.sheet] {
                Some(sh) => {
                    if s.sprite_number < sh.sprites.len() {
                        let rec: SpriteRec = sh.sprites[s.sprite_number];
                        hit = box_contains(p, &s.transform, rec);
                    }
                },
                None => {},
            }
        }
        assert(hit == sprite_hit(*p, sprites@[i as int], sheets@));
        if hit {
            found = Some(s.name.clone());
        }
        proof {
            assert(sprites@.subrange(0, i + 1).drop_last() =~= sprites@.subrange(0, i as int));
            assert(sprites@.subrange(0, i + 1).last() == sprites@[i as int]);
        }
        i = i + 1;
    }
    proof {
        assert(sprites@.subrange(0, sprites@.len() as int) =~= sprites@);
    }
    found
}

} // verus!
