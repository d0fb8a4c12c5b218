//! Blueprints: rectangular tile selections that the level editor copies,
//! pastes and stamps out with a brush.

use vstd::prelude::*;
use crate::grid::{Pos, MAX_CELL};
use crate::level::{LevelEdit, Tile, TileDef, TileMap, def_lookup};

verus! {

/// The editor's brush: the tile definition it stamps, if one is selected.
#[derive(Clone, Copy, PartialEq, Eq, Structural, Debug)]
pub struct Brush {
    pub key: Option<u64>,
}

impl Brush {
    /// The selected tile definition id, if any.
    pub fn get_key(&self) -> (r: Option<u64>)
        ensures
            r == self.key,
    {
        self.key
    }
}

/// The editor's current rectangular selection, reduced to its dimensions.
#[derive(Clone, Copy, PartialEq, Eq, Structural, Debug)]
pub struct Selection {
    pub dimens: Pos,
}

impl Selection {
    /// Width and height of the selection, in cells.
    pub fn dimens(&self) -> (r: Pos)
        ensures
            r == self.dimens,
    {
        self.dimens
    }
}

/// The editor's per-session state, as far as blueprint stamping reads it.
#[derive(Clone, Copy, PartialEq, Eq, Structural, Debug)]
pub struct EditorData {
    pub brush: Brush,
    pub selection: Selection,
}

/// Cell `q` lies in the rectangle of size `dimens` whose lower-left cell is
/// `origin`.
pub open spec fn in_rect(origin: Pos, dimens: Pos, q: Pos) -> bool {
    &&& origin.x <= q.x < origin.x + dimens.x
    &&& origin.y <= q.y < origin.y + dimens.y
}

/// Largest multiple of `step` not above `v`, for nonnegative `v` and
/// positive `step`: the origin of the stamping block that contains `v`.
pub open spec fn align_down(v: int, step: int) -> int {
    v - v % step
}

/// The dimensions the brush stamps with: the selected tile definition's
/// dimensions, or a single cell when no definition is selected or the
/// selected key is unknown.
pub open spec fn brush_dimens_spec(ed: EditorData, defs: Seq<(u64, TileDef)>) -> Pos {
    match ed.brush.key {
        None => Pos { x: 1, y: 1 },
        Some(k) => match def_lookup(defs, k) {
            Some(d) => d.dimens,
            None => Pos { x: 1, y: 1 },
        },
    }
}

/// Cell `q` is covered when a selection of size `sel` is stamped out with
/// brush blocks of size `bd`: its block's origin lies inside the selection.
pub open spec fn stamp_covers(sel: Pos, bd: Pos, q: Pos) -> bool {
    &&& 0 <= q.x
    &&& 0 <= q.y
    &&& align_down(q.x as int, bd.x as int) < sel.x
    &&& align_down(q.y as int, bd.y as int) < sel.y
}

/// The tile a covered cell receives: with a brush key, the key itself at
/// each block origin and a dummy pointing back at the origin elsewhere;
/// with no key, plain air.
pub open spec fn stamped_tile(key: Option<u64>, bd: Pos, q: Pos) -> Tile {
    match key {
        None => Tile::AirBlock,
        Some(k) => if q.x as int % bd.x as int == 0 && q.y as int % bd.y as int == 0 {
            Tile::TileDefKey(k)
        } else {
            Tile::Dummy(Pos {
                x: align_down(q.x as int, bd.x as int) as i64,
                y: align_down(q.y as int, bd.y as int) as i64,
            })
        },
    }
}

/// Cell `q` has been stamped by the loops of `from_placing_tiles` once the
/// columns before `x` are complete and column `x` is complete up to row `y`.
spec fn covered_until(sel: Pos, bd: Pos, x: int, y: int, q: Pos) -> bool {
    &&& 0 <= q.x
    &&& 0 <= q.y
    &&& {
        ||| (align_down(q.x as int, bd.x as int) < x
            && align_down(q.y as int, bd.y as int) < sel.y)
        ||| (align_down(q.x as int, bd.x as int) == x
            && align_down(q.y as int, bd.y as int) < y)
    }
}

/// Aligning a nonnegative coordinate down to its block origin stays
/// nonnegative, does not grow, and lands on a multiple of the step.
proof fn lemma_align_nonneg(v: int, b: int)
    requires
        0 <= v,
        1 <= b,
    ensures
        0 <= align_down(v, b) <= v,
        align_down(v, b) % b == 0,
{
    vstd::arithmetic::div_mod::lemma_mod_bound(v, b);
    vstd::arithmetic::div_mod::lemma_mod_decreases(v as nat, b as nat);
    vstd::arithmetic::div_mod::lemma_fundamental_div_mod(v, b);
    vstd::arithmetic::div_mod::lemma_mod_multiples_vanish(v / b, 0, b);
}

/// Within one stamped block, the remainder is the offset from the block's
/// origin, so the origin is exactly the coordinate aligned down.
proof fn lemma_block_alignment(x: int, q: int, b: int)
    requires
        1 <= b,
        x % b == 0,
        x <= q < x + b,
    ensures
        q % b == q - x,
        align_down(q, b) == x,
{
    let r = q - x;
    vstd::arithmetic::div_mod::lemma_small_mod(r as nat, b as nat);
    vstd::arithmetic::div_mod::lemma_mod_adds(x, r, b);
}

/// Distinct multiples of `b` lie at least `b` apart.
proof fn lemma_multiple_gap(m1: int, m2: int, b: int)
    requires
        1 <= b,
        m1 % b == 0,
        m2 % b == 0,
        m1 < m2,
    ensures
        m1 + b <= m2,
{
    let d = m2 - m1;
    vstd::arithmetic::div_mod::lemma_mod_equivalence(m2, m1, b);
    vstd::arithmetic::div_mod::lemma_fundamental_div_mod(d, b);
    let k = d / b;
    assert(d == b * k);
    assert(k >= 1) by (nonlinear_arith)
        requires b >= 1 && d == b * k && d >= 1;
    assert(b * k >= b) by (nonlinear_arith)
        requires b >= 1 && k >= 1;
}

/// A nonnegative multiple of `b` is below the first multiple of `b` at or
/// past `lim` exactly when it is below `lim` itself.
proof fn lemma_multiple_boundary(m: int, x: int, lim: int, b: int)
    requires
        1 <= b,
        0 <= m,
        m % b == 0,
        x % b == 0,
        lim <= x,
        x == 0 || x - b < lim,
    ensures
        (m < x) <==> (m < lim),
{
    if m < x {
        lemma_multiple_gap(m, x, b);
    }
}

/// Contains a tile map. Is a blueprint for a structure of tiles inside a
/// level: a copied selection is stored as a blueprint, and a blueprint can
/// be pasted back into a level.
#[derive(Debug)]
pub struct Blueprint {
    pub dimensions: Pos,
    pub tiles: TileMap,
}

impl Blueprint {
    /// An empty blueprint of the given dimensions.
    pub fn new(dimensions: Pos) -> (r: Blueprint)
        ensures
            r.dimensions == dimensions,
            r.tiles.entries@.len() == 0,
            r.tiles.keys_unique(),
            forall|p: Pos| !r.tiles.occupied(p),
    {
        Blueprint { dimensions, tiles: TileMap::new() }
    }

    /// Stamp out the editor's current selection with the brush: walk the
    /// selection in brush-sized steps and place one brush tile per block —
    /// the brush's tile definition key at each block origin, dummies across
    /// the rest of each block — or plain air per cell when no key is
    /// selected.
    pub fn from_placing_tiles(editor_data: &EditorData, level_edit: &LevelEdit) -> (r: Blueprint)
        requires
            0 <= editor_data.selection.dimens.x,
            0 <= editor_data.selection.dimens.y,
            ({
                let bd = brush_dimens_spec(*editor_data, level_edit.tile_defs.defs@);
                &&& 1 <= bd.x
                &&& 1 <= bd.y
                &&& editor_data.selection.dimens.x + bd.x <= MAX_CELL
                &&& editor_data.selection.dimens.y + bd.y <= MAX_CELL
            }),
        ensures
            r.dimensions == editor_data.selection.dimens,
            r.tiles.keys_unique(),
            ({
                let sel = editor_data.selection.dimens;
                let bd = brush_dimens_spec(*editor_data, level_edit.tile_defs.defs@);
                let key = editor_data.brush.key;
                &&& forall|q: Pos| r.tiles.occupied(q) <==> stamp_covers(sel, bd, q)
                &&& forall|q: Pos, t: Tile|
                    r.tiles.has(q, t)
                        <==> (stamp_covers(sel, bd, q) && t == stamped_tile(key, bd, q))
            }),
    {
        let key = editor_data.brush.get_key();
        let brush_dimens = match key {
            Some(k) => match level_edit.tile_defs.get(k) {
                Some(def) => def.dimens,
                None => Pos { x: 1, y: 1 },
            },
            None => Pos { x: 1, y: 1 },
        };
        let selection_dimens = editor_data.selection.dimens();
        proof {
            assert(brush_dimens == brush_dimens_spec(*editor_data, level_edit.tile_defs.defs@));
        }
        let ghost sel = selection_dimens;
        let ghost bd = brush_dimens;
        let mut blueprint = Blueprint::new(selection_dimens);
        let mut x: i64 = 0;
        proof {
            assert forall|q: Pos| !covered_until(sel, bd, 0, 0, q) by {
                if 0 <= q.x && 0 <= q.y {
                    lemma_align_nonneg(q.x as int, bd.x as int);
                    lemma_align_nonneg(q.y as int, bd.y as int);
                }
            }
        }
        while x < selection_dimens.x
            invariant
                0 <= x,
                (x as int) % (bd.x as int) == 0,
                x == 0 || x - bd.x < sel.x,
                x <= sel.x + bd.x,
                1 <= bd.x,
                1 <= bd.y,
                0 <= sel.x,
                0 <= sel.y,
                sel.x + bd.x <= MAX_CELL,
                sel.y + bd.y <= MAX_CELL,
                sel == selection_dimens,
                bd == brush_dimens,
                bd == brush_dimens_spec(*editor_data, level_edit.tile_defs.defs@),
                key == editor_data.brush.key,
                blueprint.dimensions == sel,
                blueprint.tiles.keys_unique(),
                forall|q: Pos|
                    blueprint.tiles.occupied(q) <==> covered_until(sel, bd, x as int, 0, q),
                forall|q: Pos, t: Tile|
                    blueprint.tiles.has(q, t)
                        <==> (covered_until(sel, bd, x as int, 0, q)
                            && t == stamped_tile(key, bd, q)),
            decreases sel.x + bd.x - x,
        {
            let mut y: i64 = 0;
            while y < selection_dimens.y
                invariant
                    0 <= y,
                    (y as int) % (bd.y as int) == 0,
                    y == 0 || y - bd.y < sel.y,
                    y <= sel.y + bd.y,
                    0 <= x < sel.x,
                    (x as int) % (bd.x as int) == 0,
                    1 <= bd.x,
                    1 <= bd.y,
                    0 <= sel.x,
                    0 <= sel.y,
                    sel.x + bd.x <= MAX_CELL,
                    sel.y + bd.y <= MAX_CELL,
                    sel == selection_dimens,
                    bd == brush_dimens,
                    bd == brush_dimens_spec(*editor_data, level_edit.tile_defs.defs@),
                    key == editor_data.brush.key,
                    blueprint.dimensions == sel,
                    blueprint.tiles.keys_unique(),
                    forall|q: Pos|
                        blueprint.tiles.occupied(q) <==> covered_until(sel, bd, x as int, y as int, q),
                    forall|q: Pos, t: Tile|
                        blueprint.tiles.has(q, t)
                            <==> (covered_until(sel, bd, x as int, y as int, q)
                                && t == stamped_tile(key, bd, q)),
                decreases sel.y + bd.y - y,
            {
                let origin = Pos { x, y };
                match key {
                    Some(k) => {
                        blueprint.insert_tile(origin, &brush_dimens, Tile::TileDefKey(k));
                    }
                    None => {
                        blueprint.tiles.insert(origin, Tile::AirBlock);
                    }
                }
                proof {
                    let bx = bd.x as int;
                    let by = bd.y as int;
                    assert forall|q: Pos|
                        in_rect(origin, bd, q)
                            <==> (0 <= q.x && 0 <= q.y
                                && align_down(q.x as int, bx) == x as int
                                && align_down(q.y as int, by) == y as int) by {
                        if in_rect(origin, bd, q) {
                            lemma_block_alignment(x as int, q.x as int, bx);
                            lemma_block_alignment(y as int, q.y as int, by);
                        } else if 0 <= q.x && 0 <= q.y
                            && align_down(q.x as int, bx) == x as int
                            && align_down(q.y as int, by) == y as int {
                            vstd::arithmetic::div_mod::lemma_mod_bound(q.x as int, bx);
                            vstd::arithmetic::div_mod::lemma_mod_bound(q.y as int, by);
                        }
                    }
                    assert forall|q: Pos| in_rect(origin, bd, q) implies
                        stamped_tile(key, bd, q)
                            == (if q == origin {
                                match key {
                                    Some(k) => Tile::TileDefKey(k),
                                    None => Tile::AirBlock,
                                }
                            } else {
                                Tile::Dummy(origin)
                            }) by {
                        lemma_block_alignment(x as int, q.x as int, bd.x as int);
                        lemma_block_alignment(y as int, q.y as int, bd.y as int);
                    }
                    assert forall|q: Pos|
                        covered_until(sel, bd, x as int, y + bd.y, q)
                            <==> (covered_until(sel, bd, x as int, y as int, q)
                                || in_rect(origin, bd, q)) by {
                        if 0 <= q.x && 0 <= q.y {
                            let ay = align_down(q.y as int, bd.y as int);
                            lemma_align_nonneg(q.y as int, bd.y as int);
                            if ay < y + bd.y && ay != y as int && !(ay < y) {
                                lemma_multiple_gap(y as int, ay, bd.y as int);
                            }
                        }
                    }
                    assert forall|q: Pos|
                        blueprint.tiles.occupied(q)
                            <==> covered_until(sel, bd, x as int, y + bd.y, q) by {
                        if in_rect(origin, bd, q) {
                            assert(blueprint.tiles.occupied(q));
                        }
                    }
                    vstd::arithmetic::div_mod::lemma_mod_add_multiples_vanish(
                        y as int,
                        bd.y as int,
                    );
                }
                y = y + brush_dimens.y;
            }
            proof {
                assert forall|q: Pos|
                    covered_until(sel, bd, x + bd.x, 0, q)
                        <==> covered_until(sel, bd, x as int, y as int, q) by {
                    if 0 <= q.x && 0 <= q.y {
                        let ax = align_down(q.x as int, bd.x as int);
                        let ay = align_down(q.y as int, bd.y as int);
                        lemma_align_nonneg(q.x as int, bd.x as int);
                        lemma_align_nonneg(q.y as int, bd.y as int);
                        lemma_multiple_boundary(ay, y as int, sel.y as int, bd.y as int);
                        if ax < x + bd.x && ax != x as int && !(ax < x) {
                            lemma_multiple_gap(x as int, ax, bd.x as int);
                        }
                    }
                }
                vstd::arithmetic::div_mod::lemma_mod_add_multiples_vanish(x as int, bd.x as int);
            }
            x = x + brush_dimens.x;
        }
        proof {
            assert forall|q: Pos|
                covered_until(sel, bd, x as int, 0, q) <==> stamp_covers(sel, bd, q) by {
                if 0 <= q.x && 0 <= q.y {
                    let ax = align_down(q.x as int, bd.x as int);
                    lemma_align_nonneg(q.x as int, bd.x as int);
                    lemma_align_nonneg(q.y as int, bd.y as int);
                    lemma_multiple_boundary(ax, x as int, sel.x as int, bd.x as int);
                }
            }
        }
        blueprint
    }

    /// Stamp one tile: map `pos` to `tile`, and cover the rest of the
    /// `dimens`-sized rectangle at `pos` with dummies pointing back at
    /// `pos`. Cells outside the rectangle keep their tiles.
    pub fn insert_tile(&mut self, pos: Pos, dimens: &Pos, tile: Tile)
        requires
            old(self).tiles.keys_unique(),
            1 <= dimens.x <= MAX_CELL,
            1 <= dimens.y <= MAX_CELL,
            -MAX_CELL <= pos.x && pos.x + dimens.x <= MAX_CELL,
            -MAX_CELL <= pos.y && pos.y + dimens.y <= MAX_CELL,
        ensures
            final(self).dimensions == old(self).dimensions,
            final(self).tiles.keys_unique(),
            final(self).tiles.has(pos, tile),
            forall|q: Pos|
                in_rect(pos, *dimens, q) && q != pos
                    ==> final(self).tiles.has(q, Tile::Dummy(pos)),
            forall|q: Pos| in_rect(pos, *dimens, q) ==> final(self).tiles.occupied(q),
            forall|q: Pos, u: Tile|
                !in_rect(pos, *dimens, q)
                    ==> (final(self).tiles.has(q, u) <==> old(self).tiles.has(q, u)),
            forall|q: Pos|
                !in_rect(pos, *dimens, q)
                    ==> (final(self).tiles.occupied(q) <==> old(self).tiles.occupied(q)),
    {
        self.tiles.insert(pos, tile);
        let x_end: i64 = pos.x + dimens.x;
        let y_end: i64 = pos.y + dimens.y;
        let mut x: i64 = pos.x;
        while x < x_end
            invariant
                pos.x <= x <= x_end,
                x_end == pos.x + dimens.x,
                y_end == pos.y + dimens.y,
                1 <= dimens.x,
                1 <= dimens.y,
                self.dimensions == old(self).dimensions,
                self.tiles.keys_unique(),
                self.tiles.has(pos, tile),
                forall|q: Pos|
                    in_rect(pos, *dimens, q) && q != pos && q.x < x
                        ==> self.tiles.has(q, Tile::Dummy(pos)),
                forall|q: Pos, u: Tile|
                    !in_rect(pos, *dimens, q) && q != pos
                        ==> (self.tiles.has(q, u) <==> old(self).tiles.has(q, u)),
                forall|q: Pos|
                    !in_rect(pos, *dimens, q) && q != pos
                        ==> (self.tiles.occupied(q) <==> old(self).tiles.occupied(q)),
            decreases x_end - x,
        {
            let mut y: i64 = pos.y;
            while y < y_end
                invariant
                    pos.y <= y <= y_end,
                    pos.x <= x < x_end,
                    x_end == pos.x + dimens.x,
                    y_end == pos.y + dimens.y,
                    1 <= dimens.x,
                    1 <= dimens.y,
                    self.dimensions == old(self).dimensions,
                    self.tiles.keys_unique(),
                    self.tiles.has(pos, tile),
                    forall|q: Pos|
                        in_rect(pos, *dimens, q) && q != pos && q.x < x
                            ==> self.tiles.has(q, Tile::Dummy(pos)),
                    forall|q: Pos|
                        in_rect(pos, *dimens, q) && q != pos && q.x == x && q.y < y
                            ==> self.tiles.has(q, Tile::Dummy(pos)),
                    forall|q: Pos, u: Tile|
                        !in_rect(pos, *dimens, q) && q != pos
                            ==> (self.tiles.has(q, u) <==> old(self).tiles.has(q, u)),
                    forall|q: Pos|
                        !in_rect(pos, *dimens, q) && q != pos
                            ==> (self.tiles.occupied(q) <==> old(self).tiles.occupied(q)),
                decreases y_end - y,
            {
                if x != pos.x || y != pos.y {
                    self.tiles.insert(Pos { x, y }, Tile::Dummy(pos));
                }
                y = y + 1;
            }
            x = x + 1;
        }
        proof {
            assert forall|q: Pos| in_rect(pos, *dimens, q) implies
                self.tiles.occupied(q) by {
                if q == pos {
                    assert(self.tiles.has(pos, tile));
                } else {
                    assert(self.tiles.has(q, Tile::Dummy(pos)));
                }
            }
        }
    }

    /// Returns true iff the given rectangle overlaps with any of the tiles
    /// in the blueprint. The given position must be relative to the
    /// blueprint.
    pub fn overlaps(&self, pos: Pos, dimens: Pos) -> (r: bool)
        requires
            -MAX_CELL <= pos.x && pos.x + dimens.x <= MAX_CELL,
            -MAX_CELL <= pos.y && pos.y + dimens.y <= MAX_CELL,
            0 <= dimens.x,
            0 <= dimens.y,
        ensures
            r == exists|q: Pos| in_rect(pos, dimens, q) && #[trigger] self.tiles.occupied(q),
    {
        let x_end: i64 = pos.x + dimens.x;
        let y_end: i64 = pos.y + dimens.y;
        let mut x: i64 = pos.x;
        while x < x_end
            invariant
                pos.x <= x <= x_end,
                x_end == pos.x + dimens.x,
                y_end == pos.y + dimens.y,
                0 <= dimens.x,
                0 <= dimens.y,
                forall|q: Pos|
                    in_rect(pos, dimens, q) && q.x < x ==> !(#[trigger] self.tiles.occupied(q)),
            decreases x_end - x,
        {
            let mut y: i64 = pos.y;
            while y < y_end
                invariant
                    pos.y <= y <= y_end,
                    pos.x <= x < x_end,
                    x_end == pos.x + dimens.x,
                    y_end == pos.y + dimens.y,
                    forall|q: Pos|
                        in_rect(pos, dimens, q) && q.x < x
                            ==> !(#[trigger] self.tiles.occupied(q)),
                    forall|q: Pos|
                        in_rect(pos, dimens, q) && q.x == x && q.y < y
                            ==> !(#[trigger] self.tiles.occupied(q)),
                decreases y_end - y,
            {
                let probe = Pos { x, y };
                if self.tiles.get(&probe).is_some() {
                    proof {
                        assert(self.tiles.occupied(probe));
                        assert(in_rect(pos, dimens, probe));
                    }
                    return true;
                }
                y = y + 1;
            }
            x = x + 1;
        }
        false
    }
}

} // verus!
