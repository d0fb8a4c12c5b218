//! Tiles, the unique-key tile map, and loading an edited level from its
//! saved form.

use vstd::prelude::*;
use crate::grid::Pos;

verus! {

/// One tile of a level or blueprint.
#[derive(Clone, Copy, PartialEq, Eq, Structural, Debug)]
pub enum Tile {
    /// Deliberately empty space.
    AirBlock,
    /// A cell covered by a multi-cell tile whose origin is the given cell.
    Dummy(Pos),
    /// The origin cell of a tile, naming its definition.
    TileDefKey(u64),
}

/// A map from grid cells to tiles, with at most one tile per cell.
#[derive(Debug)]
pub struct TileMap {
    pub entries: Vec<(Pos, Tile)>,
}

impl TileMap {
    /// No two entries name the same cell.
    pub open spec fn keys_unique(&self) -> bool {
        forall|i: int, j: int|
            0 <= i < j < self.entries@.len()
                ==> (#[trigger] self.entries@[i]).0 != (#[trigger] self.entries@[j]).0
    }

    /// Some entry maps cell `p`.
    pub open spec fn occupied(&self, p: Pos) -> bool {
        exists|i: int| 0 <= i < self.entries@.len() && (#[trigger] self.entries@[i]).0 == p
    }

    /// Some entry maps cell `p` to tile `t`.
    pub open spec fn has(&self, p: Pos, t: Tile) -> bool {
        exists|i: int| 0 <= i < self.entries@.len() && #[trigger] self.entries@[i] == (p, t)
    }

    /// An empty map.
    pub fn new() -> (r: TileMap)
        ensures
            r.entries@.len() == 0,
            r.keys_unique(),
            forall|p: Pos| !r.occupied(p),
    {
        TileMap { entries: Vec::new() }
    }

    /// How many cells are mapped.
    pub fn len(&self) -> (r: usize)
        ensures
            r == self.entries@.len(),
    {
        self.entries.len()
    }

    /// The tile at cell `p`, if any.
    pub fn get(&self, p: &Pos) -> (r: Option<Tile>)
        ensures
            match r {
                Some(t) => self.has(*p, t),
                None => !self.occupied(*p),
            },
    {
        let n = self.entries.len();
        let mut i: usize = 0;
        while i < n
            invariant
                i <= n,
                n == self.entries@.len(),
                forall|j: int| 0 <= j < i ==> (#[trigger] self.entries@[j]).0 != *p,
            decreases n - i,
        {
            let (q, t) = self.entries[i];
            if q.x == p.x && q.y == p.y {
                return Some(t);
            }
            i = i + 1;
        }
        None
    }

    /// Map cell `p` to tile `t`, replacing whatever tile the cell had. Every
    /// other cell keeps its tile.
    pub fn insert(&mut self, p: Pos, t: Tile)
        requires
            old(self).keys_unique(),
        ensures
            final(self).keys_unique(),
            final(self).has(p, t),
            final(self).occupied(p),
            forall|q: Pos, u: Tile|
                q != p ==> (final(self).has(q, u) <==> old(self).has(q, u)),
            forall|q: Pos| q != p ==> (final(self).occupied(q) <==> old(self).occupied(q)),
            old(self).occupied(p) ==> final(self).entries@.len() == old(self).entries@.len(),
            !old(self).occupied(p)
                ==> final(self).entries@.len() == old(self).entries@.len() + 1,
    {
        let n = self.entries.len();
        let mut i: usize = 0;
        while i < n
            invariant
                i <= n,
                n == self.entries@.len(),
                self == old(self),
                old(self).keys_unique(),
                forall|j: int| 0 <= j < i ==> (#[trigger] self.entries@[j]).0 != p,
            decreases n - i,
        {
            let (q, _) = self.entries[i];
            if q.x == p.x && q.y == p.y {
                self.entries.set(i, (p, t));
                proof {
                    let es = final(self).entries@;
                    assert(es[i as int] == (p, t));
                    assert forall|q2: Pos, u: Tile| q2 != p implies
                        (final(self).has(q2, u) <==> old(self).has(q2, u)) by {
                        if final(self).has(q2, u) {
                            let j = choose|j: int|
                                0 <= j < es.len() && #[trigger] es[j] == (q2, u);
                            assert(old(self).entries@[j] == (q2, u));
                        }
                        if old(self).has(q2, u) {
                            let j = choose|j: int|
                                0 <= j < es.len()
                                    && #[trigger] old(self).entries@[j] == (q2, u);
                            assert(es[j] == (q2, u));
                        }
                    }
                    assert forall|q2: Pos| q2 != p implies
                        (final(self).occupied(q2) <==> old(self).occupied(q2)) by {
                        if final(self).occupied(q2) {
                            let j = choose|j: int|
                                0 <= j < es.len() && (#[trigger] es[j]).0 == q2;
                            assert(old(self).entries@[j].0 == q2);
                        }
                        if old(self).occupied(q2) {
                            let j = choose|j: int|
                                0 <= j < es.len()
                                    && (#[trigger] old(self).entries@[j]).0 == q2;
                            assert(es[j].0 == q2);
                        }
                    }
                    assert(old(self).entries@[i as int].0 == p);
                    assert forall|a: int, b: int| 0 <= a < b < es.len() implies
                        (#[trigger] es[a]).0 != (#[trigger] es[b]).0 by {
                        if a != i {
                            assert(es[a] == old(self).entries@[a]);
                        }
                        if b != i {
                            assert(es[b] == old(self).entries@[b]);
                        }
                        assert(old(self).entries@[a].0 != old(self).entries@[b].0);
                    }
                }
                return;
            }
            i = i + 1;
        }
        self.entries.push((p, t));
        proof {
            let es = final(self).entries@;
            assert(es[n as int] == (p, t));
            assert forall|q2: Pos, u: Tile| q2 != p implies
                (final(self).has(q2, u) <==> old(self).has(q2, u)) by {
                if final(self).has(q2, u) {
                    let j = choose|j: int| 0 <= j < es.len() && #[trigger] es[j] == (q2, u);
                    assert(old(self).entries@[j] == (q2, u));
                }
                if old(self).has(q2, u) {
                    let j = choose|j: int|
                        0 <= j < old(self).entries@.len()
                            && #[trigger] old(self).entries@[j] == (q2, u);
                    assert(es[j] == (q2, u));
                }
            }
            assert forall|q2: Pos| q2 != p implies
                (final(self).occupied(q2) <==> old(self).occupied(q2)) by {
                if final(self).occupied(q2) {
                    let j = choose|j: int| 0 <= j < es.len() && (#[trigger] es[j]).0 == q2;
                    assert(old(self).entries@[j].0 == q2);
                }
                if old(self).occupied(q2) {
                    let j = choose|j: int|
                        0 <= j < old(self).entries@.len()
                            && (#[trigger] old(self).entries@[j]).0 == q2;
                    assert(es[j].0 == q2);
                }
            }
        }
    }
}

/// A tile definition, as far as placement is concerned: how many cells the
/// tile spans.
#[derive(Clone, Copy, PartialEq, Eq, Structural, Debug)]
pub struct TileDef {
    pub dimens: Pos,
}

/// The known tile definitions, keyed by definition id.
#[derive(Debug)]
pub struct TileDefs {
    pub defs: Vec<(u64, TileDef)>,
}

/// The first definition in `defs` registered under `key`, if any.
pub open spec fn def_lookup(defs: Seq<(u64, TileDef)>, key: u64) -> Option<TileDef>
    decreases defs.len(),
{
    if defs.len() == 0 {
        None::<TileDef>
    } else if defs[0].0 == key {
        Some(defs[0].1)
    } else {
        def_lookup(defs.drop_first(), key)
    }
}

impl TileDefs {
    /// The definition registered under `key`, if any.
    pub fn get(&self, key: u64) -> (r: Option<TileDef>)
        ensures
            r == def_lookup(self.defs@, key),
    {
        let n = self.defs.len();
        let mut i: usize = 0;
        proof {
            assert(self.defs@.skip(0) =~= self.defs@);
        }
        while i < n
            invariant
                i <= n,
                n == self.defs@.len(),
                def_lookup(self.defs@.skip(i as int), key) == def_lookup(self.defs@, key),
            decreases n - i,
        {
            let (k, d) = self.defs[i];
            proof {
                assert(self.defs@.skip(i as int)[0] == self.defs@[i as int]);
                assert(self.defs@.skip(i as int).drop_first() =~= self.defs@.skip(i as int + 1));
            }
            if k == key {
                return Some(d);
            }
            i = i + 1;
        }
        proof {
            assert(self.defs@.skip(n as int).len() == 0);
        }
        None
    }
}

/// A level as its saved form hands it over: the level's dimensions and the
/// saved tile placements, in the order they were written. A later placement
/// for the same cell supersedes an earlier one.
#[derive(Debug)]
pub struct LevelSave {
    pub dimensions: Pos,
    pub tiles: Vec<(Pos, Tile)>,
    pub tile_defs: TileDefs,
}

/// A level opened for editing: dimensions and a unique-key tile map.
#[derive(Debug)]
pub struct LevelEdit {
    pub dimensions: Pos,
    pub tile_map: TileMap,
    pub tile_defs: TileDefs,
}

/// The tile a saved placement list gives to cell `q`: the last placement
/// naming `q`, if any.
pub open spec fn saved_tile(s: Seq<(Pos, Tile)>, q: Pos) -> Option<Tile>
    decreases s.len(),
{
    if s.len() == 0 {
        None::<Tile>
    } else if s.last().0 == q {
        Some(s.last().1)
    } else {
        saved_tile(s.drop_last(), q)
    }
}

/// Open a level for editing from its saved form, if one exists; with no
/// saved level, open the default: an empty level with zero dimensions.
/// Every cell holds exactly the tile its last saved placement gave it.
pub fn load_auto_save(saved: Option<LevelSave>) -> (r: LevelEdit)
    ensures
        r.tile_map.keys_unique(),
        match saved {
            Some(ls) => {
                &&& r.dimensions == ls.dimensions
                &&& r.tile_defs.defs@ == ls.tile_defs.defs@
                &&& forall|q: Pos| r.tile_map.occupied(q) <==> saved_tile(ls.tiles@, q) is Some
                &&& forall|q: Pos, t: Tile|
                    r.tile_map.has(q, t) <==> saved_tile(ls.tiles@, q) == Some(t)
            },
            None => {
                &&& r.dimensions == (Pos { x: 0, y: 0 })
                &&& r.tile_defs.defs@.len() == 0
                &&& forall|q: Pos| !r.tile_map.occupied(q)
            },
        },
{
    match saved {
        None => LevelEdit {
            dimensions: Pos { x: 0, y: 0 },
            tile_map: TileMap::new(),
            tile_defs: TileDefs { defs: Vec::new() },
        },
        Some(ls) => {
            let mut map = TileMap::new();
            let n = ls.tiles.len();
            let mut i: usize = 0;
            while i < n
                invariant
                    i <= n,
                    n == ls.tiles@.len(),
                    map.keys_unique(),
                    forall|q: Pos|
                        map.occupied(q) <==> saved_tile(ls.tiles@.take(i as int), q) is Some,
                    forall|q: Pos, t: Tile|
                        map.has(q, t) <==> saved_tile(ls.tiles@.take(i as int), q) == Some(t),
                decreases n - i,
            {
                let (p, t) = ls.tiles[i];
                map.insert(p, t);
                proof {
                    let pre = ls.tiles@.take(i as int);
                    let post = ls.tiles@.take(i + 1 as int);
                    assert(post.last() == ls.tiles@[i as int]);
                    assert(post.drop_last() == pre);
                }
                i = i + 1;
            }
            proof {
                assert(ls.tiles@.take(n as int) == ls.tiles@);
            }
            LevelEdit { dimensions: ls.dimensions, tile_map: map, tile_defs: ls.tile_defs }
        }
    }
}

} // verus!
