use vstd::prelude::*;
use std::collections::HashMap;
use std::marker::PhantomData;
use crate::coords::{CoordKey, CoordType};
use crate::tile::HexTile;

verus! {

broadcast use vstd::std_specs::hash::group_hash_axioms;

/// The key of a coordinate value.
pub open spec fn key_of_coord<C: CoordType>(c: C) -> CoordKey {
    C::key_of(c.rep())
}

/// `coords[i]` is the last coordinate of `coords` with key `k`.
pub open spec fn last_with_key<C: CoordType>(coords: Seq<C>, k: CoordKey, i: int) -> bool {
    &&& 0 <= i < coords.len()
    &&& key_of_coord(coords[i]) == k
    &&& forall|j: int| i < j < coords.len() ==> key_of_coord(#[trigger] coords[j]) != k
}

/// Some coordinate of `coords` has key `k`.
pub open spec fn has_key<C: CoordType>(coords: Seq<C>, k: CoordKey) -> bool {
    exists|i: int| 0 <= i < coords.len() && key_of_coord(#[trigger] coords[i]) == k
}

/// What `initialize` does to the tiles by key: every key of `coords` gets a
/// tile holding the last coordinate with that key and data made by
/// `new_data`; the other tiles stay.
pub open spec fn initialized<C: CoordType, D, F: Fn() -> D>(
    before: Map<CoordKey, HexTile<C, D>>,
    coords: Seq<C>,
    new_data: F,
    after: Map<CoordKey, HexTile<C, D>>,
) -> bool {
    &&& forall|k: CoordKey|
        #[trigger] after.contains_key(k) <==> before.contains_key(k) || has_key(coords, k)
    &&& forall|k: CoordKey, i: int|
        #[trigger] last_with_key(coords, k, i) ==> after[k]@.0 == coords[i] && new_data.ensures(
            (),
            after[k]@.1,
        )
    &&& forall|k: CoordKey|
        before.contains_key(k) && !has_key(coords, k) ==> #[trigger] after[k] == before[k]
}

/// Storage for the tiles of a grid, addressed by key.
pub trait HexGridDataWrapper<C: CoordType, D>: Sized {
    /// The storage is consistent.
    spec fn wf(&self) -> bool;

    /// The tile stored under each key.
    spec fn contents(&self) -> Map<CoordKey, HexTile<C, D>>;

    /// The keys in the order in which their tiles are visited.
    spec fn key_seq(&self) -> Seq<CoordKey>;

    /// The tiles in the order in which they are visited.
    spec fn tile_seq(&self) -> Seq<HexTile<C, D>>;

    /// A consistent storage visits each stored key once, with its tile.
    proof fn lemma_visits_contents(&self)
        requires
            self.wf(),
        ensures
            self.key_seq().len() == self.tile_seq().len(),
            self.key_seq().no_duplicates(),
            forall|k: CoordKey| #[trigger]
                self.contents().contains_key(k) <==> self.key_seq().contains(k),
            forall|i: int|
                0 <= i < self.key_seq().len() ==> self.contents()[#[trigger] self.key_seq()[i]]
                    == self.tile_seq()[i],
    ;

    fn new() -> (r: Self)
        ensures
            r.wf(),
            r.contents() == Map::<CoordKey, HexTile<C, D>>::empty(),
            r.key_seq().len() == 0,
    ;

    /// Adds one tile for each coordinate of `init`, with data from
    /// `new_data`. A later coordinate with the key of an earlier one replaces
    /// its tile.
    fn initialize<F: Fn() -> D>(&mut self, init: Vec<C>, new_data: &F)
        requires
            old(self).wf(),
            new_data.requires(()),
        ensures
            final(self).wf(),
            initialized(old(self).contents(), init@, *new_data, final(self).contents()),
    ;

    fn borrow_tile_by_key(&self, key: CoordKey) -> (r: Option<&HexTile<C, D>>)
        requires
            self.wf(),
        ensures
            match r {
                Some(t) => self.contents().contains_key(key) && *t == self.contents()[key],
                None => !self.contents().contains_key(key),
            },
    ;

    fn mut_borrow_tile_by_key(&mut self, key: CoordKey) -> (r: Option<&mut HexTile<C, D>>)
        requires
            old(self).wf(),
        ensures
            final(self).wf(),
            final(self).key_seq() == old(self).key_seq(),
            match r {
                Some(t) => {
                    &&& old(self).contents().contains_key(key)
                    &&& *t == old(self).contents()[key]
                    &&& final(self).contents() == old(self).contents().insert(key, *final(t))
                },
                None => {
                    &&& !old(self).contents().contains_key(key)
                    &&& final(self).contents() == old(self).contents()
                },
            },
    ;

    /// Hands the data of every tile to `f` to change in place.
    fn mutate_all_data<F: Fn(&mut D)>(&mut self, f: &F)
        requires
            old(self).wf(),
            forall|d: &mut D| f.requires((d,)),
        ensures
            final(self).wf(),
            final(self).key_seq() == old(self).key_seq(),
            final(self).tile_seq().len() == old(self).tile_seq().len(),
            forall|i: int|
                0 <= i < old(self).tile_seq().len() ==> {
                    &&& (#[trigger] final(self).tile_seq()[i])@.0 == old(self).tile_seq()[i]@.0
                    &&& exists|r: &mut D|
                        *r == old(self).tile_seq()[i]@.1 && *final(r) == final(self).tile_seq()[i]@.1
                            && f.ensures((r,), ())
                },
    ;
}

/// A coordinate of `coords` with key `k` at or after position `i` is the
/// last one with that key.
proof fn lemma_last_with_key_exists<C: CoordType>(coords: Seq<C>, k: CoordKey, i: int)
    requires
        0 <= i < coords.len(),
        key_of_coord(coords[i]) == k,
    ensures
        exists|j: int| i <= j && #[trigger] last_with_key(coords, k, j),
    decreases coords.len() - i,
{
    if exists|j: int| i < j < coords.len() && key_of_coord(#[trigger] coords[j]) == k {
        let j = choose|j: int| i < j < coords.len() && key_of_coord(#[trigger] coords[j]) == k;
        lemma_last_with_key_exists(coords, k, j);
    } else {
        assert(last_with_key(coords, k, i));
    }
}

/// After `initialize` on empty storage, the key of every coordinate of the
/// stream finds a tile holding a coordinate with that key and data that
/// `new_data` made; a key that no coordinate of the stream has finds none.
pub proof fn lemma_lookup_after_initialize<C: CoordType, D, F: Fn() -> D>(
    coords: Seq<C>,
    new_data: F,
    after: Map<CoordKey, HexTile<C, D>>,
)
    requires
        initialized(Map::empty(), coords, new_data, after),
    ensures
        forall|i: int|
            0 <= i < coords.len() ==> {
                let k = key_of_coord(#[trigger] coords[i]);
                &&& after.contains_key(k)
                &&& key_of_coord(after[k]@.0) == k
                &&& new_data.ensures((), after[k]@.1)
            },
        forall|k: CoordKey| !has_key(coords, k) ==> !(#[trigger] after.contains_key(k)),
{
    assert forall|i: int| 0 <= i < coords.len() implies {
        let k = key_of_coord(#[trigger] coords[i]);
        &&& after.contains_key(k)
        &&& key_of_coord(after[k]@.0) == k
        &&& new_data.ensures((), after[k]@.1)
    } by {
        let k = key_of_coord(coords[i]);
        assert(has_key(coords, k));
        lemma_last_with_key_exists(coords, k, i);
        let j = choose|j: int| i <= j && #[trigger] last_with_key(coords, k, j);
        assert(last_with_key(coords, k, j));
    }
}

/// What `mutate_all_data` promises, read by key: every key keeps its tile,
/// with the same coordinate and data that `f` left behind when handed the
/// data before, whatever order the tiles were visited in.
pub proof fn lemma_mutate_all_by_key<C: CoordType, D, W: HexGridDataWrapper<C, D>, F: Fn(&mut D)>(
    before: W,
    after: W,
    f: F,
)
    requires
        before.wf(),
        after.wf(),
        after.key_seq() == before.key_seq(),
        after.tile_seq().len() == before.tile_seq().len(),
        forall|i: int|
            0 <= i < before.tile_seq().len() ==> {
                &&& (#[trigger] after.tile_seq()[i])@.0 == before.tile_seq()[i]@.0
                &&& exists|r: &mut D|
                    *r == before.tile_seq()[i]@.1 && *final(r) == after.tile_seq()[i]@.1
                        && f.ensures((r,), ())
            },
    ensures
        forall|k: CoordKey| #[trigger]
            after.contents().contains_key(k) <==> before.contents().contains_key(k),
        forall|k: CoordKey|
            #[trigger] before.contents().contains_key(k) ==> {
                &&& after.contents()[k]@.0 == before.contents()[k]@.0
                &&& exists|r: &mut D|
                    *r == before.contents()[k]@.1 && *final(r) == after.contents()[k]@.1
                        && f.ensures((r,), ())
            },
{
    before.lemma_visits_contents();
    after.lemma_visits_contents();
    assert forall|k: CoordKey| #[trigger] before.contents().contains_key(k) implies {
        &&& after.contents()[k]@.0 == before.contents()[k]@.0
        &&& exists|r: &mut D|
            *r == before.contents()[k]@.1 && *final(r) == after.contents()[k]@.1 && f.ensures(
                (r,),
                (),
            )
    } by {
        let i = choose|i: int| 0 <= i < before.key_seq().len() && before.key_seq()[i] == k;
        assert(before.contents()[before.key_seq()[i]] == before.tile_seq()[i]);
        assert(after.contents()[after.key_seq()[i]] == after.tile_seq()[i]);
        assert(after.tile_seq()[i]@.0 == before.tile_seq()[i]@.0);
    }
}

/// A key as one integer: the three components in separate 32-bit ranges.
pub open spec fn spec_pack(k: CoordKey) -> i128 {
    (k.0 * 0x1_0000_0000_0000_0000 + k.1 * 0x1_0000_0000 + k.2) as i128
}

fn pack(k: CoordKey) -> (r: i128)
    ensures
        r == spec_pack(k),
{
    (k.0 as i128) * 0x1_0000_0000_0000_0000 + (k.1 as i128) * 0x1_0000_0000 + (k.2 as i128)
}

proof fn lemma_pack_injective(a: CoordKey, b: CoordKey)
    ensures
        spec_pack(a) == spec_pack(b) ==> a == b,
{
    let d0 = a.0 - b.0;
    let d1 = a.1 - b.1;
    let d2 = a.2 - b.2;
    let pa = a.0 * 0x1_0000_0000_0000_0000 + a.1 * 0x1_0000_0000 + a.2;
    let pb = b.0 * 0x1_0000_0000_0000_0000 + b.1 * 0x1_0000_0000 + b.2;
    assert(i128::MIN <= pa <= i128::MAX) by (nonlinear_arith)
        requires
            i32::MIN <= a.0 <= i32::MAX,
            i32::MIN <= a.1 <= i32::MAX,
            i32::MIN <= a.2 <= i32::MAX,
            pa == a.0 * 0x1_0000_0000_0000_0000 + a.1 * 0x1_0000_0000 + a.2,
    ;
    assert(i128::MIN <= pb <= i128::MAX) by (nonlinear_arith)
        requires
            i32::MIN <= b.0 <= i32::MAX,
            i32::MIN <= b.1 <= i32::MAX,
            i32::MIN <= b.2 <= i32::MAX,
            pb == b.0 * 0x1_0000_0000_0000_0000 + b.1 * 0x1_0000_0000 + b.2,
    ;
    if spec_pack(a) == spec_pack(b) {
        assert(pa == pb);
        let m = d0 * 0x1_0000_0000 + d1;
        assert(d2 == -m * 0x1_0000_0000) by (nonlinear_arith)
            requires
                pa == pb,
                pa == a.0 * 0x1_0000_0000_0000_0000 + a.1 * 0x1_0000_0000 + a.2,
                pb == b.0 * 0x1_0000_0000_0000_0000 + b.1 * 0x1_0000_0000 + b.2,
                d0 == a.0 - b.0,
                d1 == a.1 - b.1,
                d2 == a.2 - b.2,
                m == d0 * 0x1_0000_0000 + d1,
        ;
        assert(m == 0) by (nonlinear_arith)
            requires
                d2 == -m * 0x1_0000_0000,
                -0x1_0000_0000 < d2 < 0x1_0000_0000,
        ;
        assert(d0 == 0) by (nonlinear_arith)
            requires
                m == d0 * 0x1_0000_0000 + d1,
                m == 0,
                -0x1_0000_0000 < d1 < 0x1_0000_0000,
        ;
    }
}

/// Tile storage that finds a tile through a hash map from the packed key to
/// the tile's position.
pub struct HexGridHashMapWrapper<C: CoordType, D> {
    index: HashMap<i128, usize>,
    keys: Vec<CoordKey>,
    tiles: Vec<HexTile<C, D>>,
}

impl<C: CoordType, D> HexGridHashMapWrapper<C, D> {
    /// The tiles in the order in which they are visited.
    pub fn tiles(&self) -> (r: &[HexTile<C, D>])
        ensures
            r@ == self.tile_seq(),
    {
        self.tiles.as_slice()
    }

    fn insert_tile(&mut self, key: CoordKey, tile: HexTile<C, D>)
        requires
            old(self).wf(),
        ensures
            final(self).wf(),
            final(self).contents() == old(self).contents().insert(key, tile),
    {
        let p = pack(key);
        let found: Option<usize> = match self.index.get(&p) {
            Some(i) => Some(*i),
            None => None,
        };
        match found {
            Some(i) => {
                self.tiles.set(i, tile);
                proof {
                    assert forall|k: CoordKey| #[trigger]
                        self.contents().contains_key(k) == old(self).contents().insert(
                            key,
                            tile,
                        ).contains_key(k) by {
                        lemma_pack_injective(k, key);
                    }
                    assert forall|k: CoordKey| #[trigger]
                        self.contents().contains_key(k) implies self.contents()[k] == old(
                            self,
                        ).contents().insert(key, tile)[k] by {
                        lemma_pack_injective(k, key);
                    }
                    assert(self.contents() =~= old(self).contents().insert(key, tile));
                }
            },
            None => {
                let n = self.tiles.len();
                self.index.insert(p, n);
                self.keys.push(key);
                self.tiles.push(tile);
                proof {
                    assert forall|i: int| 0 <= i < self.keys.len() implies #[trigger]
                        self.index@.contains_key(spec_pack(self.keys@[i]))
                            && self.index@[spec_pack(self.keys@[i])] == i by {
                        if i < n {
                            assert(old(self).index@.contains_key(spec_pack(old(self).keys@[i])));
                        }
                    }
                    assert forall|k: CoordKey| #[trigger]
                        self.contents().contains_key(k) == old(self).contents().insert(
                            key,
                            tile,
                        ).contains_key(k) by {
                        lemma_pack_injective(k, key);
                    }
                    assert forall|k: CoordKey| #[trigger]
                        self.contents().contains_key(k) implies self.contents()[k] == old(
                            self,
                        ).contents().insert(key, tile)[k] by {
                        lemma_pack_injective(k, key);
                    }
                    assert(self.contents() =~= old(self).contents().insert(key, tile));
                }
            },
        }
    }
}

impl<C: CoordType, D> HexGridDataWrapper<C, D> for HexGridHashMapWrapper<C, D> {
    closed spec fn wf(&self) -> bool {
        &&& self.keys.len() == self.tiles.len()
        &&& forall|i: int|
            0 <= i < self.keys.len() ==> #[trigger] self.index@.contains_key(
                spec_pack(self.keys@[i]),
            ) && self.index@[spec_pack(self.keys@[i])] == i
        &&& forall|p: i128| #[trigger]
            self.index@.contains_key(p) ==> self.index@[p] < self.keys.len() && spec_pack(
                self.keys@[self.index@[p] as int],
            ) == p
    }

    closed spec fn contents(&self) -> Map<CoordKey, HexTile<C, D>> {
        Map::new(
            |k: CoordKey| self.index@.contains_key(spec_pack(k)),
            |k: CoordKey| self.tiles@[self.index@[spec_pack(k)] as int],
        )
    }

    closed spec fn key_seq(&self) -> Seq<CoordKey> {
        self.keys@
    }

    closed spec fn tile_seq(&self) -> Seq<HexTile<C, D>> {
        self.tiles@
    }

    proof fn lemma_visits_contents(&self) {
        assert forall|i: int, j: int|
            0 <= i < self.keys.len() && 0 <= j < self.keys.len() && i != j implies self.keys@[i]
            != self.keys@[j] by {
            assert(self.index@.contains_key(spec_pack(self.keys@[i])));
            assert(self.index@.contains_key(spec_pack(self.keys@[j])));
        }
        assert forall|k: CoordKey| #[trigger]
            self.contents().contains_key(k) <==> self.key_seq().contains(k) by {
            if self.contents().contains_key(k) {
                let i = self.index@[spec_pack(k)] as int;
                lemma_pack_injective(self.keys@[i], k);
                assert(self.key_seq()[i] == k);
            }
            if self.key_seq().contains(k) {
                let i = choose|i: int| 0 <= i < self.keys.len() && self.keys@[i] == k;
                assert(self.index@.contains_key(spec_pack(self.keys@[i])));
            }
        }
        assert forall|i: int| 0 <= i < self.key_seq().len() implies self.contents()[
            #[trigger] self.key_seq()[i]] == self.tile_seq()[i] by {
            assert(self.index@.contains_key(spec_pack(self.keys@[i])));
        }
    }

    fn new() -> (r: Self) {
        let r = HexGridHashMapWrapper { index: HashMap::new(), keys: Vec::new(), tiles: Vec::new() };
        assert(r.contents() =~= Map::<CoordKey, HexTile<C, D>>::empty());
        r
    }

    fn initialize<F: Fn() -> D>(&mut self, init: Vec<C>, new_data: &F) {
        let ghost coords = init@;
        let ghost before = self.contents();
        for coord in it: init
            invariant
                self.wf(),
                new_data.requires(()),
                it.seq() == coords,
                initialized(before, coords.take(it.index() as int), *new_data, self.contents()),
        {
            let key = coord.get_key();
            let data = new_data();
            let ghost prev = self.contents();
            let ghost idx = it.index() as int;
            self.insert_tile(key, HexTile::new(coord, data));
            proof {
                let done = coords.take(idx + 1);
                let was = coords.take(idx);
                assert(done[idx] == coord);
                assert forall|k: CoordKey| has_key(done, k) <==> has_key(was, k) || k == key by {
                    if has_key(done, k) && k != key {
                        let i = choose|i: int|
                            0 <= i < done.len() && key_of_coord(#[trigger] done[i]) == k;
                        assert(was[i] == done[i]);
                    }
                    if has_key(was, k) {
                        let i = choose|i: int|
                            0 <= i < was.len() && key_of_coord(#[trigger] was[i]) == k;
                        assert(was[i] == done[i]);
                    }
                    if k == key {
                        assert(key_of_coord(done[idx]) == k);
                    }
                }
                assert forall|k: CoordKey, i: int| #[trigger]
                    last_with_key(done, k, i) implies self.contents()[k]@.0 == done[i]
                    && new_data.ensures((), self.contents()[k]@.1) by {
                    if k == key {
                        assert(i == idx);
                    } else {
                        assert(i < idx);
                        assert(last_with_key(was, k, i)) by {
                            assert forall|j: int| i < j < was.len() implies key_of_coord(
                                #[trigger] was[j],
                            ) != k by {
                                assert(was[j] == done[j]);
                            }
                        }
                    }
                }
            }
        }
        proof {
            assert(coords.take(coords.len() as int) =~= coords);
        }
    }

    fn borrow_tile_by_key(&self, key: CoordKey) -> (r: Option<&HexTile<C, D>>) {
        let p = pack(key);
        match self.index.get(&p) {
            Some(i) => Some(&self.tiles[*i]),
            None => None,
        }
    }

    #[verifier::rlimit(50)]
    fn mut_borrow_tile_by_key(&mut self, key: CoordKey) -> (r: Option<&mut HexTile<C, D>>) {
        let p = pack(key);
        let found: Option<usize> = match self.index.get(&p) {
            Some(i) => Some(*i),
            None => None,
        };
        match found {
            Some(i) => {
                let t = &mut self.tiles[i];
                Some(t)
            },
            None => None,
        }
    }

    fn mutate_all_data<F: Fn(&mut D)>(&mut self, f: &F) {
        let n = self.tiles.len();
        let mut i: usize = 0;
        while i < n
            invariant
                0 <= i <= n,
                n == old(self).tiles.len(),
                self.wf(),
                self.keys@ == old(self).keys@,
                self.index@ == old(self).index@,
                self.tiles.len() == n,
                forall|d: &mut D| f.requires((d,)),
                forall|j: int| i <= j < n ==> self.tiles@[j] == old(self).tiles@[j],
                forall|j: int|
                    0 <= j < i ==> {
                        &&& (#[trigger] self.tiles@[j])@.0 == old(self).tiles@[j]@.0
                        &&& exists|r: &mut D|
                            *r == old(self).tiles@[j]@.1 && *final(r) == self.tiles@[j]@.1
                                && f.ensures((r,), ())
                    },
            decreases n - i,
        {
            let ghost before = self.tiles@;
            self.tiles[i].mutate_data(f);
            proof {
                assert forall|j: int| 0 <= j < i + 1 implies {
                    &&& (#[trigger] self.tiles@[j])@.0 == old(self).tiles@[j]@.0
                    &&& exists|r: &mut D|
                        *r == old(self).tiles@[j]@.1 && *final(r) == self.tiles@[j]@.1
                            && f.ensures((r,), ())
                } by {
                    if j < i {
                        assert(self.tiles@[j] == before[j]);
                    }
                }
            }
            i = i + 1;
        }
        proof {
            assert forall|j: int| 0 <= j < n implies {
                &&& (#[trigger] self.tile_seq()[j])@.0 == old(self).tile_seq()[j]@.0
                &&& exists|r: &mut D|
                    *r == old(self).tile_seq()[j]@.1 && *final(r) == self.tile_seq()[j]@.1
                        && f.ensures((r,), ())
            } by {
                assert(self.tiles@[j]@.0 == old(self).tiles@[j]@.0);
            }
        }
    }
}

/// A grid: tile storage, plus the hex shape that the caller draws it with.
pub struct HexGrid<C: CoordType, D, W: HexGridDataWrapper<C, D>, S> {
    pub wrapper: W,
    pub hexshape: S,
    pub _c: PhantomData<C>,
    pub _d: PhantomData<D>,
}

impl<C: CoordType, D, W: HexGridDataWrapper<C, D>, S> HexGrid<C, D, W, S> {
    /// A grid with the given shape, whose storage `init` makes, or is
    /// empty when no `init` is given.
    pub fn new<F: Fn() -> W>(hexshape: S, init: Option<&F>) -> (r: Self)
        requires
            match init {
                Some(f) => f.requires(()),
                None => true,
            },
        ensures
            r.hexshape == hexshape,
            match init {
                Some(f) => f.ensures((), r.wrapper),
                None => {
                    &&& r.wrapper.wf()
                    &&& r.wrapper.contents() == Map::<CoordKey, HexTile<C, D>>::empty()
                    &&& r.wrapper.key_seq().len() == 0
                },
            },
    {
        match init {
            Some(f) => Self { wrapper: f(), hexshape, _c: PhantomData, _d: PhantomData },
            None => Self { wrapper: W::new(), hexshape, _c: PhantomData, _d: PhantomData },
        }
    }

    /// A grid with the given shape and empty storage.
    pub fn empty(hexshape: S) -> (r: Self)
        ensures
            r.hexshape == hexshape,
            r.wrapper.wf(),
            r.wrapper.contents() == Map::<CoordKey, HexTile<C, D>>::empty(),
            r.wrapper.key_seq().len() == 0,
    {
        Self { wrapper: W::new(), hexshape, _c: PhantomData, _d: PhantomData }
    }

    /// Adds one tile for each coordinate of `init`, as the storage's
    /// `initialize` does.
    pub fn initialize<F: Fn() -> D>(&mut self, init: Vec<C>, new_data: &F)
        requires
            old(self).wrapper.wf(),
            new_data.requires(()),
        ensures
            final(self).wrapper.wf(),
            final(self).hexshape == old(self).hexshape,
            initialized(old(self).wrapper.contents(), init@, *new_data, final(self).wrapper.contents()),
    {
        self.wrapper.initialize(init, new_data)
    }

    pub fn borrow_tile_by_key(&self, key: CoordKey) -> (r: Option<&HexTile<C, D>>)
        requires
            self.wrapper.wf(),
        ensures
            match r {
                Some(t) => self.wrapper.contents().contains_key(key) && *t
                    == self.wrapper.contents()[key],
                None => !self.wrapper.contents().contains_key(key),
            },
    {
        self.wrapper.borrow_tile_by_key(key)
    }

    pub fn mut_borrow_tile_by_key(&mut self, key: CoordKey) -> (r: Option<&mut HexTile<C, D>>)
        requires
            old(self).wrapper.wf(),
        ensures
            final(self).wrapper.wf(),
            final(self).wrapper.key_seq() == old(self).wrapper.key_seq(),
            final(self).hexshape == old(self).hexshape,
            match r {
                Some(t) => {
                    &&& old(self).wrapper.contents().contains_key(key)
                    &&& *t == old(self).wrapper.contents()[key]
                    &&& final(self).wrapper.contents() == old(self).wrapper.contents().insert(
                        key,
                        *final(t),
                    )
                },
                None => {
                    &&& !old(self).wrapper.contents().contains_key(key)
                    &&& final(self).wrapper.contents() == old(self).wrapper.contents()
                },
            },
    {
        self.wrapper.mut_borrow_tile_by_key(key)
    }

    pub fn borrow_data_by_key(&self, key: CoordKey) -> (r: Option<&D>)
        requires
            self.wrapper.wf(),
        ensures
            match r {
                Some(d) => self.wrapper.contents().contains_key(key) && *d
                    == self.wrapper.contents()[key]@.1,
                None => !self.wrapper.contents().contains_key(key),
            },
    {
        match self.borrow_tile_by_key(key) {
            Some(tile) => Some(tile.borrow_data()),
            None => None,
        }
    }

    pub fn mut_borrow_data_by_key(&mut self, key: CoordKey) -> (r: Option<&mut D>)
        requires
            old(self).wrapper.wf(),
        ensures
            final(self).wrapper.wf(),
            final(self).wrapper.key_seq() == old(self).wrapper.key_seq(),
            final(self).hexshape == old(self).hexshape,
            match r {
                Some(d) => {
                    &&& old(self).wrapper.contents().contains_key(key)
                    &&& *d == old(self).wrapper.contents()[key]@.1
                    &&& final(self).wrapper.contents().dom() == old(self).wrapper.contents().dom()
                    &&& final(self).wrapper.contents()[key]@ == (
                        old(self).wrapper.contents()[key]@.0,
                        *final(d),
                    )
                    &&& forall|k: CoordKey|
                        k != key ==> #[trigger] final(self).wrapper.contents()[k] == old(
                            self,
                        ).wrapper.contents()[k]
                },
                None => {
                    &&& !old(self).wrapper.contents().contains_key(key)
                    &&& final(self).wrapper.contents() == old(self).wrapper.contents()
                },
            },
    {
        match self.mut_borrow_tile_by_key(key) {
            Some(tile) => Some(tile.mut_borrow_data()),
            None => None,
        }
    }

    /// Hands the data of every tile to `f` to change in place.
    pub fn mutate_all_data<F: Fn(&mut D)>(&mut self, f: &F)
        requires
            old(self).wrapper.wf(),
            forall|d: &mut D| f.requires((d,)),
        ensures
            final(self).wrapper.wf(),
            final(self).hexshape == old(self).hexshape,
            final(self).wrapper.key_seq() == old(self).wrapper.key_seq(),
            final(self).wrapper.tile_seq().len() == old(self).wrapper.tile_seq().len(),
            forall|i: int|
                0 <= i < old(self).wrapper.tile_seq().len() ==> {
                    &&& (#[trigger] final(self).wrapper.tile_seq()[i])@.0
                        == old(self).wrapper.tile_seq()[i]@.0
                    &&& exists|r: &mut D|
                        *r == old(self).wrapper.tile_seq()[i]@.1 && *final(r)
                            == final(self).wrapper.tile_seq()[i]@.1 && f.ensures((r,), ())
                },
    {
        self.wrapper.mutate_all_data(f)
    }
}

} // verus!
