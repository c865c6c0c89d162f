use crate::settings::RenderSettings;
use std::collections::HashMap;
use vstd::prelude::*;

verus! {

/// Edge of a chunk, in world units.
pub const CHUNK_SIZE: u8 = 16;

/// Place of a chunk in the lattice of chunks.
#[derive(Clone, Copy, Debug, PartialEq, Eq, Structural, Hash)]
pub struct ChunkCoordinate {
    pub x: i32,
    pub y: i32,
    pub z: i32,
}

impl ChunkCoordinate {
    pub fn new(x: i32, y: i32, z: i32) -> (coord: ChunkCoordinate)
        ensures
            coord == (ChunkCoordinate { x, y, z }),
    {
        ChunkCoordinate { x, y, z }
    }
}

/// What the manager keeps of a resident chunk.
#[derive(Clone, Copy, Debug, PartialEq, Eq, Structural)]
pub struct Chunk {
    /// The chunk lies within render distance of the viewer, as of the last
    /// refresh.
    pub visible: bool,
}

impl Chunk {
    /// A chunk as it enters the map: not yet seen by a refresh.
    pub fn new() -> (chunk: Chunk)
        ensures
            chunk == (Chunk { visible: false }),
    {
        Chunk { visible: false }
    }
}

/// The chunk coordinate, along one axis, of a world position on the integer
/// lattice: the position divided by the edge of a chunk and rounded down, so
/// that positions below zero fall into chunks below zero. Positions too far
/// out for a 32-bit coordinate take the outermost one.
pub open spec fn chunk_of_position(position: int, edge: int) -> int {
    let floor = position / edge;
    if floor < i32::MIN {
        i32::MIN as int
    } else if floor > i32::MAX {
        i32::MAX as int
    } else {
        floor
    }
}

/// The chunk that holds the world position `position`.
pub open spec fn chunk_of_viewer(position: (i64, i64, i64)) -> ChunkCoordinate {
    ChunkCoordinate {
        x: chunk_of_position(position.0 as int, CHUNK_SIZE as int) as i32,
        y: chunk_of_position(position.1 as int, CHUNK_SIZE as int) as i32,
        z: chunk_of_position(position.2 as int, CHUNK_SIZE as int) as i32,
    }
}

/// Distance of two coordinates along one axis, in chunks.
pub open spec fn axis_distance(a: i32, b: i32) -> int {
    if a >= b {
        a - b
    } else {
        b - a
    }
}

/// `coord` lies within render distance of `center`: no further than the
/// horizontal radius along `x` and along `z`, and no further than the vertical
/// radius along `y`.
pub open spec fn within_render_distance(
    coord: ChunkCoordinate,
    center: ChunkCoordinate,
    render_distance: (u32, u32),
) -> bool {
    &&& axis_distance(coord.x, center.x) <= render_distance.0
    &&& axis_distance(coord.z, center.z) <= render_distance.0
    &&& axis_distance(coord.y, center.y) <= render_distance.1
}

/// The discovery sweep comes to `(y, x, z)` later than to `coord`: it walks
/// `y` outermost, then `x`, then `z`, each upwards.
pub open spec fn swept_before(coord: ChunkCoordinate, y: int, x: int, z: int) -> bool {
    coord.y < y || (coord.y == y && (coord.x < x || (coord.x == x && coord.z < z)))
}

/// The map that a discovery sweep leaves when it has come to `(y, x, z)`: the
/// chunks that were resident, as they were, and a new chunk at each coordinate
/// within render distance that the sweep has passed.
pub open spec fn discovered_until(
    resident: Map<ChunkCoordinate, Chunk>,
    center: ChunkCoordinate,
    render_distance: (u32, u32),
    y: int,
    x: int,
    z: int,
) -> Map<ChunkCoordinate, Chunk> {
    Map::new(
        |coord: ChunkCoordinate|
            resident.contains_key(coord) || (within_render_distance(coord, center, render_distance)
                && swept_before(coord, y, x, z)),
        |coord: ChunkCoordinate|
            if resident.contains_key(coord) {
                resident[coord]
            } else {
                Chunk { visible: false }
            },
    )
}

/// The map that a whole discovery sweep round `center` leaves: the chunks that
/// were resident, as they were, and a new chunk at each other coordinate
/// within render distance.
pub open spec fn after_discovery(
    resident: Map<ChunkCoordinate, Chunk>,
    center: ChunkCoordinate,
    render_distance: (u32, u32),
) -> Map<ChunkCoordinate, Chunk> {
    Map::new(
        |coord: ChunkCoordinate|
            resident.contains_key(coord) || within_render_distance(coord, center, render_distance),
        |coord: ChunkCoordinate|
            if resident.contains_key(coord) {
                resident[coord]
            } else {
                Chunk { visible: false }
            },
    )
}

/// `list` is what a discovery sweep that has come to `(y, x, z)` has found:
/// the coordinates within render distance that it has passed and that were not
/// resident, each once, in the order of the sweep.
pub open spec fn found_until(
    list: Seq<ChunkCoordinate>,
    resident: Map<ChunkCoordinate, Chunk>,
    center: ChunkCoordinate,
    render_distance: (u32, u32),
    y: int,
    x: int,
    z: int,
) -> bool {
    &&& forall|i: int|
        0 <= i < list.len() ==> {
            &&& within_render_distance(#[trigger] list[i], center, render_distance)
            &&& swept_before(list[i], y, x, z)
            &&& !resident.contains_key(list[i])
        }
    &&& forall|coord: ChunkCoordinate|
        #![trigger list.contains(coord)]
        within_render_distance(coord, center, render_distance) && swept_before(coord, y, x, z)
            && !resident.contains_key(coord) ==> list.contains(coord)
    &&& forall|i: int, j: int|
        0 <= i < j < list.len() ==> swept_before(
            #[trigger] list[i],
            (#[trigger] list[j]).y as int,
            list[j].x as int,
            list[j].z as int,
        )
}

/// `list` is what a whole discovery sweep round `center` finds: the
/// coordinates within render distance that were not resident, each once, in
/// the order of the sweep.
pub open spec fn found_by_discovery(
    list: Seq<ChunkCoordinate>,
    resident: Map<ChunkCoordinate, Chunk>,
    center: ChunkCoordinate,
    render_distance: (u32, u32),
) -> bool {
    &&& forall|i: int|
        0 <= i < list.len() ==> {
            &&& within_render_distance(#[trigger] list[i], center, render_distance)
            &&& !resident.contains_key(list[i])
        }
    &&& forall|coord: ChunkCoordinate|
        #![trigger list.contains(coord)]
        within_render_distance(coord, center, render_distance) && !resident.contains_key(coord)
            ==> list.contains(coord)
    &&& forall|i: int, j: int|
        0 <= i < j < list.len() ==> swept_before(
            #[trigger] list[i],
            (#[trigger] list[j]).y as int,
            list[j].x as int,
            list[j].z as int,
        )
}

/// The map that a visibility refresh round `center` leaves: the same chunks,
/// each visible exactly if it lies within render distance.
pub open spec fn after_refresh(
    resident: Map<ChunkCoordinate, Chunk>,
    center: ChunkCoordinate,
    render_distance: (u32, u32),
) -> Map<ChunkCoordinate, Chunk> {
    Map::new(
        |coord: ChunkCoordinate| resident.contains_key(coord),
        |coord: ChunkCoordinate|
            Chunk { visible: within_render_distance(coord, center, render_distance) },
    )
}

/// Where the sweep starts along an axis: the radius below the centre, or at the
/// lowest coordinate there is.
pub open spec fn sweep_low(center: i32, radius: u32) -> int {
    if center - radius < i32::MIN {
        i32::MIN as int
    } else {
        center - radius
    }
}

/// Where the sweep ends along an axis: the radius above the centre, or at the
/// highest coordinate there is.
pub open spec fn sweep_high(center: i32, radius: u32) -> int {
    if center + radius > i32::MAX {
        i32::MAX as int
    } else {
        center + radius
    }
}

/// The one number that stands for a coordinate in the map's index: its three
/// components, each moved into the unsigned range, side by side.
pub open spec fn chunk_key(coord: ChunkCoordinate) -> u128 {
    ((coord.x + 0x8000_0000) + (coord.y + 0x8000_0000) * 0x1_0000_0000 + (coord.z + 0x8000_0000)
        * 0x1_0000_0000_0000_0000) as u128
}

/// Different coordinates have different keys.
pub proof fn lemma_chunk_key_is_injective(a: ChunkCoordinate, b: ChunkCoordinate)
    requires
        chunk_key(a) == chunk_key(b),
    ensures
        a == b,
{
}

fn key_of(coord: ChunkCoordinate) -> (key: u128)
    ensures
        key == chunk_key(coord),
{
    let x: u128 = (coord.x as i64 + 0x8000_0000) as u128;
    let y: u128 = (coord.y as i64 + 0x8000_0000) as u128;
    let z: u128 = (coord.z as i64 + 0x8000_0000) as u128;
    x + y * 0x1_0000_0000 + z * 0x1_0000_0000_0000_0000
}

/// The resident chunks, each under its coordinate. A chunk enters the map once
/// and stays.
pub struct ChunkMap {
    entries: Vec<(ChunkCoordinate, Chunk)>,
    index: HashMap<u128, usize>,
}

impl View for ChunkMap {
    type V = Map<ChunkCoordinate, Chunk>;

    closed spec fn view(&self) -> Map<ChunkCoordinate, Chunk> {
        Map::new(
            |coord: ChunkCoordinate| self.index@.contains_key(chunk_key(coord)),
            |coord: ChunkCoordinate| self.entries@[self.index@[chunk_key(coord)] as int].1,
        )
    }
}

impl Default for ChunkMap {
    fn default() -> (map: ChunkMap)
        ensures
            map.wf(),
            map@ == Map::<ChunkCoordinate, Chunk>::empty(),
            map.resident() == Seq::<(ChunkCoordinate, Chunk)>::empty(),
    {
        ChunkMap::new()
    }
}

impl ChunkMap {
    /// The index and the entries agree: each entry is found under the key of
    /// its coordinate, and each key leads to the entry of its coordinate.
    pub closed spec fn wf(&self) -> bool {
        &&& forall|i: int|
            0 <= i < self.entries@.len() ==> {
                let key = chunk_key((#[trigger] self.entries@[i]).0);
                self.index@.contains_key(key) && self.index@[key] == i
            }
        &&& forall|key: u128| #[trigger]
            self.index@.contains_key(key) ==> {
                let i = self.index@[key];
                0 <= i < self.entries@.len() && chunk_key(self.entries@[i as int].0) == key
            }
    }

    /// The resident chunks with their coordinates, in the order they entered
    /// the map.
    pub closed spec fn resident(&self) -> Seq<(ChunkCoordinate, Chunk)> {
        self.entries@
    }

    /// The order of entry lists each chunk of the map once, and nothing else.
    pub proof fn lemma_resident(&self)
        requires
            self.wf(),
        ensures
            forall|i: int|
                0 <= i < self.resident().len() ==> self@.contains_pair(
                    (#[trigger] self.resident()[i]).0,
                    self.resident()[i].1,
                ),
            forall|coord: ChunkCoordinate| #[trigger]
                self@.contains_key(coord) ==> exists|i: int|
                    0 <= i < self.resident().len() && (#[trigger] self.resident()[i]).0 == coord,
            forall|i: int, j: int|
                0 <= i < j < self.resident().len() ==> (#[trigger] self.resident()[i]).0 != (
                #[trigger] self.resident()[j]).0,
    {
        assert forall|coord: ChunkCoordinate| #[trigger] self@.contains_key(coord) implies exists|
            i: int,
        |
            0 <= i < self.resident().len() && (#[trigger] self.resident()[i]).0 == coord by {
            let i = self.index@[chunk_key(coord)] as int;
            lemma_chunk_key_is_injective(self.entries@[i].0, coord);
            assert(self.resident()[i].0 == coord);
        }
    }

    pub fn new() -> (map: ChunkMap)
        ensures
            map.wf(),
            map@ == Map::<ChunkCoordinate, Chunk>::empty(),
            map.resident() == Seq::<(ChunkCoordinate, Chunk)>::empty(),
    {
        let map = ChunkMap { entries: Vec::new(), index: HashMap::new() };
        assert(map@ =~= Map::<ChunkCoordinate, Chunk>::empty());
        map
    }

    /// Number of resident chunks.
    pub fn len(&self) -> (len: usize)
        requires
            self.wf(),
        ensures
            len == self.resident().len(),
            len == self@.dom().len(),
    {
        proof {
            self.lemma_len();
        }
        self.entries.len()
    }

    proof fn lemma_len(&self)
        requires
            self.wf(),
        ensures
            self@.dom().finite(),
            self@.dom().len() == self.entries@.len(),
    {
        let coords = self.entries@.map_values(|entry: (ChunkCoordinate, Chunk)| entry.0);
        assert(coords.no_duplicates()) by {
            assert forall|i: int, j: int|
                0 <= i < coords.len() && 0 <= j < coords.len() && i != j implies coords[i]
                != coords[j] by {
                assert(self.index@[chunk_key(self.entries@[i].0)] == i);
                assert(self.index@[chunk_key(self.entries@[j].0)] == j);
            }
        }
        assert(coords.to_set() =~= self@.dom()) by {
            assert forall|coord: ChunkCoordinate|
                self@.dom().contains(coord) implies coords.to_set().contains(coord) by {
                let i = self.index@[chunk_key(coord)] as int;
                lemma_chunk_key_is_injective(self.entries@[i].0, coord);
                assert(coords[i] == coord);
            }
            assert forall|coord: ChunkCoordinate|
                coords.to_set().contains(coord) implies self@.dom().contains(coord) by {
                let i = choose|i: int| 0 <= i < coords.len() && coords[i] == coord;
                assert(self.entries@[i].0 == coord);
            }
        }
        coords.unique_seq_to_set();
    }

    /// The chunk at position `i` of the order of entry, with its coordinate.
    pub fn get_index(&self, i: usize) -> (entry: (ChunkCoordinate, Chunk))
        requires
            i < self.resident().len(),
        ensures
            entry == self.resident()[i as int],
    {
        self.entries[i]
    }

    /// Whether the chunk at `coord` is resident.
    pub fn contains_key(&self, coord: ChunkCoordinate) -> (resident: bool)
        requires
            self.wf(),
        ensures
            resident == self@.contains_key(coord),
    {
        let key: u128 = key_of(coord);
        self.index.contains_key(&key)
    }

    /// The chunk at `coord`, if it is resident.
    pub fn get(&self, coord: ChunkCoordinate) -> (chunk: Option<Chunk>)
        requires
            self.wf(),
        ensures
            chunk == if self@.contains_key(coord) {
                Some(self@[coord])
            } else {
                None
            },
    {
        let key: u128 = key_of(coord);
        match self.index.get(&key) {
            Some(i) => Some(self.entries[*i].1),
            None => None,
        }
    }

    /// Makes the chunk at `coord` resident if it is not: a new chunk enters
    /// under the coordinate. A chunk that is resident stays as it is. Tells
    /// whether a chunk entered.
    pub fn insert_if_absent(&mut self, coord: ChunkCoordinate) -> (entered: bool)
        requires
            old(self).wf(),
        ensures
            final(self).wf(),
            entered == !old(self)@.contains_key(coord),
            final(self)@ == if entered {
                old(self)@.insert(coord, Chunk { visible: false })
            } else {
                old(self)@
            },
            final(self).resident() == if entered {
                old(self).resident().push((coord, Chunk { visible: false }))
            } else {
                old(self).resident()
            },
    {
        let key: u128 = key_of(coord);
        if self.index.contains_key(&key) {
            return false;
        }
        let position: usize = self.entries.len();
        self.entries.push((coord, Chunk::new()));
        self.index.insert(key, position);
        proof {
            assert forall|other: ChunkCoordinate| other != coord implies chunk_key(other)
                != key by {
                if chunk_key(other) == key {
                    lemma_chunk_key_is_injective(other, coord);
                }
            }
            assert(self@ =~= old(self)@.insert(coord, Chunk { visible: false }));
        }
        true
    }

    /// The discovery sweep: walks the box of coordinates within render distance
    /// of `center`, `y` outermost, then `x`, then `z`, and makes each of them
    /// resident that is not. Returns the coordinates at which a chunk entered,
    /// in the order of the sweep: the chunks that are now to be generated.
    pub fn discover(&mut self, center: ChunkCoordinate, render_distance: (u32, u32)) -> (found: Vec<
        ChunkCoordinate,
    >)
        requires
            old(self).wf(),
        ensures
            final(self).wf(),
            final(self)@ == after_discovery(old(self)@, center, render_distance),
            found_by_discovery(found@, old(self)@, center, render_distance),
            final(self).resident() == old(self).resident() + found@.map_values(
                |coord: ChunkCoordinate| (coord, Chunk { visible: false }),
            ),
    {
        let rd_xz: i64 = render_distance.0 as i64;
        let rd_y: i64 = render_distance.1 as i64;
        let low_x: i64 = clamp_low(center.x as i64 - rd_xz);
        let high_x: i64 = clamp_high(center.x as i64 + rd_xz);
        let low_y: i64 = clamp_low(center.y as i64 - rd_y);
        let high_y: i64 = clamp_high(center.y as i64 + rd_y);
        let low_z: i64 = clamp_low(center.z as i64 - rd_xz);
        let high_z: i64 = clamp_high(center.z as i64 + rd_xz);
        let ghost before = old(self)@;
        let ghost pair = |coord: ChunkCoordinate| (coord, Chunk { visible: false });
        let mut found: Vec<ChunkCoordinate> = Vec::new();
        assert(self@ =~= discovered_until(
            before,
            center,
            render_distance,
            low_y as int,
            low_x as int,
            low_z as int,
        ));
        assert(self.resident() =~= old(self).resident() + found@.map_values(pair));
        let mut y: i64 = low_y;
        while y <= high_y
            invariant
                low_x == sweep_low(center.x, render_distance.0),
                high_x == sweep_high(center.x, render_distance.0),
                low_y == sweep_low(center.y, render_distance.1),
                high_y == sweep_high(center.y, render_distance.1),
                low_z == sweep_low(center.z, render_distance.0),
                high_z == sweep_high(center.z, render_distance.0),
                low_y <= y <= high_y + 1,
                before == old(self)@,
                pair == |coord: ChunkCoordinate| (coord, Chunk { visible: false }),
                self.wf(),
                self@ == discovered_until(
                    before,
                    center,
                    render_distance,
                    y as int,
                    low_x as int,
                    low_z as int,
                ),
                found_until(
                    found@,
                    before,
                    center,
                    render_distance,
                    y as int,
                    low_x as int,
                    low_z as int,
                ),
                self.resident() == old(self).resident() + found@.map_values(pair),
            decreases high_y + 1 - y,
        {
            let mut x: i64 = low_x;
            while x <= high_x
                invariant
                    low_x == sweep_low(center.x, render_distance.0),
                    high_x == sweep_high(center.x, render_distance.0),
                    low_y == sweep_low(center.y, render_distance.1),
                    high_y == sweep_high(center.y, render_distance.1),
                    low_z == sweep_low(center.z, render_distance.0),
                    high_z == sweep_high(center.z, render_distance.0),
                    low_y <= y <= high_y,
                    low_x <= x <= high_x + 1,
                    before == old(self)@,
                    pair == |coord: ChunkCoordinate| (coord, Chunk { visible: false }),
                    self.wf(),
                    self@ == discovered_until(
                        before,
                        center,
                        render_distance,
                        y as int,
                        x as int,
                        low_z as int,
                    ),
                    found_until(
                        found@,
                        before,
                        center,
                        render_distance,
                        y as int,
                        x as int,
                        low_z as int,
                    ),
                    self.resident() == old(self).resident() + found@.map_values(pair),
                decreases high_x + 1 - x,
            {
                let mut z: i64 = low_z;
                while z <= high_z
                    invariant
                        low_x == sweep_low(center.x, render_distance.0),
                        high_x == sweep_high(center.x, render_distance.0),
                        low_y == sweep_low(center.y, render_distance.1),
                        high_y == sweep_high(center.y, render_distance.1),
                        low_z == sweep_low(center.z, render_distance.0),
                        high_z == sweep_high(center.z, render_distance.0),
                        low_y <= y <= high_y,
                        low_x <= x <= high_x,
                        low_z <= z <= high_z + 1,
                        before == old(self)@,
                        pair == |coord: ChunkCoordinate| (coord, Chunk { visible: false }),
                        self.wf(),
                        self@ == discovered_until(
                            before,
                            center,
                            render_distance,
                            y as int,
                            x as int,
                            z as int,
                        ),
                        found_until(
                            found@,
                            before,
                            center,
                            render_distance,
                            y as int,
                            x as int,
                            z as int,
                        ),
                        self.resident() == old(self).resident() + found@.map_values(pair),
                    decreases high_z + 1 - z,
                {
                    let viewed_chunk_coord = ChunkCoordinate::new(x as i32, y as i32, z as i32);
                    let ghost map_before = self@;
                    let ghost found_before = found@;
                    let entered: bool = self.insert_if_absent(viewed_chunk_coord);
                    if entered {
                        found.push(viewed_chunk_coord);
                    }
                    proof {
                        assert(self@ =~= discovered_until(
                            before,
                            center,
                            render_distance,
                            y as int,
                            x as int,
                            z + 1,
                        ));
                        if entered {
                            assert(found@.last() == viewed_chunk_coord);
                            assert(found@.drop_last() == found_before);
                            assert forall|coord: ChunkCoordinate|
                                #![trigger found@.contains(coord)]
                                within_render_distance(coord, center, render_distance)
                                    && swept_before(coord, y as int, x as int, z + 1)
                                    && !before.contains_key(coord) implies found@.contains(
                                coord,
                            ) by {
                                if coord == viewed_chunk_coord {
                                    assert(found@[found@.len() - 1] == coord);
                                } else {
                                    assert(found_before.contains(coord));
                                    let i = choose|i: int|
                                        0 <= i < found_before.len() && found_before[i] == coord;
                                    assert(found@[i] == coord);
                                }
                            }
                            assert(found@.map_values(pair) =~= found_before.map_values(pair).push(
                                pair(viewed_chunk_coord),
                            ));
                        } else {
                            assert(map_before.contains_key(viewed_chunk_coord));
                        }
                        assert(self.resident() =~= old(self).resident() + found@.map_values(pair));
                    }
                    z = z + 1;
                }
                proof {
                    assert(self@ =~= discovered_until(
                        before,
                        center,
                        render_distance,
                        y as int,
                        x + 1,
                        low_z as int,
                    ));
                }
                x = x + 1;
            }
            proof {
                assert(self@ =~= discovered_until(
                    before,
                    center,
                    render_distance,
                    y + 1,
                    low_x as int,
                    low_z as int,
                ));
            }
            y = y + 1;
        }
        proof {
            assert(self@ =~= after_discovery(before, center, render_distance));
        }
        found
    }

    /// The visibility refresh: marks every resident chunk visible or not, as
    /// it lies within render distance of `center` or not.
    pub fn refresh(&mut self, center: ChunkCoordinate, render_distance: (u32, u32))
        requires
            old(self).wf(),
        ensures
            final(self).wf(),
            final(self)@ == after_refresh(old(self)@, center, render_distance),
            final(self).resident() == old(self).resident().map_values(
                |entry: (ChunkCoordinate, Chunk)|
                    (
                        entry.0,
                        Chunk { visible: within_render_distance(entry.0, center, render_distance) },
                    ),
            ),
    {
        let ghost refreshed = |entry: (ChunkCoordinate, Chunk)|
            (entry.0, Chunk { visible: within_render_distance(entry.0, center, render_distance) });
        let count: usize = self.entries.len();
        let mut i: usize = 0;
        while i < count
            invariant
                i <= count,
                count == self.entries@.len(),
                count == old(self).entries@.len(),
                self.index@ == old(self).index@,
                old(self).wf(),
                refreshed == |entry: (ChunkCoordinate, Chunk)|
                    (
                        entry.0,
                        Chunk { visible: within_render_distance(entry.0, center, render_distance) },
                    ),
                forall|j: int|
                    0 <= j < i ==> #[trigger] self.entries@[j] == refreshed(old(self).entries@[j]),
                forall|j: int|
                    i <= j < count ==> #[trigger] self.entries@[j] == old(self).entries@[j],
            decreases count - i,
        {
            let chunk_coord: ChunkCoordinate = self.entries[i].0;
            let visible: bool = is_within_render_distance(chunk_coord, center, render_distance);
            self.entries[i] = (chunk_coord, Chunk { visible });
            i = i + 1;
        }
        proof {
            assert(self.entries@ =~= old(self).entries@.map_values(refreshed));
            assert forall|j: int| 0 <= j < self.entries@.len() implies {
                let key = chunk_key((#[trigger] self.entries@[j]).0);
                self.index@.contains_key(key) && self.index@[key] == j
            } by {
                assert(old(self).entries@[j].0 == self.entries@[j].0);
            }
            assert(self.wf());
            assert(self@ =~= after_refresh(old(self)@, center, render_distance)) by {
                assert forall|coord: ChunkCoordinate|
                    self@.contains_key(coord) implies #[trigger] self@[coord] == after_refresh(
                    old(self)@,
                    center,
                    render_distance,
                )[coord] by {
                    let j = self.index@[chunk_key(coord)] as int;
                    lemma_chunk_key_is_injective(old(self).entries@[j].0, coord);
                }
            }
        }
    }
}

/// Rounding down puts a position into the chunk whose span holds it, and the
/// quotient is no further from zero than the position.
pub proof fn lemma_floor_fits(position: int, edge: int)
    requires
        edge > 0,
    ensures
        (position / edge) * edge <= position < (position / edge + 1) * edge,
        position >= 0 ==> 0 <= position / edge <= position,
        position < 0 ==> position <= position / edge < 0,
{
    vstd::arithmetic::div_mod::lemma_fundamental_div_mod(position, edge);
    vstd::arithmetic::div_mod::lemma_mod_bound(position, edge);
    let q = position / edge;
    let r = position % edge;
    assert((q + 1) * edge == q * edge + edge) by (nonlinear_arith);
    assert(q * edge == edge * q) by (nonlinear_arith);
    if position >= 0 {
        assert(0 <= q <= position) by (nonlinear_arith)
            requires
                position == edge * q + r,
                0 <= r < edge,
                0 <= position,
        ;
    } else {
        assert(position <= q < 0) by (nonlinear_arith)
            requires
                position == edge * q + r,
                0 <= r < edge,
                position < 0,
        ;
    }
}

/// The chunk coordinate, along one axis, of the world position `position` on
/// the integer lattice, for chunks of `edge` world units along each edge.
pub fn chunk_coordinate(position: i64, edge: u8) -> (coordinate: i32)
    requires
        edge > 0,
    ensures
        coordinate == chunk_of_position(position as int, edge as int),
{
    proof {
        lemma_floor_fits(position as int, edge as int);
    }
    let floor: i64 = match position.checked_div_euclid(edge as i64) {
        Some(floor) => floor,
        None => 0,
    };
    clamp_high(clamp_low(floor)) as i32
}

fn clamp_low(value: i64) -> (clamped: i64)
    ensures
        clamped == if value < i32::MIN {
            i32::MIN as int
        } else {
            value as int
        },
{
    if value < i32::MIN as i64 {
        i32::MIN as i64
    } else {
        value
    }
}

fn clamp_high(value: i64) -> (clamped: i64)
    ensures
        clamped == if value > i32::MAX {
            i32::MAX as int
        } else {
            value as int
        },
{
    if value > i32::MAX as i64 {
        i32::MAX as i64
    } else {
        value
    }
}

/// The chunk that holds the world position `position` on the integer lattice.
pub fn viewer_chunk(position: (i64, i64, i64)) -> (center: ChunkCoordinate)
    ensures
        center == chunk_of_viewer(position),
{
    ChunkCoordinate::new(
        chunk_coordinate(position.0, CHUNK_SIZE),
        chunk_coordinate(position.1, CHUNK_SIZE),
        chunk_coordinate(position.2, CHUNK_SIZE),
    )
}

fn distance(a: i32, b: i32) -> (distance: i64)
    ensures
        distance == axis_distance(a, b),
{
    if a >= b {
        a as i64 - b as i64
    } else {
        b as i64 - a as i64
    }
}

/// Whether `coord` lies within render distance of `center`.
pub fn is_within_render_distance(
    coord: ChunkCoordinate,
    center: ChunkCoordinate,
    render_distance: (u32, u32),
) -> (within: bool)
    ensures
        within == within_render_distance(coord, center, render_distance),
{
    let distance_x: i64 = distance(coord.x, center.x);
    let distance_y: i64 = distance(coord.y, center.y);
    let distance_z: i64 = distance(coord.z, center.z);
    let distance_xz: i64 = if distance_x >= distance_z {
        distance_x
    } else {
        distance_z
    };
    distance_xz <= render_distance.0 as i64 && distance_y <= render_distance.1 as i64
}

/// The discovery step of a tick. With the viewer at the world position
/// `viewer`, every coordinate within render distance of the viewer's chunk is
/// made resident, and the coordinates at which a chunk entered are returned in
/// the order of the sweep, for their meshes to be generated. Without a viewer
/// the tick does nothing.
pub fn update_visible_chunks(
    chunk_map: &mut ChunkMap,
    render_cfg: &RenderSettings,
    viewer: Option<(i64, i64, i64)>,
) -> (found: Vec<ChunkCoordinate>)
    requires
        old(chunk_map).wf(),
    ensures
        final(chunk_map).wf(),
        match viewer {
            Some(position) => {
                &&& final(chunk_map)@ == after_discovery(
                    old(chunk_map)@,
                    chunk_of_viewer(position),
                    render_cfg.render_distance,
                )
                &&& found_by_discovery(
                    found@,
                    old(chunk_map)@,
                    chunk_of_viewer(position),
                    render_cfg.render_distance,
                )
                &&& final(chunk_map).resident() == old(chunk_map).resident() + found@.map_values(
                    |coord: ChunkCoordinate| (coord, Chunk { visible: false }),
                )
            },
            None => {
                &&& final(chunk_map)@ == old(chunk_map)@
                &&& final(chunk_map).resident() == old(chunk_map).resident()
                &&& found@.len() == 0
            },
        },
{
    match viewer {
        Some(position) => {
            let center: ChunkCoordinate = viewer_chunk(position);
            chunk_map.discover(center, render_cfg.render_distance)
        },
        None => Vec::new(),
    }
}

/// The refresh step of a tick. With the viewer at the world position `viewer`,
/// every resident chunk is marked visible exactly if it lies within render
/// distance of the viewer's chunk. Without a viewer the tick does nothing.
pub fn update_chunk(
    chunk_map: &mut ChunkMap,
    render_cfg: &RenderSettings,
    viewer: Option<(i64, i64, i64)>,
)
    requires
        old(chunk_map).wf(),
    ensures
        final(chunk_map).wf(),
        final(chunk_map)@ == match viewer {
            Some(position) => after_refresh(
                old(chunk_map)@,
                chunk_of_viewer(position),
                render_cfg.render_distance,
            ),
            None => old(chunk_map)@,
        },
        final(chunk_map).resident() == match viewer {
            Some(position) => old(chunk_map).resident().map_values(
                |entry: (ChunkCoordinate, Chunk)|
                    (
                        entry.0,
                        Chunk {
                            visible: within_render_distance(
                                entry.0,
                                chunk_of_viewer(position),
                                render_cfg.render_distance,
                            ),
                        },
                    ),
            ),
            None => old(chunk_map).resident(),
        },
{
    match viewer {
        Some(position) => {
            let center: ChunkCoordinate = viewer_chunk(position);
            chunk_map.refresh(center, render_cfg.render_distance);
        },
        None => {},
    }
}

/// Every coordinate that a discovery sweep finds lies within render distance
/// of the centre of the sweep, and was not resident before.
pub proof fn lemma_found_within_render_distance(
    list: Seq<ChunkCoordinate>,
    resident: Map<ChunkCoordinate, Chunk>,
    center: ChunkCoordinate,
    render_distance: (u32, u32),
    i: int,
)
    requires
        found_by_discovery(list, resident, center, render_distance),
        0 <= i < list.len(),
    ensures
        axis_distance(list[i].x, center.x) <= render_distance.0,
        axis_distance(list[i].z, center.z) <= render_distance.0,
        axis_distance(list[i].y, center.y) <= render_distance.1,
        !resident.contains_key(list[i]),
{
}

/// A discovery sweep finds no coordinate twice.
pub proof fn lemma_found_once(
    list: Seq<ChunkCoordinate>,
    resident: Map<ChunkCoordinate, Chunk>,
    center: ChunkCoordinate,
    render_distance: (u32, u32),
)
    requires
        found_by_discovery(list, resident, center, render_distance),
    ensures
        list.no_duplicates(),
{
    assert forall|i: int, j: int|
        0 <= i < list.len() && 0 <= j < list.len() && i != j implies list[i] != list[j] by {
        if i < j {
            assert(swept_before(list[i], list[j].y as int, list[j].x as int, list[j].z as int));
        } else {
            assert(swept_before(list[j], list[i].y as int, list[i].x as int, list[i].z as int));
        }
    }
}

/// A discovery sweep only adds: the chunks that were resident stay, each as it
/// was, and afterwards every coordinate within render distance of the centre
/// is resident.
pub proof fn lemma_discovery_grows(
    resident: Map<ChunkCoordinate, Chunk>,
    center: ChunkCoordinate,
    render_distance: (u32, u32),
)
    ensures
        resident.submap_of(after_discovery(resident, center, render_distance)),
        forall|coord: ChunkCoordinate|
            within_render_distance(coord, center, render_distance) ==> #[trigger] after_discovery(
                resident,
                center,
                render_distance,
            ).contains_key(coord),
        forall|coord: ChunkCoordinate|
            #[trigger] after_discovery(resident, center, render_distance).contains_key(coord)
                && !resident.contains_key(coord) ==> within_render_distance(
                coord,
                center,
                render_distance,
            ) && !after_discovery(resident, center, render_distance)[coord].visible,
{
}

/// A second discovery sweep round the same centre changes nothing: it leaves
/// the map as the first left it, and it finds no coordinate.
pub proof fn lemma_discovery_is_idempotent(
    resident: Map<ChunkCoordinate, Chunk>,
    center: ChunkCoordinate,
    render_distance: (u32, u32),
    second: Seq<ChunkCoordinate>,
)
    requires
        found_by_discovery(
            second,
            after_discovery(resident, center, render_distance),
            center,
            render_distance,
        ),
    ensures
        after_discovery(
            after_discovery(resident, center, render_distance),
            center,
            render_distance,
        ) == after_discovery(resident, center, render_distance),
        second.len() == 0,
{
    let once = after_discovery(resident, center, render_distance);
    assert(after_discovery(once, center, render_distance) =~= once);
    if second.len() > 0 {
        assert(within_render_distance(second[0], center, render_distance));
        assert(once.contains_key(second[0]));
    }
}

/// No coordinate is found twice, whatever the sweeps: what one discovery sweep
/// found, or what was resident before it, no later sweep finds again. So the
/// mesh of a chunk is asked for once.
pub proof fn lemma_never_found_again(
    resident: Map<ChunkCoordinate, Chunk>,
    center: ChunkCoordinate,
    render_distance: (u32, u32),
    first: Seq<ChunkCoordinate>,
    later_center: ChunkCoordinate,
    later_render_distance: (u32, u32),
    later: Seq<ChunkCoordinate>,
)
    requires
        found_by_discovery(first, resident, center, render_distance),
        found_by_discovery(
            later,
            after_discovery(resident, center, render_distance),
            later_center,
            later_render_distance,
        ),
    ensures
        forall|i: int|
            0 <= i < later.len() ==> !first.contains(#[trigger] later[i]) && !resident.contains_key(
                later[i],
            ),
{
    let once = after_discovery(resident, center, render_distance);
    assert forall|i: int| 0 <= i < later.len() implies !first.contains(#[trigger] later[i])
        && !resident.contains_key(later[i]) by {
        assert(!once.contains_key(later[i]));
        if first.contains(later[i]) {
            let j = choose|j: int| 0 <= j < first.len() && first[j] == later[i];
            assert(within_render_distance(first[j], center, render_distance));
        }
    }
}

/// After a visibility refresh the same chunks are resident, and a chunk is
/// visible exactly if it lies within render distance of the centre of the
/// refresh.
pub proof fn lemma_refresh_marks_range(
    resident: Map<ChunkCoordinate, Chunk>,
    center: ChunkCoordinate,
    render_distance: (u32, u32),
)
    ensures
        after_refresh(resident, center, render_distance).dom() == resident.dom(),
        forall|coord: ChunkCoordinate|
            resident.contains_key(coord) ==> (#[trigger] after_refresh(
                resident,
                center,
                render_distance,
            )[coord]).visible == within_render_distance(coord, center, render_distance),
{
    assert(after_refresh(resident, center, render_distance).dom() =~= resident.dom());
}

/// After a discovery sweep and a refresh round the same centre, every
/// coordinate within render distance of it is resident and visible, and every
/// other resident chunk is not visible.
pub proof fn lemma_tick_shows_range(
    resident: Map<ChunkCoordinate, Chunk>,
    center: ChunkCoordinate,
    render_distance: (u32, u32),
    coord: ChunkCoordinate,
)
    ensures
        ({
            let ticked = after_refresh(
                after_discovery(resident, center, render_distance),
                center,
                render_distance,
            );
            &&& within_render_distance(coord, center, render_distance) ==> ticked.contains_key(
                coord,
            ) && ticked[coord].visible
            &&& ticked.contains_key(coord) && !within_render_distance(
                coord,
                center,
                render_distance,
            ) ==> resident.contains_key(coord) && !ticked[coord].visible
        }),
{
}

/// A chunk coordinate that was not cut to the 32-bit range is the one whose
/// span of `edge` world units holds the position: positions below zero fall
/// into chunks below zero.
pub proof fn lemma_chunk_holds_position(position: int, edge: int)
    requires
        edge > 0,
        i32::MIN <= position / edge <= i32::MAX,
    ensures
        chunk_of_position(position, edge) * edge <= position < (chunk_of_position(position, edge)
            + 1) * edge,
{
    lemma_floor_fits(position, edge);
}

} // verus!
