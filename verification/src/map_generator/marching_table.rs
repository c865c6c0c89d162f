use vstd::prelude::*;

verus! {

/// The eight corners of a unit cube, as offsets from its lowest lattice point.
/// Corners 0 to 3 run round the bottom face, corners 4 to 7 sit above them.
pub const VERTICES: [(usize, usize, usize); 8] = [
    (0, 0, 0),
    (0, 0, 1),
    (1, 0, 1),
    (1, 0, 0),
    (0, 1, 0),
    (0, 1, 1),
    (1, 1, 1),
    (1, 1, 0),
];

/// The twelve edges of a unit cube, each as the pair of corners it joins.
pub const EDGES: [(usize, usize); 12] = [
    (0, 1),
    (1, 2),
    (2, 3),
    (3, 0),
    (4, 5),
    (5, 6),
    (6, 7),
    (7, 4),
    (0, 4),
    (1, 5),
    (2, 6),
    (3, 7),
];

/// Weight of each corner in a cube's configuration: corner `i` is bit `i`.
pub const CORNER_WEIGHTS: [u8; 8] = [1, 2, 4, 8, 16, 32, 64, 128];

/// The four-bit value that fills a row behind its last edge.
pub const ROW_END: u64 = 15;

/// The triangulation of each of the 256 configurations of a cube. A row lists
/// the edges that carry the corners of its triangles, three to a triangle, in
/// the order the triangles are emitted. It is packed four bits to an edge, the
/// first edge lowest, and filled up with `ROW_END`.
pub const TRIANGULATIONS: [u64; 256] = [
    0xfffffffffffffff, 0xffffffffffff380, 0xffffffffffff910, 0xfffffffff189381,
    0xffffffffffffa21, 0xfffffffffa21380, 0xfffffffff920a29, 0xffffff89a8a2382,
    0xffffffffffff2b3, 0xfffffffff0b82b0, 0xfffffffffb32091, 0xffffffb89b912b1,
    0xfffffffff3ab1a3, 0xffffffab8a801a0, 0xffffff9ab9b3093, 0xfffffffffb8aa89,
    0xffffffffffff874, 0xfffffffff437034, 0xfffffffff748910, 0xffffff137174914,
    0xfffffffff748a21, 0xffffffa21403743, 0xffffff748209a29, 0xfff4973727929a2,
    0xfffffffff2b3748, 0xffffff40242b74b, 0xffffffb32748109, 0xfff1292b9b49b74,
    0xffffff487ab31a3, 0xfff4b7401b41ab1, 0xfff30bab9b09874, 0xffffffab99b4b74,
    0xffffffffffff459, 0xfffffffff380459, 0xfffffffff051450, 0xffffff513538458,
    0xfffffffff459a21, 0xffffff594a21803, 0xffffff204245a25, 0xfff8434535235a2,
    0xfffffffffb32459, 0xffffff594b802b0, 0xffffffb32510450, 0xfff584b82852512,
    0xffffff45931ab3a, 0xfffab81a8180594, 0xfff30bab5b05045, 0xffffffb8aa85845,
    0xfffffffff975879, 0xffffff375359039, 0xffffff751710870, 0xfffffffff753351,
    0xffffff21a759879, 0xfff37503505921a, 0xfff25a758528208, 0xffffff7533525a2,
    0xffffff2b3987597, 0xfffb72029279759, 0xfff751871810b32, 0xffffff51771b12b,
    0xfffb3a31a758859, 0x0aba010b7905075, 0x07570805a30b0ab, 0xfffffffff5b75ab,
    0xffffffffffff56a, 0xfffffffff6a5380, 0xfffffffff6a5109, 0xffffff6a5891381,
    0xfffffffff162561, 0xffffff803621561, 0xffffff620609569, 0xfff823625285895,
    0xfffffffff56ab32, 0xffffff56a02b80b, 0xffffff6a5b32910, 0xfffb892b92916a5,
    0xffffff315356b36, 0xfff6b51505b0b80, 0xfff9505606306b3, 0xffffff89bb96956,
    0xfffffffff8746a5, 0xffffffa56374034, 0xffffff7486a5091, 0xfff49737179156a,
    0xffffff874156216, 0xfff743403625521, 0xfff620560509748, 0x962695923497937,
    0xffffff56a4872b3, 0xfffb720242746a5, 0xfff6a5b32874910, 0x6a54b7b492b9129,
    0xfff6b51535b3748, 0xb404b7b016b5b15, 0x74836b630560950, 0xfff9b7974b96956,
    0xfffffffffa4694a, 0xffffff380a946a4, 0xffffff04606a10a, 0xfffa16468618138,
    0xffffff462421941, 0xfff462942921803, 0xfffffffff624420, 0xffffff624428238,
    0xffffff32b46a94a, 0xfff6a4a94b82280, 0xfffa164606102b3, 0x1b8b12184a16146,
    0xfff36b319639469, 0x14641916b0181b8, 0xffffff4600636b3, 0xfffffffff86b846,
    0xffffffa98a876a7, 0xfffa76a907a0370, 0xfff0818717a176a, 0xffffff37117a76a,
    0xfff768981861621, 0x937390976192962, 0xffffff206607087, 0xfffffffff276237,
    0xfff76898a86ab32, 0x7a9a76790b72702, 0xb32a767a1871081, 0xfff17616a71b12b,
    0x63136b619768698, 0xfffffffff76b190, 0xfff06b0b3607087, 0xffffffffffff6b7,
    0xffffffffffffb67, 0xfffffffff67b803, 0xfffffffff67b910, 0xffffff67b138918,
    0xfffffffff7b621a, 0xffffff7b6803a21, 0xffffff7b69a2092, 0xfff89a38a3a27b6,
    0xfffffffff726327, 0xffffff026067807, 0xffffff910732672, 0xfff678891681261,
    0xffffff73171a67a, 0xfff801781a7167a, 0xfff7a69a0a70730, 0xffffff9a88a7a67,
    0xfffffffff68b486, 0xffffff640603b63, 0xffffff109648b68, 0xfff63b139369649,
    0xffffff1a28b6486, 0xfff640b60b03a21, 0xfff9a2920b648b4, 0x36463b34923a39a,
    0xffffff264248328, 0xfffffffff264240, 0xfff834642432091, 0xffffff642241491,
    0xfff1a6648168318, 0xffffff40660a01a, 0x39a9303a6834364, 0xfffffffff4a649a,
    0xfffffffffb67594, 0xffffff67b594380, 0xffffffb67045105, 0xfff51345343867b,
    0xffffffb6721a459, 0xfff594380a217b6, 0xfff204a24a45b67, 0x67b25a523453843,
    0xffffff945267327, 0xfff786260680459, 0xfff045051673263, 0x851584812786826,
    0xfff73167161a459, 0x459078701671a61, 0xa737a6a305a4a04, 0xfffa84a458a7a67,
    0xffffff98b9b6596, 0xfff590650360b63, 0xfffb65510b508b0, 0xffffff1355363b6,
    0xfff65b8b9b59a21, 0xa21965690b603b0, 0x52025a50865b58b, 0xfff35a3a25363b6,
    0xfff283265825985, 0xffffff260069659, 0x826283865081851, 0xfffffffff612651,
    0x698965683a61631, 0xfff06505960a01a, 0xfffffffffa65830, 0xffffffffffff65a,
    0xfffffffffb57a5b, 0xffffff03857ba5b, 0xffffff091ba57b5, 0xfff1381897ba57a,
    0xffffff15717b21b, 0xfffb27571721380, 0xfff7b2209729579, 0x289823295b27257,
    0xffffff573532a52, 0xfff52a578258028, 0xfff2a37353a5109, 0x25752a278129289,
    0xfffffffff573531, 0xffffff571170780, 0xffffff735539309, 0xfffffffff795789,
    0xffffff8ba8a5485, 0xfff03bba50b5405, 0xfff54aba8a48910, 0x41314943b54a4ba,
    0xfff8548b2582152, 0xb151b2b543b0b40, 0x58b8545b2950520, 0xfffffffff3b2549,
    0xfff483543253a52, 0xffffff0244252a5, 0x910854583a532a3, 0xfff2492914252a5,
    0xffffff153358548, 0xfffffffff501540, 0xfff530509358548, 0xffffffffffff549,
    0xffffffba9b947b4, 0xfffba97b9794380, 0xfffb470414b1ba1, 0x4bab474a1843413,
    0xfff219b294b97b4, 0x3801b2b197b9479, 0xffffff04224b47b, 0xfff42343824b47b,
    0xfff947732972a92, 0x70207872a4797a9, 0xa040a1a472a3a73, 0xfffffffff4782a1,
    0xffffff317714194, 0xfff178180714194, 0xfffffffff347304, 0xffffffffffff784,
    0xfffffffff8ba8a9, 0xffffffa9bb93903, 0xffffffba88a0a10, 0xfffffffffa3ba13,
    0xffffff8b99b1b21, 0xfff9b2921b93903, 0xfffffffffb08b20, 0xffffffffffffb23,
    0xffffff98aa82832, 0xfffffffff2902a9, 0xfff8a1810a82832, 0xffffffffffff2a1,
    0xfffffffff819831, 0xffffffffffff190, 0xffffffffffff830, 0xfffffffffffffff,
];

/// The four bits at `slot` of a packed row.
pub open spec fn packed_slot(row: u64, slot: int) -> int {
    if slot == 0 {
        row as int % 16
    } else if slot == 1 {
        (row as int / 0x10) % 16
    } else if slot == 2 {
        (row as int / 0x100) % 16
    } else if slot == 3 {
        (row as int / 0x1000) % 16
    } else if slot == 4 {
        (row as int / 0x10000) % 16
    } else if slot == 5 {
        (row as int / 0x100000) % 16
    } else if slot == 6 {
        (row as int / 0x1000000) % 16
    } else if slot == 7 {
        (row as int / 0x10000000) % 16
    } else if slot == 8 {
        (row as int / 0x100000000) % 16
    } else if slot == 9 {
        (row as int / 0x1000000000) % 16
    } else if slot == 10 {
        (row as int / 0x10000000000) % 16
    } else if slot == 11 {
        (row as int / 0x100000000000) % 16
    } else if slot == 12 {
        (row as int / 0x1000000000000) % 16
    } else if slot == 13 {
        (row as int / 0x10000000000000) % 16
    } else {
        (row as int / 0x100000000000000) % 16
    }
}

/// The entry at `slot` of a packed row, as the mesher reads it: the number of
/// an edge, or -1 behind the last edge.
pub open spec fn packed_entry(packed: u64, slot: int) -> int {
    let bits = packed_slot(packed, slot);
    if bits == ROW_END {
        -1
    } else {
        bits
    }
}

/// A packed row as the mesher reads it: fifteen entries, the edges first, then
/// -1.
pub open spec fn unpacked(packed: u64) -> Seq<i8> {
    Seq::new(15, |slot: int| packed_entry(packed, slot) as i8)
}

/// The entry at `slot` in the row of `config`.
#[verifier::opaque]
pub open spec fn edge_at(config: int, slot: int) -> int {
    packed_entry(TRIANGULATIONS[config], slot)
}

/// The row of `config` as the mesher reads it.
pub open spec fn triangulation_row(config: int) -> Seq<i8> {
    unpacked(TRIANGULATIONS[config])
}

/// A packed row with its first `slot` entries shifted out.
pub open spec fn shifted(packed: u64, slot: int) -> int
    decreases slot,
{
    if slot <= 0 {
        packed as int
    } else {
        shifted(packed, slot - 1) / 16
    }
}

/// The four bits at a slot are the lowest of the row once the slots before it
/// are shifted out.
proof fn lemma_shifted_slot(packed: u64, slot: int)
    requires
        0 <= slot < 15,
    ensures
        packed_slot(packed, slot) == shifted(packed, slot) % 16,
        0 <= shifted(packed, slot) <= u64::MAX,
{
    reveal_with_fuel(shifted, 16);
}

fn unpack(bits: u64) -> (entry: i8)
    requires
        bits < 16,
    ensures
        entry == if bits == ROW_END {
            -1
        } else {
            bits as int
        },
{
    if bits == ROW_END {
        -1
    } else {
        bits as i8
    }
}

/// Spreads a packed row out into its fifteen entries.
pub fn unpack_row(packed: u64) -> (row: [i8; 15])
    ensures
        row@ == unpacked(packed),
{
    let mut row: [i8; 15] = [-1; 15];
    let mut rest: u64 = packed;
    let mut slot: usize = 0;
    while slot < 15
        invariant
            slot <= 15,
            rest as int == shifted(packed, slot as int),
            forall|done: int|
                0 <= done < slot ==> #[trigger] row@[done] == packed_entry(packed, done),
        decreases 15 - slot,
    {
        proof {
            lemma_shifted_slot(packed, slot as int);
        }
        row[slot] = unpack(rest % 16);
        rest = rest / 16;
        slot = slot + 1;
    }
    assert(row@ =~= unpacked(packed));
    row
}

/// Looks a configuration up in the triangulation table.
pub fn triangulation(config: u8) -> (row: [i8; 15])
    ensures
        row@ == triangulation_row(config as int),
{
    unpack_row(TRIANGULATIONS[config as usize])
}

/// The row of a configuration, as the mesher reads it, holds at each slot the
/// entry of that slot: the number of an edge below 15, or -1.
pub proof fn lemma_row_entry(config: int, slot: int)
    requires
        0 <= slot < 15,
    ensures
        triangulation_row(config).len() == 15,
        triangulation_row(config)[slot] as int == edge_at(config, slot),
        -1 <= edge_at(config, slot) < 15,
{
    reveal(edge_at);
}

/// Number of edges the row of `config` lists: its entries before the first
/// negative one.
pub open spec fn edge_count(config: int) -> int {
    if edge_at(config, 0) < 0 {
        0
    } else if edge_at(config, 1) < 0 {
        1
    } else if edge_at(config, 2) < 0 {
        2
    } else if edge_at(config, 3) < 0 {
        3
    } else if edge_at(config, 4) < 0 {
        4
    } else if edge_at(config, 5) < 0 {
        5
    } else if edge_at(config, 6) < 0 {
        6
    } else if edge_at(config, 7) < 0 {
        7
    } else if edge_at(config, 8) < 0 {
        8
    } else if edge_at(config, 9) < 0 {
        9
    } else if edge_at(config, 10) < 0 {
        10
    } else if edge_at(config, 11) < 0 {
        11
    } else if edge_at(config, 12) < 0 {
        12
    } else if edge_at(config, 13) < 0 {
        13
    } else if edge_at(config, 14) < 0 {
        14
    } else {
        15
    }
}

/// Corner `corner` is inside the surface in configuration `config`: its bit is
/// set.
pub open spec fn corner_inside(config: int, corner: int) -> bool {
    if corner == 0 {
        config % 2 == 1
    } else if corner == 1 {
        (config / 2) % 2 == 1
    } else if corner == 2 {
        (config / 4) % 2 == 1
    } else if corner == 3 {
        (config / 8) % 2 == 1
    } else if corner == 4 {
        (config / 16) % 2 == 1
    } else if corner == 5 {
        (config / 32) % 2 == 1
    } else if corner == 6 {
        (config / 64) % 2 == 1
    } else {
        (config / 128) % 2 == 1
    }
}

/// The surface passes through edge `edge` in configuration `config`: one of its
/// corners is inside, the other outside.
pub open spec fn edge_crosses(config: int, edge: int) -> bool {
    corner_inside(config, EDGES[edge].0 as int) != corner_inside(config, EDGES[edge].1 as int)
}

/// Slot `slot` of the row of `config` holds what it should: among the listed
/// edges, an edge that the surface passes through; behind them, -1.
pub open spec fn slot_sound(config: int, slot: int) -> bool {
    let edge = edge_at(config, slot);
    if slot < edge_count(config) {
        0 <= edge < 12 && edge_crosses(config, edge)
    } else {
        edge == -1
    }
}

/// The row of `config` lists edge `edge`.
pub open spec fn edge_listed(config: int, edge: int) -> bool {
    exists|slot: int| 0 <= slot < edge_count(config) && #[trigger] edge_at(config, slot) == edge
}

/// The row of a configuration triangulates it: its edges come in threes, the
/// surface passes through each of them, only -1 follows them, and every edge
/// that the surface passes through is among them.
pub open spec fn row_sound(config: int) -> bool {
    &&& 0 <= edge_count(config) <= 15
    &&& edge_count(config) % 3 == 0
    &&& forall|slot: int| 0 <= slot < 15 ==> #[trigger] slot_sound(config, slot)
    &&& forall|edge: int|
        0 <= edge < 12 && #[trigger] edge_crosses(config, edge) ==> edge_listed(config, edge)
}

spec fn slots_checked(config: int) -> bool {
    &&& slot_sound(config, 0)
    &&& slot_sound(config, 1)
    &&& slot_sound(config, 2)
    &&& slot_sound(config, 3)
    &&& slot_sound(config, 4)
    &&& slot_sound(config, 5)
    &&& slot_sound(config, 6)
    &&& slot_sound(config, 7)
    &&& slot_sound(config, 8)
    &&& slot_sound(config, 9)
    &&& slot_sound(config, 10)
    &&& slot_sound(config, 11)
    &&& slot_sound(config, 12)
    &&& slot_sound(config, 13)
    &&& slot_sound(config, 14)
}

spec fn row_holds(config: int, edge: int) -> bool {
    ||| edge_at(config, 0) == edge
    ||| edge_at(config, 1) == edge
    ||| edge_at(config, 2) == edge
    ||| edge_at(config, 3) == edge
    ||| edge_at(config, 4) == edge
    ||| edge_at(config, 5) == edge
    ||| edge_at(config, 6) == edge
    ||| edge_at(config, 7) == edge
    ||| edge_at(config, 8) == edge
    ||| edge_at(config, 9) == edge
    ||| edge_at(config, 10) == edge
    ||| edge_at(config, 11) == edge
    ||| edge_at(config, 12) == edge
    ||| edge_at(config, 13) == edge
    ||| edge_at(config, 14) == edge
}

spec fn edges_checked(config: int) -> bool {
    &&& (edge_crosses(config, 0) ==> row_holds(config, 0))
    &&& (edge_crosses(config, 1) ==> row_holds(config, 1))
    &&& (edge_crosses(config, 2) ==> row_holds(config, 2))
    &&& (edge_crosses(config, 3) ==> row_holds(config, 3))
    &&& (edge_crosses(config, 4) ==> row_holds(config, 4))
    &&& (edge_crosses(config, 5) ==> row_holds(config, 5))
    &&& (edge_crosses(config, 6) ==> row_holds(config, 6))
    &&& (edge_crosses(config, 7) ==> row_holds(config, 7))
    &&& (edge_crosses(config, 8) ==> row_holds(config, 8))
    &&& (edge_crosses(config, 9) ==> row_holds(config, 9))
    &&& (edge_crosses(config, 10) ==> row_holds(config, 10))
    &&& (edge_crosses(config, 11) ==> row_holds(config, 11))
}

#[verifier::opaque]
spec fn row_checked(config: int) -> bool {
    &&& edge_count(config) % 3 == 0
    &&& slots_checked(config)
    &&& edges_checked(config)
}

proof fn lemma_checked_row_is_sound(config: int)
    requires
        row_checked(config),
    ensures
        row_sound(config),
{
    reveal(row_checked);
    assert forall|edge: int|
        0 <= edge < 12 && #[trigger] edge_crosses(config, edge) implies edge_listed(config, edge) by {
        assert(row_holds(config, edge));
        let slot = choose|slot: int| 0 <= slot < 15 && edge_at(config, slot) == edge;
        assert(slot_sound(config, slot));
    }
}

proof fn lemma_rows_000_to_015()
    ensures
        row_checked(0),
        row_checked(1),
        row_checked(2),
        row_checked(3),
        row_checked(4),
        row_checked(5),
        row_checked(6),
        row_checked(7),
        row_checked(8),
        row_checked(9),
        row_checked(10),
        row_checked(11),
        row_checked(12),
        row_checked(13),
        row_checked(14),
        row_checked(15),
{
    reveal(row_checked);
    reveal(edge_at);
}

proof fn lemma_rows_016_to_031()
    ensures
        row_checked(16),
        row_checked(17),
        row_checked(18),
        row_checked(19),
        row_checked(20),
        row_checked(21),
        row_checked(22),
        row_checked(23),
        row_checked(24),
        row_checked(25),
        row_checked(26),
        row_checked(27),
        row_checked(28),
        row_checked(29),
        row_checked(30),
        row_checked(31),
{
    reveal(row_checked);
    reveal(edge_at);
}

proof fn lemma_rows_032_to_047()
    ensures
        row_checked(32),
        row_checked(33),
        row_checked(34),
        row_checked(35),
        row_checked(36),
        row_checked(37),
        row_checked(38),
        row_checked(39),
        row_checked(40),
        row_checked(41),
        row_checked(42),
        row_checked(43),
        row_checked(44),
        row_checked(45),
        row_checked(46),
        row_checked(47),
{
    reveal(row_checked);
    reveal(edge_at);
}

proof fn lemma_rows_048_to_063()
    ensures
        row_checked(48),
        row_checked(49),
        row_checked(50),
        row_checked(51),
        row_checked(52),
        row_checked(53),
        row_checked(54),
        row_checked(55),
        row_checked(56),
        row_checked(57),
        row_checked(58),
        row_checked(59),
        row_checked(60),
        row_checked(61),
        row_checked(62),
        row_checked(63),
{
    reveal(row_checked);
    reveal(edge_at);
}

proof fn lemma_rows_064_to_079()
    ensures
        row_checked(64),
        row_checked(65),
        row_checked(66),
        row_checked(67),
        row_checked(68),
        row_checked(69),
        row_checked(70),
        row_checked(71),
        row_checked(72),
        row_checked(73),
        row_checked(74),
        row_checked(75),
        row_checked(76),
        row_checked(77),
        row_checked(78),
        row_checked(79),
{
    reveal(row_checked);
    reveal(edge_at);
}

proof fn lemma_rows_080_to_095()
    ensures
        row_checked(80),
        row_checked(81),
        row_checked(82),
        row_checked(83),
        row_checked(84),
        row_checked(85),
        row_checked(86),
        row_checked(87),
        row_checked(88),
        row_checked(89),
        row_checked(90),
        row_checked(91),
        row_checked(92),
        row_checked(93),
        row_checked(94),
        row_checked(95),
{
    reveal(row_checked);
    reveal(edge_at);
}

proof fn lemma_rows_096_to_111()
    ensures
        row_checked(96),
        row_checked(97),
        row_checked(98),
        row_checked(99),
        row_checked(100),
        row_checked(101),
        row_checked(102),
        row_checked(103),
        row_checked(104),
        row_checked(105),
        row_checked(106),
        row_checked(107),
        row_checked(108),
        row_checked(109),
        row_checked(110),
        row_checked(111),
{
    reveal(row_checked);
    reveal(edge_at);
}

proof fn lemma_rows_112_to_127()
    ensures
        row_checked(112),
        row_checked(113),
        row_checked(114),
        row_checked(115),
        row_checked(116),
        row_checked(117),
        row_checked(118),
        row_checked(119),
        row_checked(120),
        row_checked(121),
        row_checked(122),
        row_checked(123),
        row_checked(124),
        row_checked(125),
        row_checked(126),
        row_checked(127),
{
    reveal(row_checked);
    reveal(edge_at);
}

proof fn lemma_rows_128_to_143()
    ensures
        row_checked(128),
        row_checked(129),
        row_checked(130),
        row_checked(131),
        row_checked(132),
        row_checked(133),
        row_checked(134),
        row_checked(135),
        row_checked(136),
        row_checked(137),
        row_checked(138),
        row_checked(139),
        row_checked(140),
        row_checked(141),
        row_checked(142),
        row_checked(143),
{
    reveal(row_checked);
    reveal(edge_at);
}

proof fn lemma_rows_144_to_159()
    ensures
        row_checked(144),
        row_checked(145),
        row_checked(146),
        row_checked(147),
        row_checked(148),
        row_checked(149),
        row_checked(150),
        row_checked(151),
        row_checked(152),
        row_checked(153),
        row_checked(154),
        row_checked(155),
        row_checked(156),
        row_checked(157),
        row_checked(158),
        row_checked(159),
{
    reveal(row_checked);
    reveal(edge_at);
}

proof fn lemma_rows_160_to_175()
    ensures
        row_checked(160),
        row_checked(161),
        row_checked(162),
        row_checked(163),
        row_checked(164),
        row_checked(165),
        row_checked(166),
        row_checked(167),
        row_checked(168),
        row_checked(169),
        row_checked(170),
        row_checked(171),
        row_checked(172),
        row_checked(173),
        row_checked(174),
        row_checked(175),
{
    reveal(row_checked);
    reveal(edge_at);
}

proof fn lemma_rows_176_to_191()
    ensures
        row_checked(176),
        row_checked(177),
        row_checked(178),
        row_checked(179),
        row_checked(180),
        row_checked(181),
        row_checked(182),
        row_checked(183),
        row_checked(184),
        row_checked(185),
        row_checked(186),
        row_checked(187),
        row_checked(188),
        row_checked(189),
        row_checked(190),
        row_checked(191),
{
    reveal(row_checked);
    reveal(edge_at);
}

proof fn lemma_rows_192_to_207()
    ensures
        row_checked(192),
        row_checked(193),
        row_checked(194),
        row_checked(195),
        row_checked(196),
        row_checked(197),
        row_checked(198),
        row_checked(199),
        row_checked(200),
        row_checked(201),
        row_checked(202),
        row_checked(203),
        row_checked(204),
        row_checked(205),
        row_checked(206),
        row_checked(207),
{
    reveal(row_checked);
    reveal(edge_at);
}

proof fn lemma_rows_208_to_223()
    ensures
        row_checked(208),
        row_checked(209),
        row_checked(210),
        row_checked(211),
        row_checked(212),
        row_checked(213),
        row_checked(214),
        row_checked(215),
        row_checked(216),
        row_checked(217),
        row_checked(218),
        row_checked(219),
        row_checked(220),
        row_checked(221),
        row_checked(222),
        row_checked(223),
{
    reveal(row_checked);
    reveal(edge_at);
}

proof fn lemma_rows_224_to_239()
    ensures
        row_checked(224),
        row_checked(225),
        row_checked(226),
        row_checked(227),
        row_checked(228),
        row_checked(229),
        row_checked(230),
        row_checked(231),
        row_checked(232),
        row_checked(233),
        row_checked(234),
        row_checked(235),
        row_checked(236),
        row_checked(237),
        row_checked(238),
        row_checked(239),
{
    reveal(row_checked);
    reveal(edge_at);
}

proof fn lemma_rows_240_to_255()
    ensures
        row_checked(240),
        row_checked(241),
        row_checked(242),
        row_checked(243),
        row_checked(244),
        row_checked(245),
        row_checked(246),
        row_checked(247),
        row_checked(248),
        row_checked(249),
        row_checked(250),
        row_checked(251),
        row_checked(252),
        row_checked(253),
        row_checked(254),
        row_checked(255),
{
    reveal(row_checked);
    reveal(edge_at);
}

/// Every row of the table triangulates its configuration.
pub proof fn lemma_table_sound(config: int)
    requires
        0 <= config < 256,
    ensures
        row_sound(config),
{
    if config <= 15 {
        lemma_rows_000_to_015();
    } else if config <= 31 {
        lemma_rows_016_to_031();
    } else if config <= 47 {
        lemma_rows_032_to_047();
    } else if config <= 63 {
        lemma_rows_048_to_063();
    } else if config <= 79 {
        lemma_rows_064_to_079();
    } else if config <= 95 {
        lemma_rows_080_to_095();
    } else if config <= 111 {
        lemma_rows_096_to_111();
    } else if config <= 127 {
        lemma_rows_112_to_127();
    } else if config <= 143 {
        lemma_rows_128_to_143();
    } else if config <= 159 {
        lemma_rows_144_to_159();
    } else if config <= 175 {
        lemma_rows_160_to_175();
    } else if config <= 191 {
        lemma_rows_176_to_191();
    } else if config <= 207 {
        lemma_rows_192_to_207();
    } else if config <= 223 {
        lemma_rows_208_to_223();
    } else if config <= 239 {
        lemma_rows_224_to_239();
    } else {
        lemma_rows_240_to_255();
    }
    lemma_checked_row_is_sound(config);
}

} // verus!
