//! The virtual keyboard: a picture of the keyboard with one clickable area
//! per key, each mapped directly onto a `(line, bit)` position of the
//! emulated keyboard matrix.
//!
//! The key areas were measured once and for all on the source picture
//! (1801x873 pixels); they are kept here in half pixels of that picture, so
//! that the one area edge that falls between two pixels is exact.
//!
//! A single mouse cannot hold SHIFT or CONTROL down while clicking another
//! key: those two are latches (a click sets them), released as soon as
//! another, non-modifier key is clicked. CAPS LOCK sends a one-frame pulse
//! per click (the firmware reacts to the edge, not the level), and only its
//! display toggles. Every other key follows the mouse button: down while it
//! is held over it.

use vstd::prelude::*;

verus! {

/// A `(line, bit)` position in the keyboard matrix.
pub type Position = (usize, u8);

pub const SHIFT: Position = (2, 5);

pub const CONTROL: Position = (2, 7);

pub const CAPS_LOCK: Position = (8, 6);

/// The only key drawn as one L-shaped key over two areas.
pub const RETURN: Position = (2, 2);

/// Width of the source picture, in half pixels.
pub const IMAGE_WIDTH_HALF_PX: u32 = 3602;

/// Height of the source picture, in half pixels.
pub const IMAGE_HEIGHT_HALF_PX: u32 = 1746;

/// Lines of the keyboard matrix.
pub const MATRIX_LINES: usize = 10;

/// Bits per line of the keyboard matrix.
pub const MATRIX_BITS: u8 = 8;

/// A key area on the source picture, in half pixels: from `(x0, y0)` to
/// `(x1, y1)`.
#[derive(Clone, Copy, PartialEq, Eq, Debug, Structural)]
pub struct KeyRect {
    pub x0: u32,
    pub y0: u32,
    pub x1: u32,
    pub y1: u32,
}

/// A clickable area and the matrix position it presses.
#[derive(Clone, Copy, Debug)]
pub struct VirtualKey {
    pub rect: KeyRect,
    pub position: Position,
}

pub open spec fn spec_key(x0: u32, y0: u32, x1: u32, y1: u32, line: usize, bit: u8) -> VirtualKey {
    VirtualKey { rect: KeyRect { x0, y0, x1, y1 }, position: (line, bit) }
}

fn k(x0: u32, y0: u32, x1: u32, y1: u32, line: usize, bit: u8) -> (r: VirtualKey)
    ensures
        r == spec_key(x0, y0, x1, y1, line, bit),
{
    VirtualKey { rect: KeyRect { x0, y0, x1, y1 }, position: (line, bit) }
}

/// Number of key areas.
pub open spec fn key_count() -> int {
    75
}

/// The key areas, row by row from the top, left to right. A key over two
/// rows (RETURN) or on both sides of the keyboard (SHIFT) has two areas with
/// the same position.
pub open spec fn key_at(i: int) -> VirtualKey {
    if i == 0 {
        spec_key(94, 502, 272, 674, 8, 2) // ESC
    } else if i == 1 {
        spec_key(288, 502, 466, 674, 8, 0) // 1 &
    } else if i == 2 {
        spec_key(480, 502, 658, 674, 8, 1) // 2 é
    } else if i == 3 {
        spec_key(670, 502, 850, 674, 7, 1) // 3 "
    } else if i == 4 {
        spec_key(864, 502, 1040, 674, 7, 0) // 4 '
    } else if i == 5 {
        spec_key(1054, 502, 1234, 674, 6, 1) // 5 (
    } else if i == 6 {
        spec_key(1248, 502, 1424, 674, 6, 0) // 6 ]
    } else if i == 7 {
        spec_key(1436, 502, 1614, 674, 5, 1) // 7 è
    } else if i == 8 {
        spec_key(1628, 502, 1806, 674, 5, 0) // 8 !
    } else if i == 9 {
        spec_key(1820, 502, 1996, 674, 4, 1) // 9 ç
    } else if i == 10 {
        spec_key(2010, 502, 2184, 674, 4, 0) // 0 à
    } else if i == 11 {
        spec_key(2198, 502, 2374, 674, 3, 1) // [ )
    } else if i == 12 {
        spec_key(2388, 502, 2566, 674, 3, 0) // - _
    } else if i == 13 {
        spec_key(2580, 502, 2756, 674, 2, 0) // CLR
    } else if i == 14 {
        spec_key(2770, 502, 2948, 674, 9, 7) // DEL
    } else if i == 15 {
        spec_key(2962, 502, 3142, 674, 1, 2) // f7
    } else if i == 16 {
        spec_key(3156, 502, 3334, 674, 1, 3) // f8
    } else if i == 17 {
        spec_key(3348, 502, 3524, 674, 0, 3) // f9
    } else if i == 18 {
        spec_key(96, 696, 358, 870, 8, 4) // TAB
    } else if i == 19 {
        spec_key(384, 696, 552, 870, 8, 3) // A
    } else if i == 20 {
        spec_key(576, 696, 748, 870, 7, 3) // Z
    } else if i == 21 {
        spec_key(772, 696, 942, 870, 7, 2) // E
    } else if i == 22 {
        spec_key(966, 696, 1134, 870, 6, 2) // R
    } else if i == 23 {
        spec_key(1160, 696, 1326, 870, 6, 3) // T
    } else if i == 24 {
        spec_key(1350, 696, 1518, 870, 5, 3) // Y
    } else if i == 25 {
        spec_key(1540, 696, 1706, 870, 5, 2) // U
    } else if i == 26 {
        spec_key(1732, 696, 1900, 870, 4, 3) // I
    } else if i == 27 {
        spec_key(1922, 696, 2088, 870, 4, 2) // O
    } else if i == 28 {
        spec_key(2110, 696, 2280, 870, 3, 3) // P
    } else if i == 29 {
        spec_key(2302, 696, 2474, 870, 3, 2) // ¨ ^
    } else if i == 30 {
        spec_key(2492, 696, 2664, 870, 2, 1) // < *
    } else if i == 31 {
        spec_key(2684, 696, 2948, 879, 2, 2) // RETURN (haut)
    } else if i == 32 {
        spec_key(2968, 696, 3142, 870, 2, 4) // f4
    } else if i == 33 {
        spec_key(3160, 696, 3334, 870, 1, 4) // f5
    } else if i == 34 {
        spec_key(3354, 696, 3522, 870, 0, 4) // f6
    } else if i == 35 {
        spec_key(92, 888, 410, 1060, 8, 6) // CAPS LOCK
    } else if i == 36 {
        spec_key(432, 888, 602, 1060, 8, 5) // Q
    } else if i == 37 {
        spec_key(626, 888, 798, 1060, 7, 4) // S
    } else if i == 38 {
        spec_key(818, 888, 986, 1060, 7, 5) // D
    } else if i == 39 {
        spec_key(1010, 888, 1178, 1060, 6, 5) // F
    } else if i == 40 {
        spec_key(1202, 888, 1370, 1060, 6, 4) // G
    } else if i == 41 {
        spec_key(1396, 888, 1562, 1060, 5, 4) // H
    } else if i == 42 {
        spec_key(1586, 888, 1750, 1060, 5, 5) // J
    } else if i == 43 {
        spec_key(1778, 888, 1940, 1060, 4, 5) // K
    } else if i == 44 {
        spec_key(1966, 888, 2134, 1060, 4, 4) // L
    } else if i == 45 {
        spec_key(2158, 888, 2330, 1060, 3, 5) // M
    } else if i == 46 {
        spec_key(2348, 888, 2524, 1060, 3, 4) // % ù
    } else if i == 47 {
        spec_key(2544, 888, 2720, 1060, 2, 3) // > #
    } else if i == 48 {
        spec_key(2740, 879, 2938, 1060, 2, 2) // RETURN (bas)
    } else if i == 49 {
        spec_key(2970, 888, 3138, 1060, 1, 5) // f1
    } else if i == 50 {
        spec_key(3160, 888, 3334, 1060, 1, 6) // f2
    } else if i == 51 {
        spec_key(3352, 888, 3524, 1060, 0, 5) // f3
    } else if i == 52 {
        spec_key(92, 1080, 500, 1252, 2, 5) // SHIFT (gauche)
    } else if i == 53 {
        spec_key(524, 1080, 696, 1252, 8, 7) // W
    } else if i == 54 {
        spec_key(718, 1080, 890, 1252, 7, 7) // X
    } else if i == 55 {
        spec_key(912, 1080, 1082, 1252, 7, 6) // C
    } else if i == 56 {
        spec_key(1104, 1080, 1274, 1252, 6, 7) // V
    } else if i == 57 {
        spec_key(1296, 1080, 1464, 1252, 6, 6) // B
    } else if i == 58 {
        spec_key(1486, 1080, 1654, 1252, 5, 6) // N
    } else if i == 59 {
        spec_key(1680, 1080, 1844, 1252, 4, 6) // ? ,
    } else if i == 60 {
        spec_key(1868, 1080, 2034, 1252, 4, 7) // : ;
    } else if i == 61 {
        spec_key(2058, 1080, 2224, 1252, 3, 7) // / :
    } else if i == 62 {
        spec_key(2248, 1080, 2420, 1252, 3, 6) // + =
    } else if i == 63 {
        spec_key(2438, 1080, 2608, 1252, 2, 6) // @ $
    } else if i == 64 {
        spec_key(2632, 1080, 2950, 1252, 2, 5) // SHIFT (droite)
    } else if i == 65 {
        spec_key(2966, 1080, 3142, 1252, 1, 7) // f0
    } else if i == 66 {
        spec_key(3160, 1080, 3334, 1252, 0, 0) // ↑
    } else if i == 67 {
        spec_key(3352, 1080, 3520, 1252, 0, 7) // ·
    } else if i == 68 {
        spec_key(92, 1272, 498, 1442, 2, 7) // CONTROL
    } else if i == 69 {
        spec_key(520, 1272, 844, 1442, 1, 1) // COPY
    } else if i == 70 {
        spec_key(862, 1272, 2366, 1442, 5, 7) // SPACE
    } else if i == 71 {
        spec_key(2392, 1272, 2948, 1442, 0, 6) // ENTER
    } else if i == 72 {
        spec_key(2968, 1272, 3142, 1442, 1, 0) // ←
    } else if i == 73 {
        spec_key(3162, 1272, 3334, 1442, 0, 2) // ↓
    } else if i == 74 {
        spec_key(3354, 1272, 3522, 1442, 0, 1) // →
    } else {
        spec_key(0, 0, 0, 0, 0, 0)
    }
}

pub open spec fn spec_virtual_keys() -> Seq<VirtualKey> {
    Seq::new(75, |i: int| key_at(i))
}

/// The key areas of the keyboard picture.
pub fn virtual_keys() -> (keys: Vec<VirtualKey>)
    ensures
        keys@ == spec_virtual_keys(),
{
    let mut keys: Vec<VirtualKey> = Vec::with_capacity(75);
    keys.push(k(94, 502, 272, 674, 8, 2)); // ESC
    keys.push(k(288, 502, 466, 674, 8, 0)); // 1 &
    keys.push(k(480, 502, 658, 674, 8, 1)); // 2 é
    keys.push(k(670, 502, 850, 674, 7, 1)); // 3 "
    keys.push(k(864, 502, 1040, 674, 7, 0)); // 4 '
    keys.push(k(1054, 502, 1234, 674, 6, 1)); // 5 (
    keys.push(k(1248, 502, 1424, 674, 6, 0)); // 6 ]
    keys.push(k(1436, 502, 1614, 674, 5, 1)); // 7 è
    keys.push(k(1628, 502, 1806, 674, 5, 0)); // 8 !
    keys.push(k(1820, 502, 1996, 674, 4, 1)); // 9 ç
    keys.push(k(2010, 502, 2184, 674, 4, 0)); // 0 à
    keys.push(k(2198, 502, 2374, 674, 3, 1)); // [ )
    keys.push(k(2388, 502, 2566, 674, 3, 0)); // - _
    keys.push(k(2580, 502, 2756, 674, 2, 0)); // CLR
    keys.push(k(2770, 502, 2948, 674, 9, 7)); // DEL
    keys.push(k(2962, 502, 3142, 674, 1, 2)); // f7
    keys.push(k(3156, 502, 3334, 674, 1, 3)); // f8
    keys.push(k(3348, 502, 3524, 674, 0, 3)); // f9
    keys.push(k(96, 696, 358, 870, 8, 4)); // TAB
    keys.push(k(384, 696, 552, 870, 8, 3)); // A
    keys.push(k(576, 696, 748, 870, 7, 3)); // Z
    keys.push(k(772, 696, 942, 870, 7, 2)); // E
    keys.push(k(966, 696, 1134, 870, 6, 2)); // R
    keys.push(k(1160, 696, 1326, 870, 6, 3)); // T
    keys.push(k(1350, 696, 1518, 870, 5, 3)); // Y
    keys.push(k(1540, 696, 1706, 870, 5, 2)); // U
    keys.push(k(1732, 696, 1900, 870, 4, 3)); // I
    keys.push(k(1922, 696, 2088, 870, 4, 2)); // O
    keys.push(k(2110, 696, 2280, 870, 3, 3)); // P
    keys.push(k(2302, 696, 2474, 870, 3, 2)); // ¨ ^
    keys.push(k(2492, 696, 2664, 870, 2, 1)); // < *
    keys.push(k(2684, 696, 2948, 879, 2, 2)); // RETURN (haut)
    keys.push(k(2968, 696, 3142, 870, 2, 4)); // f4
    keys.push(k(3160, 696, 3334, 870, 1, 4)); // f5
    keys.push(k(3354, 696, 3522, 870, 0, 4)); // f6
    keys.push(k(92, 888, 410, 1060, 8, 6)); // CAPS LOCK
    keys.push(k(432, 888, 602, 1060, 8, 5)); // Q
    keys.push(k(626, 888, 798, 1060, 7, 4)); // S
    keys.push(k(818, 888, 986, 1060, 7, 5)); // D
    keys.push(k(1010, 888, 1178, 1060, 6, 5)); // F
    keys.push(k(1202, 888, 1370, 1060, 6, 4)); // G
    keys.push(k(1396, 888, 1562, 1060, 5, 4)); // H
    keys.push(k(1586, 888, 1750, 1060, 5, 5)); // J
    keys.push(k(1778, 888, 1940, 1060, 4, 5)); // K
    keys.push(k(1966, 888, 2134, 1060, 4, 4)); // L
    keys.push(k(2158, 888, 2330, 1060, 3, 5)); // M
    keys.push(k(2348, 888, 2524, 1060, 3, 4)); // % ù
    keys.push(k(2544, 888, 2720, 1060, 2, 3)); // > #
    keys.push(k(2740, 879, 2938, 1060, 2, 2)); // RETURN (bas)
    keys.push(k(2970, 888, 3138, 1060, 1, 5)); // f1
    keys.push(k(3160, 888, 3334, 1060, 1, 6)); // f2
    keys.push(k(3352, 888, 3524, 1060, 0, 5)); // f3
    keys.push(k(92, 1080, 500, 1252, 2, 5)); // SHIFT (gauche)
    keys.push(k(524, 1080, 696, 1252, 8, 7)); // W
    keys.push(k(718, 1080, 890, 1252, 7, 7)); // X
    keys.push(k(912, 1080, 1082, 1252, 7, 6)); // C
    keys.push(k(1104, 1080, 1274, 1252, 6, 7)); // V
    keys.push(k(1296, 1080, 1464, 1252, 6, 6)); // B
    keys.push(k(1486, 1080, 1654, 1252, 5, 6)); // N
    keys.push(k(1680, 1080, 1844, 1252, 4, 6)); // ? ,
    keys.push(k(1868, 1080, 2034, 1252, 4, 7)); // : ;
    keys.push(k(2058, 1080, 2224, 1252, 3, 7)); // / :
    keys.push(k(2248, 1080, 2420, 1252, 3, 6)); // + =
    keys.push(k(2438, 1080, 2608, 1252, 2, 6)); // @ $
    keys.push(k(2632, 1080, 2950, 1252, 2, 5)); // SHIFT (droite)
    keys.push(k(2966, 1080, 3142, 1252, 1, 7)); // f0
    keys.push(k(3160, 1080, 3334, 1252, 0, 0)); // ↑
    keys.push(k(3352, 1080, 3520, 1252, 0, 7)); // ·
    keys.push(k(92, 1272, 498, 1442, 2, 7)); // CONTROL
    keys.push(k(520, 1272, 844, 1442, 1, 1)); // COPY
    keys.push(k(862, 1272, 2366, 1442, 5, 7)); // SPACE
    keys.push(k(2392, 1272, 2948, 1442, 0, 6)); // ENTER
    keys.push(k(2968, 1272, 3142, 1442, 1, 0)); // ←
    keys.push(k(3162, 1272, 3334, 1442, 0, 2)); // ↓
    keys.push(k(3354, 1272, 3522, 1442, 0, 1)); // →
    assert(keys@ =~= spec_virtual_keys());
    keys
}

/// An area lies inside the source picture and is not empty.
pub open spec fn rect_within_picture(r: KeyRect) -> bool {
    &&& r.x0 < r.x1 <= IMAGE_WIDTH_HALF_PX
    &&& r.y0 < r.y1 <= IMAGE_HEIGHT_HALF_PX
}

/// Two areas meet (edges included), as the UI's hit test sees it.
pub open spec fn rects_meet(a: KeyRect, b: KeyRect) -> bool {
    &&& a.x0 <= b.x1
    &&& b.x0 <= a.x1
    &&& a.y0 <= b.y1
    &&& b.y0 <= a.y1
}

/// Every key presses a position that exists in the keyboard matrix.
pub proof fn every_position_fits_the_matrix()
    ensures
        forall|i: int|
            0 <= i < key_count() ==> (#[trigger] key_at(i)).position.0 < MATRIX_LINES
                && key_at(i).position.1 < MATRIX_BITS,
{
}

/// Every key area lies within the source picture and has a positive area.
pub proof fn every_key_area_lies_within_the_picture()
    ensures
        forall|i: int| 0 <= i < key_count() ==> rect_within_picture(#[trigger] key_at(i).rect),
{
}

/// Areas of different keys never meet, so a click always reaches the key
/// under the pointer.
#[verifier::rlimit(100)]
pub proof fn areas_of_different_keys_never_meet()
    ensures
        forall|i: int, j: int|
            0 <= i < j < key_count() && (#[trigger] key_at(i)).position != (#[trigger] key_at(j)).position
                ==> !rects_meet(key_at(i).rect, key_at(j).rect),
{
}

/// Only SHIFT (one area on each side of the keyboard) and RETURN (one
/// L-shaped key over two rows) have two areas; every other key has one, and
/// none has three.
#[verifier::rlimit(100)]
pub proof fn only_shift_and_return_have_two_areas()
    ensures
        forall|i: int, j: int|
            0 <= i < j < key_count() && (#[trigger] key_at(i)).position == (#[trigger] key_at(j)).position
                ==> key_at(i).position == SHIFT || key_at(i).position == RETURN,
        forall|i: int, j: int, m: int|
            0 <= i < j < m < key_count() ==> !((#[trigger] key_at(i)).position == (#[trigger] key_at(
                j,
            )).position && key_at(j).position == (#[trigger] key_at(m)).position),
        key_at(52).position == SHIFT && key_at(64).position == SHIFT,
        key_at(31).position == RETURN && key_at(48).position == RETURN,
{
}

/// The key the keyboard picture shows in an area whose top left corner is
/// `(x0, y0)` (half pixels): the bottom right corner of that area and the
/// matrix position the key has on the machine, listed by matrix line and
/// bit. `None` where no key area starts.
pub open spec fn key_drawn_at(x0: u32, y0: u32) -> Option<(u32, u32, Position)> {
    match (x0, y0) {
        // matrix line 0
        (3160, 1080) => Some((3334, 1252, (0, 0))), // ↑
        (3354, 1272) => Some((3522, 1442, (0, 1))), // →
        (3162, 1272) => Some((3334, 1442, (0, 2))), // ↓
        (3348, 502) => Some((3524, 674, (0, 3))), // f9
        (3354, 696) => Some((3522, 870, (0, 4))), // f6
        (3352, 888) => Some((3524, 1060, (0, 5))), // f3
        (2392, 1272) => Some((2948, 1442, (0, 6))), // ENTER
        (3352, 1080) => Some((3520, 1252, (0, 7))), // ·
        // matrix line 1
        (2968, 1272) => Some((3142, 1442, (1, 0))), // ←
        (520, 1272) => Some((844, 1442, (1, 1))), // COPY
        (2962, 502) => Some((3142, 674, (1, 2))), // f7
        (3156, 502) => Some((3334, 674, (1, 3))), // f8
        (3160, 696) => Some((3334, 870, (1, 4))), // f5
        (2970, 888) => Some((3138, 1060, (1, 5))), // f1
        (3160, 888) => Some((3334, 1060, (1, 6))), // f2
        (2966, 1080) => Some((3142, 1252, (1, 7))), // f0
        // matrix line 2
        (2580, 502) => Some((2756, 674, (2, 0))), // CLR
        (2492, 696) => Some((2664, 870, (2, 1))), // < *
        (2684, 696) => Some((2948, 879, (2, 2))), // RETURN (upper)
        (2740, 879) => Some((2938, 1060, (2, 2))), // RETURN (lower)
        (2544, 888) => Some((2720, 1060, (2, 3))), // > #
        (2968, 696) => Some((3142, 870, (2, 4))), // f4
        (92, 1080) => Some((500, 1252, (2, 5))), // SHIFT (left)
        (2632, 1080) => Some((2950, 1252, (2, 5))), // SHIFT (right)
        (2438, 1080) => Some((2608, 1252, (2, 6))), // @ $
        (92, 1272) => Some((498, 1442, (2, 7))), // CONTROL
        // matrix line 3
        (2388, 502) => Some((2566, 674, (3, 0))), // - _
        (2198, 502) => Some((2374, 674, (3, 1))), // [ )
        (2302, 696) => Some((2474, 870, (3, 2))), // ¨ ^
        (2110, 696) => Some((2280, 870, (3, 3))), // P
        (2348, 888) => Some((2524, 1060, (3, 4))), // % ù
        (2158, 888) => Some((2330, 1060, (3, 5))), // M
        (2248, 1080) => Some((2420, 1252, (3, 6))), // + =
        (2058, 1080) => Some((2224, 1252, (3, 7))), // / :
        // matrix line 4
        (2010, 502) => Some((2184, 674, (4, 0))), // 0 à
        (1820, 502) => Some((1996, 674, (4, 1))), // 9 ç
        (1922, 696) => Some((2088, 870, (4, 2))), // O
        (1732, 696) => Some((1900, 870, (4, 3))), // I
        (1966, 888) => Some((2134, 1060, (4, 4))), // L
        (1778, 888) => Some((1940, 1060, (4, 5))), // K
        (1680, 1080) => Some((1844, 1252, (4, 6))), // ? ,
        (1868, 1080) => Some((2034, 1252, (4, 7))), // : ;
        // matrix line 5
        (1628, 502) => Some((1806, 674, (5, 0))), // 8 !
        (1436, 502) => Some((1614, 674, (5, 1))), // 7 è
        (1540, 696) => Some((1706, 870, (5, 2))), // U
        (1350, 696) => Some((1518, 870, (5, 3))), // Y
        (1396, 888) => Some((1562, 1060, (5, 4))), // H
        (1586, 888) => Some((1750, 1060, (5, 5))), // J
        (1486, 1080) => Some((1654, 1252, (5, 6))), // N
        (862, 1272) => Some((2366, 1442, (5, 7))), // SPACE
        // matrix line 6
        (1248, 502) => Some((1424, 674, (6, 0))), // 6 ]
        (1054, 502) => Some((1234, 674, (6, 1))), // 5 (
        (966, 696) => Some((1134, 870, (6, 2))), // R
        (1160, 696) => Some((1326, 870, (6, 3))), // T
        (1202, 888) => Some((1370, 1060, (6, 4))), // G
        (1010, 888) => Some((1178, 1060, (6, 5))), // F
        (1296, 1080) => Some((1464, 1252, (6, 6))), // B
        (1104, 1080) => Some((1274, 1252, (6, 7))), // V
        // matrix line 7
        (864, 502) => Some((1040, 674, (7, 0))), // 4 '
        (670, 502) => Some((850, 674, (7, 1))), // 3 "
        (772, 696) => Some((942, 870, (7, 2))), // E
        (576, 696) => Some((748, 870, (7, 3))), // Z
        (626, 888) => Some((798, 1060, (7, 4))), // S
        (818, 888) => Some((986, 1060, (7, 5))), // D
        (912, 1080) => Some((1082, 1252, (7, 6))), // C
        (718, 1080) => Some((890, 1252, (7, 7))), // X
        // matrix line 8
        (288, 502) => Some((466, 674, (8, 0))), // 1 &
        (480, 502) => Some((658, 674, (8, 1))), // 2 é
        (94, 502) => Some((272, 674, (8, 2))), // ESC
        (384, 696) => Some((552, 870, (8, 3))), // A
        (96, 696) => Some((358, 870, (8, 4))), // TAB
        (432, 888) => Some((602, 1060, (8, 5))), // Q
        (92, 888) => Some((410, 1060, (8, 6))), // CAPS LOCK
        (524, 1080) => Some((696, 1252, (8, 7))), // W
        // matrix line 9
        (2770, 502) => Some((2948, 674, (9, 7))), // DEL
        _ => None,
    }
}

/// Each area presses the key drawn on it: every area has the extent and the
/// matrix position of the key the picture shows there, and every key drawn
/// has its area.
#[verifier::rlimit(100)]
pub proof fn every_area_presses_the_key_drawn_there()
    ensures
        forall|i: int|
            0 <= i < key_count() ==> key_drawn_at((#[trigger] key_at(i)).rect.x0, key_at(i).rect.y0)
                == Some((key_at(i).rect.x1, key_at(i).rect.y1, key_at(i).position)),
        forall|x0: u32, y0: u32|
            (#[trigger] key_drawn_at(x0, y0)) is Some ==> exists|i: int|
                0 <= i < key_count() && (#[trigger] key_at(i)).rect.x0 == x0 && key_at(i).rect.y0 == y0,
{
    assert(key_at(0).rect.x0 == 94 && key_at(0).rect.y0 == 502);
    assert(key_at(1).rect.x0 == 288 && key_at(1).rect.y0 == 502);
    assert(key_at(2).rect.x0 == 480 && key_at(2).rect.y0 == 502);
    assert(key_at(3).rect.x0 == 670 && key_at(3).rect.y0 == 502);
    assert(key_at(4).rect.x0 == 864 && key_at(4).rect.y0 == 502);
    assert(key_at(5).rect.x0 == 1054 && key_at(5).rect.y0 == 502);
    assert(key_at(6).rect.x0 == 1248 && key_at(6).rect.y0 == 502);
    assert(key_at(7).rect.x0 == 1436 && key_at(7).rect.y0 == 502);
    assert(key_at(8).rect.x0 == 1628 && key_at(8).rect.y0 == 502);
    assert(key_at(9).rect.x0 == 1820 && key_at(9).rect.y0 == 502);
    assert(key_at(10).rect.x0 == 2010 && key_at(10).rect.y0 == 502);
    assert(key_at(11).rect.x0 == 2198 && key_at(11).rect.y0 == 502);
    assert(key_at(12).rect.x0 == 2388 && key_at(12).rect.y0 == 502);
    assert(key_at(13).rect.x0 == 2580 && key_at(13).rect.y0 == 502);
    assert(key_at(14).rect.x0 == 2770 && key_at(14).rect.y0 == 502);
    assert(key_at(15).rect.x0 == 2962 && key_at(15).rect.y0 == 502);
    assert(key_at(16).rect.x0 == 3156 && key_at(16).rect.y0 == 502);
    assert(key_at(17).rect.x0 == 3348 && key_at(17).rect.y0 == 502);
    assert(key_at(18).rect.x0 == 96 && key_at(18).rect.y0 == 696);
    assert(key_at(19).rect.x0 == 384 && key_at(19).rect.y0 == 696);
    assert(key_at(20).rect.x0 == 576 && key_at(20).rect.y0 == 696);
    assert(key_at(21).rect.x0 == 772 && key_at(21).rect.y0 == 696);
    assert(key_at(22).rect.x0 == 966 && key_at(22).rect.y0 == 696);
    assert(key_at(23).rect.x0 == 1160 && key_at(23).rect.y0 == 696);
    assert(key_at(24).rect.x0 == 1350 && key_at(24).rect.y0 == 696);
    assert(key_at(25).rect.x0 == 1540 && key_at(25).rect.y0 == 696);
    assert(key_at(26).rect.x0 == 1732 && key_at(26).rect.y0 == 696);
    assert(key_at(27).rect.x0 == 1922 && key_at(27).rect.y0 == 696);
    assert(key_at(28).rect.x0 == 2110 && key_at(28).rect.y0 == 696);
    assert(key_at(29).rect.x0 == 2302 && key_at(29).rect.y0 == 696);
    assert(key_at(30).rect.x0 == 2492 && key_at(30).rect.y0 == 696);
    assert(key_at(31).rect.x0 == 2684 && key_at(31).rect.y0 == 696);
    assert(key_at(32).rect.x0 == 2968 && key_at(32).rect.y0 == 696);
    assert(key_at(33).rect.x0 == 3160 && key_at(33).rect.y0 == 696);
    assert(key_at(34).rect.x0 == 3354 && key_at(34).rect.y0 == 696);
    assert(key_at(35).rect.x0 == 92 && key_at(35).rect.y0 == 888);
    assert(key_at(36).rect.x0 == 432 && key_at(36).rect.y0 == 888);
    assert(key_at(37).rect.x0 == 626 && key_at(37).rect.y0 == 888);
    assert(key_at(38).rect.x0 == 818 && key_at(38).rect.y0 == 888);
    assert(key_at(39).rect.x0 == 1010 && key_at(39).rect.y0 == 888);
    assert(key_at(40).rect.x0 == 1202 && key_at(40).rect.y0 == 888);
    assert(key_at(41).rect.x0 == 1396 && key_at(41).rect.y0 == 888);
    assert(key_at(42).rect.x0 == 1586 && key_at(42).rect.y0 == 888);
    assert(key_at(43).rect.x0 == 1778 && key_at(43).rect.y0 == 888);
    assert(key_at(44).rect.x0 == 1966 && key_at(44).rect.y0 == 888);
    assert(key_at(45).rect.x0 == 2158 && key_at(45).rect.y0 == 888);
    assert(key_at(46).rect.x0 == 2348 && key_at(46).rect.y0 == 888);
    assert(key_at(47).rect.x0 == 2544 && key_at(47).rect.y0 == 888);
    assert(key_at(48).rect.x0 == 2740 && key_at(48).rect.y0 == 879);
    assert(key_at(49).rect.x0 == 2970 && key_at(49).rect.y0 == 888);
    assert(key_at(50).rect.x0 == 3160 && key_at(50).rect.y0 == 888);
    assert(key_at(51).rect.x0 == 3352 && key_at(51).rect.y0 == 888);
    assert(key_at(52).rect.x0 == 92 && key_at(52).rect.y0 == 1080);
    assert(key_at(53).rect.x0 == 524 && key_at(53).rect.y0 == 1080);
    assert(key_at(54).rect.x0 == 718 && key_at(54).rect.y0 == 1080);
    assert(key_at(55).rect.x0 == 912 && key_at(55).rect.y0 == 1080);
    assert(key_at(56).rect.x0 == 1104 && key_at(56).rect.y0 == 1080);
    assert(key_at(57).rect.x0 == 1296 && key_at(57).rect.y0 == 1080);
    assert(key_at(58).rect.x0 == 1486 && key_at(58).rect.y0 == 1080);
    assert(key_at(59).rect.x0 == 1680 && key_at(59).rect.y0 == 1080);
    assert(key_at(60).rect.x0 == 1868 && key_at(60).rect.y0 == 1080);
    assert(key_at(61).rect.x0 == 2058 && key_at(61).rect.y0 == 1080);
    assert(key_at(62).rect.x0 == 2248 && key_at(62).rect.y0 == 1080);
    assert(key_at(63).rect.x0 == 2438 && key_at(63).rect.y0 == 1080);
    assert(key_at(64).rect.x0 == 2632 && key_at(64).rect.y0 == 1080);
    assert(key_at(65).rect.x0 == 2966 && key_at(65).rect.y0 == 1080);
    assert(key_at(66).rect.x0 == 3160 && key_at(66).rect.y0 == 1080);
    assert(key_at(67).rect.x0 == 3352 && key_at(67).rect.y0 == 1080);
    assert(key_at(68).rect.x0 == 92 && key_at(68).rect.y0 == 1272);
    assert(key_at(69).rect.x0 == 520 && key_at(69).rect.y0 == 1272);
    assert(key_at(70).rect.x0 == 862 && key_at(70).rect.y0 == 1272);
    assert(key_at(71).rect.x0 == 2392 && key_at(71).rect.y0 == 1272);
    assert(key_at(72).rect.x0 == 2968 && key_at(72).rect.y0 == 1272);
    assert(key_at(73).rect.x0 == 3162 && key_at(73).rect.y0 == 1272);
    assert(key_at(74).rect.x0 == 3354 && key_at(74).rect.y0 == 1272);
}

/// The eight corners of the outline of two areas stacked one on the other
/// and touching (`top.y1 == bottom.y0`), as RETURN is drawn: clockwise from
/// the top left corner, following the actual widths of both parts.
pub open spec fn spec_l_shape_outline(top: KeyRect, bottom: KeyRect) -> Seq<(u32, u32)> {
    seq![
        (top.x0, top.y0),
        (top.x1, top.y0),
        (top.x1, top.y1),
        (bottom.x1, top.y1),
        (bottom.x1, bottom.y1),
        (bottom.x0, bottom.y1),
        (bottom.x0, top.y1),
        (top.x0, top.y1),
    ]
}

/// The outline of RETURN's L shape, from its upper and lower areas.
pub fn l_shape_outline(top: KeyRect, bottom: KeyRect) -> (outline: Vec<(u32, u32)>)
    ensures
        outline@ == spec_l_shape_outline(top, bottom),
{
    let outline = vec![
        (top.x0, top.y0),
        (top.x1, top.y0),
        (top.x1, top.y1),
        (bottom.x1, top.y1),
        (bottom.x1, bottom.y1),
        (bottom.x0, bottom.y1),
        (bottom.x0, top.y1),
        (top.x0, top.y1),
    ];
    assert(outline@ =~= spec_l_shape_outline(top, bottom));
    outline
}

/// What the built-in PNG decoder of the `image` crate
/// (`image::load_from_memory_with_format(png, ImageFormat::Png)`, which
/// never consults the crate's format-detection or decoding hooks) followed
/// by `into_rgba8` gives: width, height and RGBA bytes of the decoded
/// picture, or nothing when the bytes cannot be decoded as PNG.
pub uninterp spec fn decoded_rgba8(png: Seq<u8>) -> Option<(u32, u32, Seq<u8>)>;

/// Decodes a PNG picture into 8-bit RGBA with the built-in PNG decoder
/// (`image::load_from_memory_with_format` with `ImageFormat::Png`, then
/// `DynamicImage::into_rgba8`). Its contract claims only that the outcome is
/// the one `decoded_rgba8` names for these bytes; the error is the decoder's
/// message.
#[verifier::external_body]
fn decode_rgba8(png: &[u8]) -> (r: Result<(u32, u32, Vec<u8>), String>)
    ensures
        match r {
            Ok((w, h, px)) => decoded_rgba8(png@) == Some((w, h, px@)),
            Err(_) => decoded_rgba8(png@) is None,
        },
{
    match image::load_from_memory_with_format(png, image::ImageFormat::Png) {
        Ok(img) => {
            let img = img.into_rgba8();
            Ok((img.width(), img.height(), img.into_raw()))
        },
        Err(e) => Err(e.to_string()),
    }
}

/// The keyboard picture, ready to be turned into a texture: its size in
/// pixels (width, height) and its RGBA bytes.
pub struct KeyboardImage {
    pub size: [usize; 2],
    pub rgba: Vec<u8>,
}

impl KeyboardImage {
    /// The texture description of a decoded picture.
    pub fn from_decoded(width: u32, height: u32, rgba: Vec<u8>) -> (img: Self)
        ensures
            img.size[0] == width as usize,
            img.size[1] == height as usize,
            img.rgba@ == rgba@,
    {
        KeyboardImage { size: [width as usize, height as usize], rgba }
    }
}

/// Decodes the keyboard picture (PNG bytes); the error says why it could
/// not be decoded as PNG.
pub fn load_keyboard_image(png: &[u8]) -> (r: Result<KeyboardImage, String>)
    ensures
        match r {
            Ok(img) => decoded_rgba8(png@) matches Some((w, h, px)) && img.size[0] == w as usize
                && img.size[1] == h as usize && img.rgba@ == px,
            Err(_) => decoded_rgba8(png@) is None,
        },
{
    match decode_rgba8(png) {
        Ok((w, h, px)) => Ok(KeyboardImage::from_decoded(w, h, px)),
        Err(e) => Err(e),
    }
}

/// What the pointer did to one key area during a frame.
#[derive(Clone, Copy, PartialEq, Eq, Debug, Structural)]
pub struct KeyInput {
    /// The area was clicked (pressed and released on it).
    pub clicked: bool,
    /// The mouse button is held down on the area.
    pub held: bool,
}

/// SHIFT and CONTROL: set by a click, released by the next other key.
pub open spec fn is_latch(p: Position) -> bool {
    p == SHIFT || p == CONTROL
}

/// A key that is down exactly while the mouse button is held on it.
pub open spec fn is_momentary(p: Position) -> bool {
    p != CAPS_LOCK && !is_latch(p)
}

/// Clicks on areas of position `p` among the first `n` areas.
pub open spec fn clicks_upto(keys: Seq<VirtualKey>, input: Seq<KeyInput>, p: Position, n: int) -> nat
    decreases n,
{
    if n <= 0 {
        0
    } else {
        clicks_upto(keys, input, p, n - 1) + if keys[n - 1].position == p && input[n - 1].clicked {
            1nat
        } else {
            0nat
        }
    }
}

/// A switch flipped once per click.
pub open spec fn toggled(b: bool, clicks: nat) -> bool {
    if clicks % 2 == 0 {
        b
    } else {
        !b
    }
}

/// A non-modifier key was clicked among the first `n` areas.
pub open spec fn release_upto(keys: Seq<VirtualKey>, input: Seq<KeyInput>, n: int) -> bool {
    exists|k: int| 0 <= k < n && is_momentary(keys[k].position) && #[trigger] input[k].clicked
}

/// The latched positions, given the state of SHIFT and CONTROL.
pub open spec fn latched_in(shift: bool, control: bool, p: Position) -> bool {
    (p == SHIFT && shift) || (p == CONTROL && control)
}

/// The positions down after looking at the first `n` areas: the latches as
/// they were at the start of the frame, CAPS LOCK if it was clicked, and the
/// keys held.
pub open spec fn active_upto(
    shift: bool,
    control: bool,
    keys: Seq<VirtualKey>,
    input: Seq<KeyInput>,
    n: int,
) -> Set<Position> {
    Set::new(
        |p: Position|
            latched_in(shift, control, p) || (p == CAPS_LOCK && clicks_upto(keys, input, CAPS_LOCK, n)
                > 0) || (is_momentary(p) && exists|k: int|
                0 <= k < n && keys[k].position == p && #[trigger] input[k].held),
    )
}

/// The positions down for the whole frame: as above, less the latches when
/// another key was clicked.
pub open spec fn frame_active(
    shift: bool,
    control: bool,
    keys: Seq<VirtualKey>,
    input: Seq<KeyInput>,
) -> Set<Position> {
    let all = active_upto(shift, control, keys, input, keys.len() as int);
    if release_upto(keys, input, keys.len() as int) {
        all.remove(SHIFT).remove(CONTROL)
    } else {
        all
    }
}

/// Whether area `i` is drawn as pressed: CAPS LOCK by its display state,
/// a latch by its state, each just after the area was looked at; any other
/// key while it is held.
pub open spec fn pressed_at(
    shift: bool,
    control: bool,
    caps: bool,
    keys: Seq<VirtualKey>,
    input: Seq<KeyInput>,
    i: int,
) -> bool {
    let p = keys[i].position;
    if p == CAPS_LOCK {
        toggled(caps, clicks_upto(keys, input, CAPS_LOCK, i + 1))
    } else if p == SHIFT {
        toggled(shift, clicks_upto(keys, input, SHIFT, i + 1))
    } else if p == CONTROL {
        toggled(control, clicks_upto(keys, input, CONTROL, i + 1))
    } else {
        input[i].held
    }
}

fn same_position(a: Position, b: Position) -> (r: bool)
    ensures
        r == (a == b),
{
    a.0 == b.0 && a.1 == b.1
}

fn insert_unique(v: &mut Vec<Position>, p: Position)
    requires
        old(v)@.no_duplicates(),
    ensures
        final(v)@.no_duplicates(),
        final(v)@.to_set() == old(v)@.to_set().insert(p),
{
    let n = v.len();
    for k in 0..n
        invariant
            n == v@.len(),
            v@ == old(v)@,
            v@.no_duplicates(),
            forall|m: int| 0 <= m < k ==> v@[m] != p,
    {
        if same_position(v[k], p) {
            assert(v@[k as int] == p);
            assert(v@.to_set().contains(p));
            assert(v@.to_set().insert(p) =~= v@.to_set());
            return;
        }
    }
    let ghost before = v@;
    v.push(p);
    proof {
        before.lemma_push_to_set_commute(p);
        assert forall|a: int, b: int| 0 <= a < b < v@.len() implies v@[a] != v@[b] by {
            if b == before.len() {
                assert(v@[a] == before[a]);
            } else {
                assert(v@[a] == before[a] && v@[b] == before[b]);
            }
        }
    }
}

fn without(v: &Vec<Position>, p: Position) -> (r: Vec<Position>)
    requires
        v@.no_duplicates(),
    ensures
        r@.no_duplicates(),
        r@.to_set() == v@.to_set().remove(p),
{
    let mut r: Vec<Position> = Vec::new();
    let n = v.len();
    for k in 0..n
        invariant
            n == v@.len(),
            v@.no_duplicates(),
            r@.no_duplicates(),
            forall|x: Position| #[trigger] r@.contains(x) <==> (x != p && v@.subrange(0, k as int).contains(x)),
    {
        let ghost before = r@;
        let ghost pre = v@.subrange(0, k as int);
        let ghost post = v@.subrange(0, k + 1);
        assert(post =~= pre.push(v@[k as int]));
        proof {
            assert forall|x: Position| #[trigger] post.contains(x) <==> (pre.contains(x) || x == v@[k as int]) by {
                if post.contains(x) {
                    let j = choose|j: int| 0 <= j < post.len() && post[j] == x;
                    if j < k {
                        assert(pre[j] == x);
                    }
                }
                if pre.contains(x) {
                    let j = choose|j: int| 0 <= j < pre.len() && pre[j] == x;
                    assert(post[j] == x);
                }
                if x == v@[k as int] {
                    assert(post[k as int] == x);
                }
            }
        }
        if !same_position(v[k], p) {
            r.push(v[k]);
            proof {
                let e = v@[k as int];
                assert(!before.contains(e)) by {
                    if before.contains(e) {
                        assert(pre.contains(e));
                        let j = choose|j: int| 0 <= j < pre.len() && pre[j] == e;
                        assert(v@[j] == v@[k as int]);
                    }
                }
                assert forall|a: int, b: int| 0 <= a < b < r@.len() implies r@[a] != r@[b] by {
                    if b == before.len() {
                        assert(r@[a] == before[a]);
                        assert(before.contains(r@[a]));
                    } else {
                        assert(r@[a] == before[a] && r@[b] == before[b]);
                    }
                }
                assert forall|x: Position| #[trigger] r@.contains(x) <==> (before.contains(x) || x == e) by {
                    if r@.contains(x) {
                        let j = choose|j: int| 0 <= j < r@.len() && r@[j] == x;
                        if j < before.len() {
                            assert(before[j] == x);
                        }
                    }
                    if before.contains(x) {
                        let j = choose|j: int| 0 <= j < before.len() && before[j] == x;
                        assert(r@[j] == x);
                    }
                    if x == e {
                        assert(r@[before.len() as int] == x);
                    }
                }
            }
        }
    }
    assert(v@.subrange(0, n as int) =~= v@);
    assert(r@.to_set() =~= v@.to_set().remove(p));
    r
}

/// What a frame of the keyboard gives: the positions to hold down in the
/// matrix this frame (each once), and, area by area, whether it is drawn
/// as pressed.
pub struct KeyboardFrame {
    pub active: Vec<Position>,
    pub pressed: Vec<bool>,
}

/// Some area of the same key as area `i` has its flag set.
pub open spec fn lit_for(keys: Seq<VirtualKey>, flags: Seq<bool>, i: int) -> bool {
    exists|j: int| 0 <= j < keys.len() && keys[j].position == keys[i].position && #[trigger] flags[j]
}

/// How each area is outlined: pressed if any area of the same key is
/// pressed, hovered if any area of the same key is hovered, so that the two
/// areas of SHIFT or RETURN light up together.
pub fn lit_areas(keys: &[VirtualKey], pressed: &[bool], hovered: &[bool]) -> (lit: Vec<(bool, bool)>)
    requires
        pressed@.len() == keys@.len(),
        hovered@.len() == keys@.len(),
    ensures
        lit@.len() == keys@.len(),
        forall|i: int|
            0 <= i < keys@.len() ==> #[trigger] lit@[i] == (lit_for(keys@, pressed@, i), lit_for(
                keys@,
                hovered@,
                i,
            )),
{
    let n = keys.len();
    let mut lit: Vec<(bool, bool)> = Vec::with_capacity(n);
    for i in 0..n
        invariant
            n == keys@.len(),
            pressed@.len() == n,
            hovered@.len() == n,
            lit@.len() == i,
            forall|k: int|
                0 <= k < i ==> #[trigger] lit@[k] == (lit_for(keys@, pressed@, k), lit_for(
                    keys@,
                    hovered@,
                    k,
                )),
    {
        let mut any_pressed = false;
        let mut any_hovered = false;
        for j in 0..n
            invariant
                n == keys@.len(),
                pressed@.len() == n,
                hovered@.len() == n,
                i < n,
                any_pressed == exists|m: int|
                    0 <= m < j && keys@[m].position == keys@[i as int].position && #[trigger] pressed@[m],
                any_hovered == exists|m: int|
                    0 <= m < j && keys@[m].position == keys@[i as int].position && #[trigger] hovered@[m],
        {
            if same_position(keys[j].position, keys[i].position) {
                if pressed[j] {
                    any_pressed = true;
                }
                if hovered[j] {
                    any_hovered = true;
                }
            }
        }
        lit.push((any_pressed, any_hovered));
    }
    lit
}

/// CAPS LOCK is a pulse, not a latch: it is down in the matrix during a
/// frame exactly when it was clicked during that frame, whatever its
/// display state.
pub proof fn caps_lock_is_a_one_frame_pulse(
    shift: bool,
    control: bool,
    keys: Seq<VirtualKey>,
    input: Seq<KeyInput>,
)
    ensures
        frame_active(shift, control, keys, input).contains(CAPS_LOCK) <==> clicks_upto(
            keys,
            input,
            CAPS_LOCK,
            keys.len() as int,
        ) > 0,
{
}

/// A key held under the pointer is down for the frame, unless it is a
/// modifier: SHIFT and CONTROL go by their latches, CAPS LOCK by clicks.
pub proof fn a_held_key_is_down(
    shift: bool,
    control: bool,
    keys: Seq<VirtualKey>,
    input: Seq<KeyInput>,
    i: int,
)
    requires
        0 <= i < keys.len(),
        keys.len() == input.len(),
        input[i].held,
        is_momentary(keys[i].position),
    ensures
        frame_active(shift, control, keys, input).contains(keys[i].position),
{
    let p = keys[i].position;
    assert(active_upto(shift, control, keys, input, keys.len() as int).contains(p));
}

/// Clicks on the modifiers alone (SHIFT, CONTROL, CAPS LOCK) release no
/// latch: a latch set at the start of the frame stays down for the whole
/// frame, so that CONTROL + CAPS LOCK, say, reaches the machine. Only a
/// click on another key releases them.
pub proof fn modifier_clicks_keep_the_latches(
    shift: bool,
    control: bool,
    keys: Seq<VirtualKey>,
    input: Seq<KeyInput>,
)
    requires
        keys.len() == input.len(),
        forall|k: int|
            0 <= k < keys.len() && #[trigger] input[k].clicked ==> keys[k].position == SHIFT
                || keys[k].position == CONTROL || keys[k].position == CAPS_LOCK,
    ensures
        !release_upto(keys, input, keys.len() as int),
        shift ==> frame_active(shift, control, keys, input).contains(SHIFT),
        control ==> frame_active(shift, control, keys, input).contains(CONTROL),
{
    let all = active_upto(shift, control, keys, input, keys.len() as int);
    if shift {
        assert(all.contains(SHIFT));
    }
    if control {
        assert(all.contains(CONTROL));
    }
}

/// A click on any key other than SHIFT, CONTROL and CAPS LOCK releases
/// both latches: neither SHIFT nor CONTROL is down for that frame, whatever
/// was latched or clicked before.
pub proof fn another_key_click_releases_the_latches(
    shift: bool,
    control: bool,
    keys: Seq<VirtualKey>,
    input: Seq<KeyInput>,
    k: int,
)
    requires
        keys.len() == input.len(),
        0 <= k < keys.len(),
        input[k].clicked,
        keys[k].position != SHIFT,
        keys[k].position != CONTROL,
        keys[k].position != CAPS_LOCK,
    ensures
        release_upto(keys, input, keys.len() as int),
        !frame_active(shift, control, keys, input).contains(SHIFT),
        !frame_active(shift, control, keys, input).contains(CONTROL),
{
    assert(is_momentary(keys[k].position));
}

pub struct KeyboardPanel {
    shift_latched: bool,
    control_latched: bool,
    /// Display-only CAPS LOCK state, toggled on each click: the machine only
    /// ever gets one-frame pulses.
    caps_lock_display: bool,
}

impl KeyboardPanel {
    pub closed spec fn spec_shift(&self) -> bool {
        self.shift_latched
    }

    pub closed spec fn spec_control(&self) -> bool {
        self.control_latched
    }

    pub closed spec fn spec_caps_lock_display(&self) -> bool {
        self.caps_lock_display
    }

    /// The positions latched down.
    pub open spec fn spec_latched(&self) -> Set<Position> {
        Set::new(|p: Position| latched_in(self.spec_shift(), self.spec_control(), p))
    }

    pub fn new() -> (k: Self)
        ensures
            !k.spec_shift(),
            !k.spec_control(),
            !k.spec_caps_lock_display(),
    {
        Self { shift_latched: false, control_latched: false, caps_lock_display: false }
    }

    /// Whether position `p` is latched down.
    pub fn is_latched(&self, p: Position) -> (r: bool)
        ensures
            r == self.spec_latched().contains(p),
    {
        (self.shift_latched && same_position(p, SHIFT)) || (self.control_latched && same_position(
            p,
            CONTROL,
        ))
    }

    pub fn caps_lock_display(&self) -> (r: bool)
        ensures
            r == self.spec_caps_lock_display(),
    {
        self.caps_lock_display
    }

    /// Takes in what the pointer did to each key area this frame
    /// (`input[i]` for `keys[i]`) and gives the positions to hold down this
    /// frame; the panel never touches the machine itself.
    pub fn apply_frame(&mut self, keys: &[VirtualKey], input: &[KeyInput]) -> (frame: KeyboardFrame)
        requires
            keys@.len() == input@.len(),
        ensures
            frame.active@.no_duplicates(),
            frame.active@.to_set() == frame_active(
                old(self).spec_shift(),
                old(self).spec_control(),
                keys@,
                input@,
            ),
            frame.pressed@.len() == keys@.len(),
            forall|i: int|
                0 <= i < keys@.len() ==> #[trigger] frame.pressed@[i] == pressed_at(
                    old(self).spec_shift(),
                    old(self).spec_control(),
                    old(self).spec_caps_lock_display(),
                    keys@,
                    input@,
                    i,
                ),
            final(self).spec_caps_lock_display() == toggled(
                old(self).spec_caps_lock_display(),
                clicks_upto(keys@, input@, CAPS_LOCK, keys@.len() as int),
            ),
            final(self).spec_shift() == (toggled(
                old(self).spec_shift(),
                clicks_upto(keys@, input@, SHIFT, keys@.len() as int),
            ) && !release_upto(keys@, input@, keys@.len() as int)),
            final(self).spec_control() == (toggled(
                old(self).spec_control(),
                clicks_upto(keys@, input@, CONTROL, keys@.len() as int),
            ) && !release_upto(keys@, input@, keys@.len() as int)),
            (forall|k: int|
                0 <= k < keys@.len() && #[trigger] input@[k].clicked ==> keys@[k].position == SHIFT
                    || keys@[k].position == CONTROL || keys@[k].position == CAPS_LOCK) ==> {
                &&& final(self).spec_shift() == toggled(
                    old(self).spec_shift(),
                    clicks_upto(keys@, input@, SHIFT, keys@.len() as int),
                )
                &&& final(self).spec_control() == toggled(
                    old(self).spec_control(),
                    clicks_upto(keys@, input@, CONTROL, keys@.len() as int),
                )
            },
            (exists|k: int|
                0 <= k < keys@.len() && #[trigger] input@[k].clicked && keys@[k].position != SHIFT
                    && keys@[k].position != CONTROL && keys@[k].position != CAPS_LOCK) ==> {
                &&& !final(self).spec_shift()
                &&& !final(self).spec_control()
            },
    {
        let ghost s0 = self.shift_latched;
        let ghost c0 = self.control_latched;
        let ghost caps0 = self.caps_lock_display;
        let mut active: Vec<Position> = Vec::new();
        assert(active@.to_set() =~= Set::<Position>::empty());
        if self.shift_latched {
            insert_unique(&mut active, SHIFT);
        }
        if self.control_latched {
            insert_unique(&mut active, CONTROL);
        }
        assert(active@.to_set() =~= active_upto(s0, c0, keys@, input@, 0));
        let mut pressed: Vec<bool> = Vec::new();
        let mut release = false;
        let n = keys.len();
        for i in 0..n
            invariant
                n == keys@.len(),
                n == input@.len(),
                active@.no_duplicates(),
                active@.to_set() == active_upto(s0, c0, keys@, input@, i as int),
                release == release_upto(keys@, input@, i as int),
                self.caps_lock_display == toggled(caps0, clicks_upto(keys@, input@, CAPS_LOCK, i as int)),
                self.shift_latched == toggled(s0, clicks_upto(keys@, input@, SHIFT, i as int)),
                self.control_latched == toggled(c0, clicks_upto(keys@, input@, CONTROL, i as int)),
                pressed@.len() == i,
                forall|m: int|
                    0 <= m < i ==> #[trigger] pressed@[m] == pressed_at(s0, c0, caps0, keys@, input@, m),
        {
            let key = keys[i];
            let act = input[i];
            let p = key.position;
            let ghost before = active_upto(s0, c0, keys@, input@, i as int);
            let ghost after = active_upto(s0, c0, keys@, input@, i + 1);
            if same_position(p, CAPS_LOCK) {
                if act.clicked {
                    self.caps_lock_display = !self.caps_lock_display;
                    insert_unique(&mut active, CAPS_LOCK);
                    assert(after =~= before.insert(CAPS_LOCK));
                } else {
                    assert(after =~= before);
                }
                pressed.push(self.caps_lock_display);
            } else if same_position(p, SHIFT) {
                if act.clicked {
                    self.shift_latched = !self.shift_latched;
                }
                assert(after =~= before);
                pressed.push(self.shift_latched);
            } else if same_position(p, CONTROL) {
                if act.clicked {
                    self.control_latched = !self.control_latched;
                }
                assert(after =~= before);
                pressed.push(self.control_latched);
            } else {
                if act.clicked {
                    release = true;
                }
                if act.held {
                    insert_unique(&mut active, p);
                    assert(after =~= before.insert(p));
                } else {
                    assert(after =~= before);
                }
                pressed.push(act.held);
            }
        }
        if release {
            self.shift_latched = false;
            self.control_latched = false;
            let a1 = without(&active, SHIFT);
            active = without(&a1, CONTROL);
        }
        KeyboardFrame { active, pressed }
    }
}

} // verus!
