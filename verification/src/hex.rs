//! Axial hexagon coordinates and the hexagon geometry that the game uses.
use vstd::prelude::*;

verus! {

/// Largest absolute coordinate for which the hexagon arithmetic used by the
/// game is free of overflow.
pub const COORD_LIMIT: i32 = 1_000_000;

/// An axial hexagon coordinate (`x`, `y`), with the implicit cubic `z = -x - y`.
#[derive(Clone, Copy, Debug, PartialEq, Eq, Hash, Structural)]
pub struct Hex {
    pub x: i32,
    pub y: i32,
}

/// Absolute value of an integer.
pub open spec fn abs(v: int) -> int {
    if v < 0 { -v } else { v }
}

/// Largest of three integers.
pub open spec fn max3(a: int, b: int, c: int) -> int {
    if a >= b && a >= c { a } else if b >= c { b } else { c }
}

/// Hexagonal distance between two coordinates: the largest absolute difference
/// of the three cubic coordinates.
pub open spec fn hex_distance(a: Hex, b: Hex) -> int {
    let dx = a.x - b.x;
    let dy = a.y - b.y;
    max3(abs(dx), abs(dy), abs(-dx - dy))
}

/// Both coordinates lie within `COORD_LIMIT` of the origin.
pub open spec fn in_bounds(h: Hex) -> bool {
    -COORD_LIMIT <= h.x <= COORD_LIMIT && -COORD_LIMIT <= h.y <= COORD_LIMIT
}

/// The six neighbours of `h`, in the order of hexx's edge directions.
pub open spec fn neighbor_seq(h: Hex) -> Seq<Hex> {
    seq![
        Hex { x: (h.x + 1) as i32, y: h.y },
        Hex { x: h.x, y: (h.y + 1) as i32 },
        Hex { x: (h.x - 1) as i32, y: (h.y + 1) as i32 },
        Hex { x: (h.x - 1) as i32, y: h.y },
        Hex { x: h.x, y: (h.y - 1) as i32 },
        Hex { x: (h.x + 1) as i32, y: (h.y - 1) as i32 },
    ]
}

impl Hex {
    pub fn new(x: i32, y: i32) -> (r: Hex)
        ensures
            r.x == x,
            r.y == y,
    {
        Hex { x, y }
    }
}

/// Calls `hexx::Hex::all_neighbors`. hexx adds its constant neighbour offsets
/// `(1,0) (0,1) (-1,1) (-1,0) (0,-1) (1,-1)` to the coordinate, in that order;
/// the contract states exactly that. The additions overflow (and panic) only at
/// the edges of the `i32` range, which `requires` leaves out.
#[verifier::external_body]
fn hexx_all_neighbors(h: Hex) -> (r: [Hex; 6])
    requires
        i32::MIN < h.x < i32::MAX,
        i32::MIN < h.y < i32::MAX,
    ensures
        r@ == neighbor_seq(h),
{
    hexx::Hex::new(h.x, h.y).all_neighbors().map(|n| Hex { x: n.x, y: n.y })
}

/// The six neighbours of `h`.
pub fn all_neighbors(h: Hex) -> (r: Vec<Hex>)
    requires
        i32::MIN < h.x < i32::MAX,
        i32::MIN < h.y < i32::MAX,
    ensures
        r@ == neighbor_seq(h),
{
    let arr = hexx_all_neighbors(h);
    let mut r: Vec<Hex> = Vec::new();
    let mut i: usize = 0;
    while i < 6
        invariant
            i <= 6,
            arr@ == neighbor_seq(h),
            r@ == neighbor_seq(h).subrange(0, i as int),
        decreases 6 - i,
    {
        r.push(arr[i]);
        i = i + 1;
    }
    r
}

/// Hexagonal distance between `a` and `b`, the coordinate difference taken
/// in 64-bit arithmetic so that no input overflows (hexx's
/// `unsigned_distance_to` computes the same value where its 32-bit
/// arithmetic does not overflow).
pub fn distance(a: Hex, b: Hex) -> (r: u64)
    ensures
        r == hex_distance(a, b),
{
    let dx: i64 = a.x as i64 - b.x as i64;
    let dy: i64 = a.y as i64 - b.y as i64;
    let dz: i64 = -dx - dy;
    let ax: u64 = if dx < 0 { (-dx) as u64 } else { dx as u64 };
    let ay: u64 = if dy < 0 { (-dy) as u64 } else { dy as u64 };
    let az: u64 = if dz < 0 { (-dz) as u64 } else { dz as u64 };
    if ax >= ay && ax >= az {
        ax
    } else if ay >= az {
        ay
    } else {
        az
    }
}

/// `h` lies strictly inside the `i32` range, so that its neighbours do too.
pub open spec fn has_neighbors(h: Hex) -> bool {
    i32::MIN < h.x < i32::MAX && i32::MIN < h.y < i32::MAX
}

/// Distance 1 is adjacency: `b` is at distance 1 from `a` exactly when it is
/// one of `a`'s six neighbours, and a hex is at distance 0 only from itself.
pub proof fn lemma_distance_one_is_adjacency(a: Hex, b: Hex)
    requires
        has_neighbors(a),
    ensures
        hex_distance(a, b) == 1 <==> neighbor_seq(a).contains(b),
        hex_distance(a, b) == 0 <==> a == b,
        hex_distance(a, b) == hex_distance(b, a),
{
    let n = neighbor_seq(a);
    if hex_distance(a, b) == 1 {
        let dx = b.x - a.x;
        let dy = b.y - a.y;
        let k: int = if dx == 1 && dy == 0 {
            0
        } else if dx == 0 && dy == 1 {
            1
        } else if dx == -1 && dy == 1 {
            2
        } else if dx == -1 && dy == 0 {
            3
        } else if dx == 0 && dy == -1 {
            4
        } else {
            5
        };
        assert(n[k] == b);
    }
    if n.contains(b) {
        let k = choose|k: int| 0 <= k < n.len() && n[k] == b;
        assert(0 <= k < 6);
        assert(hex_distance(a, n[k]) == 1);
    }
}

/// Distance counts neighbour steps: a step to a neighbour of `b` changes the
/// distance from `a` by at most one, and unless `b` is `a`, some neighbour of
/// `b` is one step closer to `a`. So the distance is the fewest steps from
/// neighbour to neighbour between the two hexes.
pub proof fn lemma_distance_counts_steps(a: Hex, b: Hex)
    requires
        has_neighbors(b),
    ensures
        forall|k: int|
            0 <= k < 6 ==> hex_distance(a, #[trigger] neighbor_seq(b)[k]) <= hex_distance(a, b) + 1
                && hex_distance(a, neighbor_seq(b)[k]) >= hex_distance(a, b) - 1,
        a != b ==> exists|k: int|
            0 <= k < 6 && hex_distance(a, #[trigger] neighbor_seq(b)[k]) == hex_distance(a, b) - 1,
{
    let n = neighbor_seq(b);
    assert forall|k: int| 0 <= k < 6 implies hex_distance(a, #[trigger] n[k]) <= hex_distance(a, b) + 1
        && hex_distance(a, n[k]) >= hex_distance(a, b) - 1 by {
        assert(n[k].x - b.x <= 1 && b.x - n[k].x <= 1);
    }
    if a != b {
        let dx = b.x - a.x;
        let dy = b.y - a.y;
        let dz = -dx - dy;
        let k: int = if dx > 0 && dy < 0 {
            2
        } else if dx > 0 && dz < 0 {
            3
        } else if dy > 0 && dx < 0 {
            5
        } else if dy > 0 && dz < 0 {
            4
        } else if dx < 0 {
            0
        } else {
            1
        };
        assert(hex_distance(a, n[k]) == hex_distance(a, b) - 1);
    }
}

} // verus!
