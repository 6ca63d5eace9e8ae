//! How the LEDs of the strip are shared out over the edges of a 16:9 screen.

use vstd::prelude::*;

verus! {

/// Height of the screen in layout units.
pub const ROWS: u32 = 9;

/// Width of the screen in layout units.
pub const COLS: u32 = 16;

/// Length of the lit perimeter in layout units: left, top and right edges,
/// plus the bottom edge when four edges are lit.
pub open spec fn perimeter(edge_number: u8) -> int {
    if edge_number >= 4 {
        2 * ROWS + 2 * COLS
    } else {
        2 * ROWS + COLS
    }
}

/// The share of each edge, in the order (left, top, right, bottom): each
/// side edge gets `lamps * 9 / perimeter` LEDs rounded down; with four edges
/// the top gets `lamps * 16 / perimeter` rounded down and the bottom the
/// rest; with three edges the top gets the rest and the bottom none.
pub open spec fn edge_shares(lamps: u32, edge_number: u8) -> (int, int, int, int) {
    let side = lamps * ROWS / perimeter(edge_number);
    let rest = lamps - 2 * side;
    if edge_number >= 4 {
        let top = lamps * COLS / perimeter(edge_number);
        (side, top, side, rest - top)
    } else {
        (side, rest, side, 0)
    }
}

/// The products that the computation forms fit in 32 bits.
pub open spec fn edge_shares_fit(lamps: u32, edge_number: u8) -> bool {
    if edge_number >= 4 {
        lamps * COLS <= u32::MAX
    } else {
        lamps * ROWS <= u32::MAX
    }
}

/// Whether `compute_edge_leds` can be asked for this strip.
pub fn edge_leds_fit(lamps: u32, edge_number: u8) -> (r: bool)
    ensures
        r == edge_shares_fit(lamps, edge_number),
{
    if edge_number >= 4 {
        lamps <= u32::MAX / COLS
    } else {
        lamps <= u32::MAX / ROWS
    }
}

proof fn lemma_shares_cover(lamps: u32, edge_number: u8)
    ensures
        ({
            let s = edge_shares(lamps, edge_number);
            &&& 0 <= s.0 && 0 <= s.1 && 0 <= s.2 && 0 <= s.3
            &&& s.0 + s.1 + s.2 + s.3 == lamps
        }),
{
    let l = lamps as int;
    let p = perimeter(edge_number);
    let side = l * 9 / p;
    assert(0 <= side && side * p <= l * 9) by (nonlinear_arith)
        requires
            p == 34 || p == 50,
            l >= 0,
            side == l * 9 / p,
    ;
    if edge_number >= 4 {
        let top = l * 16 / p;
        assert(0 <= top && top * p <= l * 16) by (nonlinear_arith)
            requires
                p == 50,
                l >= 0,
                top == l * 16 / p,
        ;
        assert(2 * side + top <= l) by (nonlinear_arith)
            requires
                p == 50,
                side * p <= l * 9,
                top * p <= l * 16,
                l >= 0,
        ;
    } else {
        assert(2 * side <= l) by (nonlinear_arith)
            requires
                p == 34,
                side * p <= l * 9,
                l >= 0,
        ;
    }
}

/// LEDs on the (left, top, right, bottom) edges.
pub fn compute_edge_leds(lamps: u32, edge_number: u8) -> (r: (usize, usize, usize, usize))
    requires
        edge_shares_fit(lamps, edge_number),
    ensures
        r.0 == edge_shares(lamps, edge_number).0,
        r.1 == edge_shares(lamps, edge_number).1,
        r.2 == edge_shares(lamps, edge_number).2,
        r.3 == edge_shares(lamps, edge_number).3,
{
    proof {
        lemma_shares_cover(lamps, edge_number);
    }
    let rows: u32 = ROWS;
    let cols: u32 = COLS;
    let total: u32 = if edge_number >= 4 {
        2 * rows + 2 * cols
    } else {
        2 * rows + cols
    };
    let left = (lamps * rows / total) as usize;
    let right = (lamps * rows / total) as usize;
    let remainder = lamps as usize - left - right;
    if edge_number >= 4 {
        let t = (lamps * cols / total) as usize;
        (left, t, right, remainder - t)
    } else {
        (left, remainder, right, 0)
    }
}

/// Every LED of the strip is placed on exactly one edge, both side edges
/// get the same number, and with three edges the bottom stays empty.
pub proof fn law_edges_cover_strip(lamps: u32, edge_number: u8)
    ensures
        ({
            let s = edge_shares(lamps, edge_number);
            &&& s.0 >= 0 && s.1 >= 0 && s.2 >= 0 && s.3 >= 0
            &&& s.0 + s.1 + s.2 + s.3 == lamps
            &&& s.0 == s.2
            &&& edge_number < 4 ==> s.3 == 0
        }),
{
    lemma_shares_cover(lamps, edge_number);
}

/// `n` dark LEDs.
pub open spec fn dark_run(n: nat) -> Seq<(u8, u8, u8)> {
    Seq::new(n, |i: int| (0u8, 0u8, 0u8))
}

fn push_dark(colors: &mut Vec<(u8, u8, u8)>, n: usize)
    requires
        old(colors).len() + n <= usize::MAX,
    ensures
        final(colors)@ == old(colors)@ + dark_run(n as nat),
{
    let mut i: usize = 0;
    while i < n
        invariant
            i <= n,
            colors@ == old(colors)@ + dark_run(i as nat),
        decreases n - i,
    {
        colors.push((0, 0, 0));
        i = i + 1;
        proof {
            assert(colors@ == old(colors)@ + dark_run(i as nat));
        }
    }
}

fn push_all(colors: &mut Vec<(u8, u8, u8)>, more: &Vec<(u8, u8, u8)>)
    ensures
        final(colors)@ == old(colors)@ + more@,
{
    let mut i: usize = 0;
    while i < more.len()
        invariant
            i <= more.len(),
            colors@ == old(colors)@ + more@.take(i as int),
        decreases more.len() - i,
    {
        colors.push(more[i]);
        proof {
            assert(more@.take(i + 1) == more@.take(i as int).push(more@[i as int]));
        }
        i = i + 1;
    }
    proof {
        assert(more@.take(more@.len() as int) == more@);
    }
}

/// The colours of the whole strip in LED order when only the side edges
/// show something: the left edge, the dark top edge, the right edge, the
/// dark bottom edge.
pub fn edge_frame(
    left: &Vec<(u8, u8, u8)>,
    top_n: usize,
    right: &Vec<(u8, u8, u8)>,
    bottom_n: usize,
) -> (r: Vec<(u8, u8, u8)>)
    requires
        left.len() + top_n + right.len() + bottom_n <= usize::MAX,
    ensures
        r@ == left@ + dark_run(top_n as nat) + right@ + dark_run(bottom_n as nat),
{
    let mut colors: Vec<(u8, u8, u8)> = Vec::new();
    push_all(&mut colors, left);
    push_dark(&mut colors, top_n);
    push_all(&mut colors, right);
    push_dark(&mut colors, bottom_n);
    colors
}

/// The shares follow the 16:9 screen: with three edges the perimeter is
/// 9 + 16 + 9 = 34 units, with four 9 + 16 + 9 + 16 = 50; each side edge gets
/// 9 units' worth of LEDs and a four-edge top 16 units' worth, rounded down.
pub proof fn law_edges_follow_screen_shape(lamps: u32, edge_number: u8)
    ensures
        ({
            let s = edge_shares(lamps, edge_number);
            let l = lamps as int;
            &&& edge_number < 4 ==> 34 * s.0 <= 9 * l < 34 * (s.0 + 1)
            &&& edge_number >= 4 ==> 50 * s.0 <= 9 * l < 50 * (s.0 + 1)
            &&& edge_number >= 4 ==> 50 * s.1 <= 16 * l < 50 * (s.1 + 1)
            &&& edge_number < 4 ==> s.1 == l - 2 * s.0
        }),
{
    let l = lamps as int;
    let p = perimeter(edge_number);
    let side = l * 9 / p;
    assert(p * side <= 9 * l < p * (side + 1)) by (nonlinear_arith)
        requires
            p == 34 || p == 50,
            l >= 0,
            side == l * 9 / p,
    ;
    if edge_number >= 4 {
        let top = l * 16 / p;
        assert(p * top <= 16 * l < p * (top + 1)) by (nonlinear_arith)
            requires
                p == 50,
                l >= 0,
                top == l * 16 / p,
        ;
    }
}

} // verus!
