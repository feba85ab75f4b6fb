//! The partition of the draw area into one stripe per painter.
use vstd::prelude::*;

use crate::rect::Rect;

verus! {

/// The width of each stripe when `count` painters share `width` pixels.
pub open spec fn stripe_width(width: nat, count: nat) -> nat {
    if count == 0 {
        0
    } else {
        width / count
    }
}

/// The area of painter `i` of `count` on a draw area of `size`: a full
/// height stripe, the stripes side by side from the left edge.
pub open spec fn stripe(size: (u16, u16), count: nat, i: nat) -> Rect {
    let s = stripe_width(size.0 as nat, count);
    Rect { x: (i * s) as u16, y: 0, w: s as u16, h: size.1 }
}

/// `i` stripes of width `w / n` fit in `w` for `i <= n`.
proof fn lemma_stripes_fit(w: nat, n: nat, i: nat)
    requires
        n > 0,
        i <= n,
    ensures
        i * (w / n) <= w,
{
    assert(i * (w / n) <= n * (w / n)) by (nonlinear_arith)
        requires
            i <= n,
    ;
    assert(n * (w / n) <= w) by (nonlinear_arith)
        requires
            n > 0,
    ;
}

/// The areas of `painter_count` painters on a draw area of `size`: stripes
/// of width `size.0 / painter_count`, none when `painter_count` is zero. The
/// pixels right of the last stripe are in no area.
pub fn painter_areas(size: (u16, u16), painter_count: usize) -> (areas: Vec<Rect>)
    ensures
        areas@.len() == painter_count,
        forall|i: int| 0 <= i < painter_count ==> #[trigger] areas@[i] == stripe(size, painter_count as nat, i as nat),
{
    let mut areas: Vec<Rect> = Vec::new();
    if painter_count == 0 {
        return areas;
    }
    let width: usize = (size.0 as usize) / painter_count;
    assert(width as nat == stripe_width(size.0 as nat, painter_count as nat));
    let mut i: usize = 0;
    while i < painter_count
        invariant
            painter_count > 0,
            i <= painter_count,
            width as nat == stripe_width(size.0 as nat, painter_count as nat),
            width <= size.0,
            areas@.len() == i,
            forall|k: int| 0 <= k < i ==> #[trigger] areas@[k] == stripe(size, painter_count as nat, k as nat),
        decreases painter_count - i,
    {
        proof {
            lemma_stripes_fit(size.0 as nat, painter_count as nat, i as nat);
        }
        let x = i * width;
        areas.push(Rect::from(x as u16, 0, width as u16, size.1));
        i += 1;
    }
    areas
}

/// The areas of distinct painters share no pixel.
pub proof fn lemma_areas_disjoint(size: (u16, u16), count: nat, i: nat, j: nat, px: int, py: int)
    requires
        1 <= count <= size.0,
        i < count,
        j < count,
        i != j,
    ensures
        !(stripe(size, count, i).contains(px, py) && stripe(size, count, j).contains(px, py)),
{
    let s = stripe_width(size.0 as nat, count);
    lemma_stripes_fit(size.0 as nat, count, i + 1);
    lemma_stripes_fit(size.0 as nat, count, j + 1);
    assert((i + 1) * s == i * s + s) by (nonlinear_arith);
    assert((j + 1) * s == j * s + s) by (nonlinear_arith);
    if stripe(size, count, i).contains(px, py) && stripe(size, count, j).contains(px, py) {
        assert(i * s <= px < i * s + s);
        assert(j * s <= px < j * s + s);
        if i < j {
            assert(i * s + s <= j * s) by (nonlinear_arith)
                requires
                    i < j,
            ;
        } else {
            assert(j * s + s <= i * s) by (nonlinear_arith)
                requires
                    j < i,
            ;
        }
    }
}

/// A pixel of the draw area left of `count * (size.0 / count)` lies in the
/// area of painter `px / (size.0 / count)`; a pixel at or right of that
/// column lies in no area.
pub proof fn lemma_areas_cover(size: (u16, u16), count: nat, px: int, py: int)
    requires
        1 <= count <= size.0,
        0 <= px < size.0,
        0 <= py < size.1,
    ensures
        px < count * stripe_width(size.0 as nat, count) ==> stripe(
            size,
            count,
            (px / stripe_width(size.0 as nat, count) as int) as nat,
        ).contains(px, py),
        px >= count * stripe_width(size.0 as nat, count) ==> forall|i: nat|
            i < count ==> !(#[trigger] stripe(size, count, i)).contains(px, py),
{
    let w = size.0 as nat;
    let s = stripe_width(w, count);
    assert(s >= 1) by (nonlinear_arith)
        requires
            s == w / count,
            1 <= count <= w,
    ;
    if px < count * s {
        let i = px / (s as int);
        assert(0 <= i && i * s <= px && px < i * s + s) by (nonlinear_arith)
            requires
                i == px / (s as int),
                s >= 1,
                px >= 0,
        ;
        assert(i < count) by (nonlinear_arith)
            requires
                i * s <= px,
                px < count * s,
                s >= 1,
        ;
        lemma_stripes_fit(w, count, i as nat);
    }
    assert forall|i: nat| i < count && px >= count * s implies !(#[trigger] stripe(size, count, i)).contains(px, py) by {
        lemma_stripes_fit(w, count, i + 1);
        assert((i + 1) * s <= count * s) by (nonlinear_arith)
            requires
                i < count,
        ;
        assert((i + 1) * s == i * s + s) by (nonlinear_arith);
        lemma_stripes_fit(w, count, i);
    }
}

} // verus!
