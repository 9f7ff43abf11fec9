//! Fixed lists for an axis-aligned rectangle drawn as two triangles.
use vstd::prelude::*;

verus! {

/// The six vertices of a rectangle's two triangles, from its corners
/// `c00` (x, y), `c10` (x + w, y), `c01` (x, y + h) and `c11` (x + w, y + h):
/// the triangles are (c00, c10, c01) and (c10, c11, c01).
pub fn rect_tri_list<V: Copy>(c00: V, c10: V, c01: V, c11: V) -> (r: [V; 6])
    ensures
        r@ == seq![c00, c10, c01, c10, c11, c01],
{
    [c00, c10, c01, c10, c11, c01]
}

/// The coordinates of a rectangle's two triangles, flattened, from its
/// edges `x1 <= x2` and `y1 <= y2`, in the vertex order of `rect_tri_list`.
pub fn rect_tri_list_flat<T: Copy>(x1: T, y1: T, x2: T, y2: T) -> (r: [T; 12])
    ensures
        r@ == seq![x1, y1, x2, y1, x1, y2, x2, y1, x2, y2, x1, y2],
{
    [x1, y1, x2, y1, x1, y2, x2, y1, x2, y2, x1, y2]
}

/// The color list of a rectangle's two triangles: `color` once for each of
/// the six vertices, and again for six more, as the color buffer of a
/// triangle list holds.
pub fn rect_tri_list_rgba<C: Copy>(color: [C; 4]) -> (r: [C; 48])
    ensures
        forall|i: int| 0 <= i < 48 ==> #[trigger] r@[i] == color@[i % 4],
{
    let r = color[0];
    let g = color[1];
    let b = color[2];
    let a = color[3];
    let out = [
        r, g, b, a,
        r, g, b, a,
        r, g, b, a,
        r, g, b, a,
        r, g, b, a,
        r, g, b, a,
        r, g, b, a,
        r, g, b, a,
        r, g, b, a,
        r, g, b, a,
        r, g, b, a,
        r, g, b, a,
    ];
    assert forall|i: int| 0 <= i < 48 implies #[trigger] out@[i] == color@[i % 4] by {
        assert(out@[i] == seq![r, g, b, a][i % 4]);
    }
    out
}

} // verus!
