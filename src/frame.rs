use vstd::prelude::*;

use crate::layout::{POSITION_COMPONENTS, VERTEX_COMPONENTS};

verus! {

/// Which of the three animation phases feeds color channel `channel` of
/// vertex `vertex`: each vertex takes the phases rotated by one more place
/// than the vertex before it.
pub open spec fn phase_of(vertex: int, channel: int) -> int {
    (channel - vertex + 3) % 3
}

/// The rotation spreads the phases evenly: within one vertex the three color
/// channels read three different phases, and one channel reads a different
/// phase at each of the three vertices.
pub proof fn lemma_phases_distinct(i1: int, j1: int, i2: int, j2: int)
    requires
        0 <= i1 < 3,
        0 <= j1 < 3,
        0 <= i2 < 3,
        0 <= j2 < 3,
    ensures
        i1 == i2 && j1 != j2 ==> phase_of(i1, j1) != phase_of(i2, j2),
        j1 == j2 && i1 != i2 ==> phase_of(i1, j1) != phase_of(i2, j2),
        0 <= phase_of(i1, j1) < 3,
{
}

/// The colors of the three triangle vertices, built from three animation
/// phases and an alpha value. The first vertex reads the phases in order,
/// the second rotated right by one, the third rotated right by two; every
/// vertex ends with `alpha`.
pub fn vertex_colors<T: Copy>(phases: [T; 3], alpha: T) -> (r: [[T; 4]; 3])
    ensures
        forall|i: int, j: int| 0 <= i < 3 && 0 <= j < 3 ==> #[trigger] r[i][j] == phases[phase_of(i, j)],
        forall|i: int| 0 <= i < 3 ==> #[trigger] r[i][3] == alpha,
{
    let a = phases[0];
    let b = phases[1];
    let c = phases[2];
    [[a, b, c, alpha], [c, a, b, alpha], [b, c, a, alpha]]
}

/// The component of the interleaved buffer at `index`, for records that hold a
/// position followed by a color.
pub open spec fn interleaved_at<T>(positions: Seq<[T; 2]>, colors: Seq<[T; 4]>, index: int) -> T {
    let v = index / VERTEX_COMPONENTS as int;
    let k = index % VERTEX_COMPONENTS as int;
    if k < POSITION_COMPONENTS {
        positions[v][k]
    } else {
        colors[v][k - POSITION_COMPONENTS]
    }
}

/// Lays the vertices out one record after the other, each record holding the
/// vertex's two position components followed by its four color components.
pub fn interleave<T: Copy>(positions: &[[T; 2]], colors: &[[T; 4]]) -> (r: Vec<T>)
    requires
        positions@.len() == colors@.len(),
        positions@.len() * VERTEX_COMPONENTS <= usize::MAX,
    ensures
        r@.len() == positions@.len() * VERTEX_COMPONENTS,
        forall|n: int| 0 <= n < r@.len() ==> #[trigger] r@[n] == interleaved_at(positions@, colors@, n),
{
    let mut out: Vec<T> = Vec::new();
    let mut v: usize = 0;
    while v < positions.len()
        invariant
            positions@.len() == colors@.len(),
            positions@.len() * VERTEX_COMPONENTS <= usize::MAX,
            v <= positions@.len(),
            out@.len() == v * VERTEX_COMPONENTS,
            forall|n: int| 0 <= n < out@.len() ==> #[trigger] out@[n] == interleaved_at(positions@, colors@, n),
        decreases positions@.len() - v,
    {
        let p = positions[v];
        let c = colors[v];
        let ghost base = v * VERTEX_COMPONENTS;
        out.push(p[0]);
        out.push(p[1]);
        out.push(c[0]);
        out.push(c[1]);
        out.push(c[2]);
        out.push(c[3]);
        assert forall|n: int| 0 <= n < out@.len() implies #[trigger] out@[n] == interleaved_at(positions@, colors@, n) by {
            if n >= base {
                assert(n / 6 == v && n % 6 == n - base) by (nonlinear_arith)
                    requires
                        base == v * 6,
                        base <= n < base + 6,
                ;
            }
        }
        v = v + 1;
    }
    out
}

} // verus!
