//! Primitive assembly: grouping the shaded vertex stream into consecutive,
//! non-overlapping triangles, in mesh order.

use vstd::prelude::*;

verus! {

/// Groups the vertex stream into consecutive triples, in order. A trailing
/// one or two vertices that cannot form a complete triangle are dropped
/// silently; this is the intended behavior for an always-triangle-list mesh,
/// not an error.
pub fn assemble_triangles<T: Copy>(vertices: &Vec<T>) -> (tris: Vec<(T, T, T)>)
    ensures
        tris@.len() == vertices@.len() / 3,
        forall|k: int|
            0 <= k < tris@.len() ==> #[trigger] tris@[k] == (
                vertices@[3 * k],
                vertices@[3 * k + 1],
                vertices@[3 * k + 2],
            ),
{
    let mut tris: Vec<(T, T, T)> = Vec::new();
    let n = vertices.len();
    let count = n / 3;
    let mut t: usize = 0;
    while t < count
        invariant
            n == vertices@.len(),
            count == n / 3,
            t <= count,
            tris@.len() == t,
            forall|k: int|
                0 <= k < tris@.len() ==> #[trigger] tris@[k] == (
                    vertices@[3 * k],
                    vertices@[3 * k + 1],
                    vertices@[3 * k + 2],
                ),
        decreases count - t,
    {
        proof {
            assert(3 * count <= n);
        }
        let a = vertices[3 * t];
        let b = vertices[3 * t + 1];
        let c = vertices[3 * t + 2];
        tris.push((a, b, c));
        t += 1;
    }
    tris
}

} // verus!
