//! The geometry stream: one independent triangle per rectangle, vertices in
//! input order, and a flat index list `0, 1, 2, ...`.

use vstd::prelude::*;
use crate::layout::VertexBits;

verus! {

/// Rectangles the shape generator lays across its horizontal span, one per
/// cell.
pub const CELL_COUNT: usize = 100;

/// The three corners of the triangle that covers one rectangle.
#[derive(Clone, Copy, Debug, PartialEq, Eq, Structural)]
pub struct Triangle {
    pub a: VertexBits,
    pub b: VertexBits,
    pub c: VertexBits,
}

/// Vertices and indices ready to be copied to the device.
pub struct GeometryStream {
    pub vertices: Vec<VertexBits>,
    pub indices: Vec<u32>,
}

/// The corners of a triangle, in order.
pub open spec fn corners(t: Triangle) -> Seq<VertexBits> {
    seq![t.a, t.b, t.c]
}

/// The corners of every triangle, triangle after triangle.
pub open spec fn flatten(ts: Seq<Triangle>) -> Seq<VertexBits>
    decreases ts.len(),
{
    if ts.len() == 0 {
        Seq::empty()
    } else {
        flatten(ts.drop_last()) + corners(ts.last())
    }
}

/// The indices `0, 1, ..., n - 1`.
pub open spec fn sequential(n: nat) -> Seq<u32> {
    Seq::new(n, |j: int| j as u32)
}

impl GeometryStream {
    /// Every index names a vertex, and indices come in whole triangles.
    pub open spec fn wf(&self) -> bool {
        &&& self.indices@.len() % 3 == 0
        &&& forall|j: int|
            0 <= j < self.indices@.len() ==> (#[trigger] self.indices@[j]) < self.vertices@.len()
    }

    /// Whether the stream is well formed, as `wf` states it.
    pub fn is_well_formed(&self) -> (r: bool)
        ensures
            r == self.wf(),
    {
        if self.indices.len() % 3 != 0 {
            return false;
        }
        let mut j: usize = 0;
        while j < self.indices.len()
            invariant
                j <= self.indices@.len(),
                forall|m: int| 0 <= m < j ==> (#[trigger] self.indices@[m]) < self.vertices@.len(),
            decreases self.indices@.len() - j,
        {
            if self.indices[j] as usize >= self.vertices.len() {
                return false;
            }
            j = j + 1;
        }
        true
    }
}

pub proof fn lemma_flatten_len(ts: Seq<Triangle>)
    ensures
        flatten(ts).len() == 3 * ts.len(),
    decreases ts.len(),
{
    if ts.len() > 0 {
        lemma_flatten_len(ts.drop_last());
    }
}

/// Builds the stream of a sequence of triangles: their corners in order and
/// the index list `0 .. 3 * n`.
pub fn assemble(triangles: &Vec<Triangle>) -> (r: GeometryStream)
    requires
        3 * triangles@.len() <= u32::MAX,
    ensures
        r.vertices@ == flatten(triangles@),
        r.indices@ == sequential(3 * triangles@.len()),
        r.wf(),
{
    let n = triangles.len();
    let mut vertices: Vec<VertexBits> = Vec::with_capacity(3 * n);
    let mut indices: Vec<u32> = Vec::with_capacity(3 * n);
    let mut i: usize = 0;
    while i < n
        invariant
            n == triangles@.len(),
            3 * n <= u32::MAX,
            i <= n,
            vertices@ == flatten(triangles@.take(i as int)),
            indices@ == sequential(3 * i as nat),
        decreases n - i,
    {
        let t = triangles[i];
        vertices.push(t.a);
        vertices.push(t.b);
        vertices.push(t.c);
        let base: u32 = (3 * i) as u32;
        indices.push(base);
        indices.push(base + 1);
        indices.push(base + 2);
        proof {
            assert(triangles@.take(i + 1).drop_last() =~= triangles@.take(i as int));
            assert(vertices@ =~= flatten(triangles@.take(i + 1)));
            assert(indices@ =~= sequential(3 * (i + 1) as nat));
        }
        i = i + 1;
    }
    assert(triangles@.take(i as int) =~= triangles@);
    proof {
        lemma_flatten_len(triangles@);
    }
    GeometryStream { vertices, indices }
}


/// The index list `sequential(n)` shifted up by `k`.
pub open spec fn shifted(n: nat, k: nat) -> Seq<u32> {
    Seq::new(n, |j: int| (j + k) as u32)
}

pub proof fn lemma_flatten_append(a: Seq<Triangle>, b: Seq<Triangle>)
    ensures
        flatten(a + b) == flatten(a) + flatten(b),
    decreases b.len(),
{
    if b.len() == 0 {
        assert(a + b =~= a);
        assert(flatten(a) + flatten(b) =~= flatten(a));
    } else {
        lemma_flatten_append(a, b.drop_last());
        assert((a + b).drop_last() =~= a + b.drop_last());
        assert(flatten(a) + flatten(b) =~= flatten(a) + flatten(b.drop_last()) + corners(b.last()));
    }
}

/// Encoding is order-preserving: the stream of `a` followed by `b` holds
/// the vertices of `a`'s stream, then those of `b`'s stream; its indices are
/// those of `a`'s stream, then those of `b`'s stream moved past `a`'s
/// vertices.
pub proof fn law_order_preserved(a: Seq<Triangle>, b: Seq<Triangle>)
    ensures
        flatten(a + b) == flatten(a) + flatten(b),
        sequential(3 * (a + b).len()) == sequential(3 * a.len()) + shifted(
            3 * b.len(),
            3 * a.len(),
        ),
        flatten(a + b).subrange(0, 3 * a.len() as int) == flatten(a),
        flatten(a + b).subrange(3 * a.len() as int, 3 * (a + b).len() as int) == flatten(b),
{
    lemma_flatten_append(a, b);
    lemma_flatten_len(a);
    lemma_flatten_len(b);
    assert(sequential(3 * (a + b).len()) =~= sequential(3 * a.len()) + shifted(
        3 * b.len(),
        3 * a.len(),
    ));
    assert(flatten(a + b).subrange(0, 3 * a.len() as int) =~= flatten(a));
    assert(flatten(a + b).subrange(3 * a.len() as int, 3 * (a + b).len() as int) =~= flatten(b));
}

/// Each rectangle contributes exactly one triangle: the stream's vertices
/// `3i, 3i+1, 3i+2` are the corners of triangle `i`, and its indices there
/// are `0, 1, 2` counted from the start of that block.
pub proof fn law_one_triangle_each(ts: Seq<Triangle>, i: int)
    requires
        0 <= i < ts.len(),
        3 * ts.len() <= u32::MAX,
    ensures
        flatten(ts).len() == 3 * ts.len(),
        sequential(3 * ts.len()).len() == 3 * ts.len(),
        flatten(ts).subrange(3 * i, 3 * i + 3) == corners(ts[i]),
        sequential(3 * ts.len())[3 * i] - 3 * i == 0,
        sequential(3 * ts.len())[3 * i + 1] - 3 * i == 1,
        sequential(3 * ts.len())[3 * i + 2] - 3 * i == 2,
{
    lemma_flatten_len(ts);
    let pre = ts.take(i);
    let post = ts.skip(i + 1);
    assert(ts =~= pre + seq![ts[i]] + post);
    lemma_flatten_append(pre + seq![ts[i]], post);
    lemma_flatten_append(pre, seq![ts[i]]);
    lemma_flatten_len(pre);
    let one = seq![ts[i]];
    assert(one.drop_last() =~= Seq::<Triangle>::empty());
    assert(one.last() == ts[i]);
    assert(flatten(one.drop_last()) =~= Seq::<VertexBits>::empty());
    assert(flatten(one) == flatten(one.drop_last()) + corners(one.last()));
    assert(flatten(one) =~= corners(ts[i]));
    assert(flatten(ts).subrange(3 * i, 3 * i + 3) =~= corners(ts[i]));
}

} // verus!
