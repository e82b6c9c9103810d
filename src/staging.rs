//! The renderer's device buffers as fixed-capacity arenas with live-length
//! cursors: uploads that do not fit are refused, never truncated, and leave
//! the previous geometry in place.

use vstd::prelude::*;
use crate::geometry::{flatten, lemma_flatten_len, sequential, GeometryStream, Triangle, CELL_COUNT};
use crate::layout::{index_bytes, vertex_bytes, vertices_words, words_bytes, INDEX_STRIDE, VERTEX_STRIDE};

verus! {

/// Byte capacity of each of the two geometry buffers.
pub const DEFAULT_BUFFER_CAPACITY: u32 = 6000;

/// A geometry upload that does not fit the buffer it is meant for.
#[derive(Clone, Copy, Debug, PartialEq, Eq, Structural)]
pub enum CapacityError {
    /// The vertices need more than `capacity` bytes.
    Vertices { count: usize, capacity: u32 },
    /// The indices need more than `capacity` bytes.
    Indices { count: usize, capacity: u32 },
}

/// What is staged on the device and how much room there is.
pub struct ArenaState {
    pub vertex_capacity: nat,
    pub index_capacity: nat,
    pub vertex_count: nat,
    pub index_count: nat,
    pub ready: bool,
}

/// Whether `nv` vertices and `ni` indices fit the buffers of `s`.
pub open spec fn fits(s: ArenaState, nv: nat, ni: nat) -> bool {
    &&& VERTEX_STRIDE * nv <= s.vertex_capacity
    &&& INDEX_STRIDE * ni <= s.index_capacity
}

/// The state after an upload of `nv` vertices and `ni` indices: the new
/// counts where they fit, else the state unchanged.
pub open spec fn after_upload(s: ArenaState, nv: nat, ni: nat) -> ArenaState {
    if fits(s, nv, ni) {
        ArenaState {
            vertex_capacity: s.vertex_capacity,
            index_capacity: s.index_capacity,
            vertex_count: nv,
            index_count: ni,
            ready: true,
        }
    } else {
        s
    }
}

/// The byte images to copy to the start of the vertex and index buffers.
pub struct StagedBytes {
    pub vertices: Vec<u8>,
    pub indices: Vec<u8>,
}

/// What one draw binds and covers: the first `vertex_bytes` bytes of the
/// vertex buffer, the first `index_bytes` bytes of the index buffer, and the
/// indices `0 .. index_count`.
#[derive(Clone, Copy, Debug, PartialEq, Eq, Structural)]
pub struct DrawPlan {
    pub vertex_bytes: u64,
    pub index_bytes: u64,
    pub index_count: u32,
}

/// The renderer's geometry buffers: `Empty` until the first upload that
/// fits, `Ready` after it.
pub struct StagingArena {
    vertex_capacity: u32,
    index_capacity: u32,
    vertex_count: u32,
    index_count: u32,
    ready: bool,
}

impl View for StagingArena {
    type V = ArenaState;

    closed spec fn view(&self) -> ArenaState {
        ArenaState {
            vertex_capacity: self.vertex_capacity as nat,
            index_capacity: self.index_capacity as nat,
            vertex_count: self.vertex_count as nat,
            index_count: self.index_count as nat,
            ready: self.ready,
        }
    }
}

impl StagingArena {
    /// The live counts fit the buffers, and nothing is staged before the
    /// first upload.
    pub closed spec fn wf(&self) -> bool {
        &&& VERTEX_STRIDE * self.vertex_count <= self.vertex_capacity
        &&& INDEX_STRIDE * self.index_count <= self.index_capacity
        &&& !self.ready ==> self.vertex_count == 0 && self.index_count == 0
    }

    /// Empty buffers of the given byte capacities.
    pub fn new(vertex_capacity: u32, index_capacity: u32) -> (r: StagingArena)
        ensures
            r.wf(),
            r@ == (ArenaState {
                vertex_capacity: vertex_capacity as nat,
                index_capacity: index_capacity as nat,
                vertex_count: 0,
                index_count: 0,
                ready: false,
            }),
    {
        StagingArena { vertex_capacity, index_capacity, vertex_count: 0, index_count: 0, ready: false }
    }

    /// Empty buffers of `DEFAULT_BUFFER_CAPACITY` bytes each.
    pub fn with_default_capacity() -> (r: StagingArena)
        ensures
            r.wf(),
            r@ == (ArenaState {
                vertex_capacity: DEFAULT_BUFFER_CAPACITY as nat,
                index_capacity: DEFAULT_BUFFER_CAPACITY as nat,
                vertex_count: 0,
                index_count: 0,
                ready: false,
            }),
    {
        StagingArena::new(DEFAULT_BUFFER_CAPACITY, DEFAULT_BUFFER_CAPACITY)
    }

    /// Stages a geometry stream: where both parts fit, returns their bytes and
    /// records their lengths as the live counts; otherwise reports which part
    /// is too large (vertices first) and leaves the state as it was.
    pub fn upload_geometry(&mut self, stream: &GeometryStream) -> (r: Result<StagedBytes, CapacityError>)
        requires
            old(self).wf(),
            stream.wf(),
        ensures
            final(self).wf(),
            final(self)@ == after_upload(old(self)@, stream.vertices@.len(), stream.indices@.len()),
            r is Ok <==> fits(old(self)@, stream.vertices@.len(), stream.indices@.len()),
            r matches Ok(b) ==> b.vertices@ == words_bytes(vertices_words(stream.vertices@))
                && b.indices@ == words_bytes(stream.indices@),
            r matches Err(e) ==> e == (if VERTEX_STRIDE * stream.vertices@.len() > old(self)@.vertex_capacity {
                CapacityError::Vertices { count: stream.vertices@.len() as usize, capacity: old(self)@.vertex_capacity as u32 }
            } else {
                CapacityError::Indices { count: stream.indices@.len() as usize, capacity: old(self)@.index_capacity as u32 }
            }),
    {
        let nv = stream.vertices.len();
        let ni = stream.indices.len();
        let vcap = self.vertex_capacity;
        let icap = self.index_capacity;
        proof {
            assert(nv <= (vcap / 20) as int <==> 20 * nv <= vcap) by (nonlinear_arith);
            assert(ni <= (icap / 4) as int <==> 4 * ni <= icap) by (nonlinear_arith);
        }
        if nv > (vcap / VERTEX_STRIDE) as usize {
            return Err(CapacityError::Vertices { count: nv, capacity: vcap });
        }
        if ni > (icap / INDEX_STRIDE) as usize {
            return Err(CapacityError::Indices { count: ni, capacity: icap });
        }
        let vertices = vertex_bytes(&stream.vertices);
        let indices = index_bytes(&stream.indices);
        self.vertex_count = nv as u32;
        self.index_count = ni as u32;
        self.ready = true;
        Ok(StagedBytes { vertices, indices })
    }

    /// Whether a geometry upload has succeeded yet.
    pub fn is_ready(&self) -> (r: bool)
        ensures
            r == self@.ready,
    {
        self.ready
    }

    /// Vertices staged for the next draw.
    pub fn vertex_count(&self) -> (r: u32)
        ensures
            r == self@.vertex_count,
    {
        self.vertex_count
    }

    /// Indices staged for the next draw.
    pub fn index_count(&self) -> (r: u32)
        ensures
            r == self@.index_count,
    {
        self.index_count
    }

    /// The ranges the next draw binds and covers.
    pub fn draw_plan(&self) -> (r: DrawPlan)
        requires
            self.wf(),
        ensures
            r.vertex_bytes == VERTEX_STRIDE * self@.vertex_count,
            r.index_bytes == INDEX_STRIDE * self@.index_count,
            r.index_count == self@.index_count,
    {
        DrawPlan {
            vertex_bytes: VERTEX_STRIDE as u64 * self.vertex_count as u64,
            index_bytes: INDEX_STRIDE as u64 * self.index_count as u64,
            index_count: self.index_count,
        }
    }
}


/// A renderer in the `Empty` state draws nothing, and so does one that has
/// just staged an empty stream, an upload that always succeeds.
pub proof fn law_empty_draws_nothing(a: StagingArena)
    requires
        a.wf(),
    ensures
        !a@.ready ==> a@.vertex_count == 0 && a@.index_count == 0,
        fits(a@, 0, 0),
        after_upload(a@, 0, 0).vertex_count == 0,
        after_upload(a@, 0, 0).index_count == 0,
        after_upload(a@, 0, 0).ready,
{
}

/// Staging the stream of `n` triangles that fits stages exactly `3n`
/// vertices, the corners in triangle order, and the `3n` indices
/// `0 .. 3n`, so each triangle's index triple is `0, 1, 2` counted from the
/// start of its own vertex block.
pub proof fn law_staged_triangles(ts: Seq<Triangle>, s: ArenaState)
    requires
        3 * ts.len() <= u32::MAX,
        fits(s, flatten(ts).len(), sequential(3 * ts.len()).len()),
    ensures
        after_upload(s, flatten(ts).len(), sequential(3 * ts.len()).len()).vertex_count == 3
            * ts.len(),
        after_upload(s, flatten(ts).len(), sequential(3 * ts.len()).len()).index_count == 3
            * ts.len(),
        forall|i: int, k: int|
            0 <= i < ts.len() && 0 <= k < 3 ==> #[trigger] sequential(3 * ts.len())[3 * i + k] - 3
                * i == k,
{
    lemma_flatten_len(ts);
    assert forall|i: int, k: int|
        0 <= i < ts.len() && 0 <= k < 3 implies #[trigger] sequential(3 * ts.len())[3 * i + k] - 3
            * i == k by {
        assert(0 <= 3 * i + k < 3 * ts.len());
    }
}

/// The stream of one triangle per generator cell always fits the default
/// buffers, and stages three vertices and three indices per cell.
pub proof fn law_cells_fit_default_buffers(ts: Seq<Triangle>, s: ArenaState)
    requires
        ts.len() == CELL_COUNT,
        s.vertex_capacity == DEFAULT_BUFFER_CAPACITY,
        s.index_capacity == DEFAULT_BUFFER_CAPACITY,
    ensures
        fits(s, flatten(ts).len(), sequential(3 * ts.len()).len()),
        after_upload(s, flatten(ts).len(), sequential(3 * ts.len()).len()).vertex_count == 3
            * CELL_COUNT,
        after_upload(s, flatten(ts).len(), sequential(3 * ts.len()).len()).index_count == 3
            * CELL_COUNT,
{
    lemma_flatten_len(ts);
}

/// An upload refused for capacity changes nothing, so an upload that fits
/// afterwards stages exactly its own counts.
pub proof fn law_refused_upload_keeps_counts(s: ArenaState, big_v: nat, big_i: nat, nv: nat, ni: nat)
    requires
        !fits(s, big_v, big_i),
        fits(s, nv, ni),
    ensures
        after_upload(s, big_v, big_i) == s,
        after_upload(after_upload(s, big_v, big_i), nv, ni).vertex_count == nv,
        after_upload(after_upload(s, big_v, big_i), nv, ni).index_count == ni,
        after_upload(after_upload(s, big_v, big_i), nv, ni).ready,
{
}

} // verus!
