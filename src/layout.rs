//! Byte layout of the records sent to the device: little-endian 32-bit words,
//! vertices as five consecutive words, paint settings as a 48-byte block.

use vstd::prelude::*;

verus! {

/// The four little-endian bytes of `w`.
pub open spec fn le_bytes(w: u32) -> Seq<u8> {
    seq![
        (w % 256) as u8,
        ((w / 256) % 256) as u8,
        ((w / 65536) % 256) as u8,
        (w / 16777216) as u8,
    ]
}

/// The little-endian bytes of each word, in order.
pub open spec fn words_bytes(ws: Seq<u32>) -> Seq<u8>
    decreases ws.len(),
{
    if ws.len() == 0 {
        Seq::empty()
    } else {
        words_bytes(ws.drop_last()) + le_bytes(ws.last())
    }
}

pub proof fn lemma_words_bytes_len(ws: Seq<u32>)
    ensures
        words_bytes(ws).len() == 4 * ws.len(),
    decreases ws.len(),
{
    if ws.len() > 0 {
        lemma_words_bytes_len(ws.drop_last());
    }
}

/// Appends the little-endian bytes of `w` to `out`.
pub fn push_word(out: &mut Vec<u8>, w: u32)
    ensures
        final(out)@ == old(out)@ + le_bytes(w),
{
    out.push((w % 256) as u8);
    out.push(((w / 256) % 256) as u8);
    out.push(((w / 65536) % 256) as u8);
    out.push((w / 16777216) as u8);
    assert(final(out)@ =~= old(out)@ + le_bytes(w));
}


/// Bytes in one serialized vertex: position (x, y, z) then uv (u, v).
pub const VERTEX_STRIDE: u32 = 20;

/// Bytes in one serialized index.
pub const INDEX_STRIDE: u32 = 4;

/// Bytes in the serialized paint settings: nine words padded to a multiple
/// of sixteen.
pub const SETTINGS_SIZE: u32 = 48;

/// A vertex whose coordinates are single-precision bit patterns.
#[derive(Clone, Copy, Debug, PartialEq, Eq, Structural)]
pub struct VertexBits {
    pub x: u32,
    pub y: u32,
    pub z: u32,
    pub u: u32,
    pub v: u32,
}

/// Edge color, fill color (RGBA, premultiplied alpha) and line width, each
/// component a single-precision bit pattern.
#[derive(Clone, Copy, Debug)]
pub struct PaintSettingsBits {
    pub edge: [u32; 4],
    pub fill: [u32; 4],
    pub line_width: u32,
}

/// The words of a vertex, in layout order.
pub open spec fn vertex_words(v: VertexBits) -> Seq<u32> {
    seq![v.x, v.y, v.z, v.u, v.v]
}

/// The words of a vertex sequence, vertex after vertex.
pub open spec fn vertices_words(vs: Seq<VertexBits>) -> Seq<u32>
    decreases vs.len(),
{
    if vs.len() == 0 {
        Seq::empty()
    } else {
        vertices_words(vs.drop_last()) + vertex_words(vs.last())
    }
}

/// The words of the settings block: edge, fill, line width, then three
/// zero words of padding.
pub open spec fn settings_words(s: PaintSettingsBits) -> Seq<u32> {
    s.edge@ + s.fill@ + seq![s.line_width, 0u32, 0u32, 0u32]
}

pub proof fn lemma_words_bytes_append(a: Seq<u32>, b: Seq<u32>)
    ensures
        words_bytes(a + b) == words_bytes(a) + words_bytes(b),
    decreases b.len(),
{
    if b.len() == 0 {
        assert(a + b =~= a);
        assert(words_bytes(b) =~= Seq::<u8>::empty());
        assert(words_bytes(a) + words_bytes(b) =~= words_bytes(a));
    } else {
        lemma_words_bytes_append(a, b.drop_last());
        assert((a + b).drop_last() =~= a + b.drop_last());
        assert((a + b).last() == b.last());
        assert(words_bytes(a) + words_bytes(b) =~= words_bytes(a) + words_bytes(b.drop_last())
            + le_bytes(b.last()));
    }
}

pub proof fn lemma_vertices_words_len(vs: Seq<VertexBits>)
    ensures
        vertices_words(vs).len() == 5 * vs.len(),
    decreases vs.len(),
{
    if vs.len() > 0 {
        lemma_vertices_words_len(vs.drop_last());
    }
}

/// Appends the serialized words of `ws` to `out`.
fn push_words(out: &mut Vec<u8>, ws: &[u32])
    ensures
        final(out)@ == old(out)@ + words_bytes(ws@),
{
    let ghost start = out@;
    let mut i: usize = 0;
    while i < ws.len()
        invariant
            i <= ws@.len(),
            out@ == start + words_bytes(ws@.take(i as int)),
        decreases ws@.len() - i,
    {
        push_word(out, ws[i]);
        assert(ws@.take(i + 1).drop_last() =~= ws@.take(i as int));
        i = i + 1;
    }
    assert(ws@.take(i as int) =~= ws@);
}

/// Appends the serialized words of one vertex to `out`.
fn push_vertex(out: &mut Vec<u8>, v: VertexBits)
    ensures
        final(out)@ == old(out)@ + words_bytes(vertex_words(v)),
{
    let ws: [u32; 5] = [v.x, v.y, v.z, v.u, v.v];
    push_words(out, &ws);
    assert(ws@ =~= vertex_words(v));
}

/// The serialized bytes of a vertex sequence.
pub fn vertex_bytes(vs: &Vec<VertexBits>) -> (r: Vec<u8>)
    requires
        vs@.len() * 20 <= usize::MAX,
    ensures
        r@ == words_bytes(vertices_words(vs@)),
        r@.len() == 20 * vs@.len(),
{
    let mut out: Vec<u8> = Vec::with_capacity(vs.len() * 20);
    let mut i: usize = 0;
    while i < vs.len()
        invariant
            i <= vs@.len(),
            out@ == words_bytes(vertices_words(vs@.take(i as int))),
        decreases vs@.len() - i,
    {
        let v = vs[i];
        push_vertex(&mut out, v);
        proof {
            let prev = vertices_words(vs@.take(i as int));
            assert(vs@.take(i + 1).drop_last() =~= vs@.take(i as int));
            lemma_words_bytes_append(prev, vertex_words(v));
        }
        i = i + 1;
    }
    assert(vs@.take(i as int) =~= vs@);
    proof {
        lemma_vertices_words_len(vs@);
        lemma_words_bytes_len(vertices_words(vs@));
    }
    out
}

/// The serialized bytes of an index sequence.
pub fn index_bytes(is: &Vec<u32>) -> (r: Vec<u8>)
    requires
        is@.len() * 4 <= usize::MAX,
    ensures
        r@ == words_bytes(is@),
        r@.len() == 4 * is@.len(),
{
    let mut out: Vec<u8> = Vec::with_capacity(is.len() * 4);
    push_words(&mut out, is.as_slice());
    proof {
        assert(out@ =~= words_bytes(is@));
        lemma_words_bytes_len(is@);
    }
    out
}

/// The serialized 48-byte uniform block of the paint settings.
pub fn settings_bytes(s: &PaintSettingsBits) -> (r: Vec<u8>)
    ensures
        r@ == words_bytes(settings_words(*s)),
        r@.len() == SETTINGS_SIZE,
{
    let mut out: Vec<u8> = Vec::with_capacity(48);
    push_words(&mut out, &s.edge);
    push_words(&mut out, &s.fill);
    let tail: [u32; 4] = [s.line_width, 0, 0, 0];
    push_words(&mut out, &tail);
    proof {
        assert(tail@ =~= seq![s.line_width, 0u32, 0u32, 0u32]);
        lemma_words_bytes_append(s.edge@, s.fill@);
        lemma_words_bytes_append(s.edge@ + s.fill@, tail@);
        assert(out@ =~= words_bytes(settings_words(*s)));
        lemma_words_bytes_len(settings_words(*s));
    }
    out
}

} // verus!
