use vstd::prelude::*;
use crate::staging::{MeshData, VertexLayout};

verus! {

/// The bit pattern of the float 1.0, the colour channel value of a white vertex.
pub const WHITE_CHANNEL: u32 = 0x3f80_0000;

/// One parsed mesh: the bit patterns of its flat position array (three
/// floats per vertex) and texture-coordinate array (two per vertex), and its
/// triangle indices.
#[derive(Clone, Debug)]
pub struct MeshSource {
    pub positions: Vec<u32>,
    pub texcoords: Vec<u32>,
    pub indices: Vec<u32>,
}

/// Why parsed meshes cannot be turned into a textured model.
#[derive(Clone, Copy, PartialEq, Eq, Structural, Debug)]
pub enum MeshError {
    /// A mesh has no texture coordinates.
    MissingTexcoords,
    /// A mesh has fewer texture coordinates than vertices.
    TexcoordsTooShort,
}

pub open spec fn vertex_count_of(m: MeshSource) -> nat {
    m.positions@.len() / 3
}

pub open spec fn source_error(m: MeshSource) -> Option<MeshError> {
    if m.texcoords@.len() == 0 {
        Some(MeshError::MissingTexcoords)
    } else if m.texcoords@.len() < 2 * vertex_count_of(m) {
        Some(MeshError::TexcoordsTooShort)
    } else {
        None
    }
}

/// The words of the first `n` vertices: position, white colour, texture coordinates.
pub open spec fn vertex_words_upto(p: Seq<u32>, t: Seq<u32>, n: nat) -> Seq<u32>
    decreases n,
{
    if n == 0 {
        Seq::empty()
    } else {
        let i = n - 1;
        vertex_words_upto(p, t, (n - 1) as nat) + seq![
            p[3 * i],
            p[3 * i + 1],
            p[3 * i + 2],
            WHITE_CHANNEL,
            WHITE_CHANNEL,
            WHITE_CHANNEL,
            t[2 * i],
            t[2 * i + 1],
        ]
    }
}

pub open spec fn mesh_vertex_words(m: MeshSource) -> Seq<u32> {
    vertex_words_upto(m.positions@, m.texcoords@, vertex_count_of(m))
}

/// The vertices of the first `n` meshes, one mesh after the other.
pub open spec fn model_vertex_words(ms: Seq<MeshSource>, n: nat) -> Seq<u32>
    decreases n,
{
    if n == 0 {
        Seq::empty()
    } else {
        model_vertex_words(ms, (n - 1) as nat) + mesh_vertex_words(ms[n - 1])
    }
}

/// The error of the first of the first `n` meshes that has one.
pub open spec fn first_error(ms: Seq<MeshSource>, n: nat) -> Option<MeshError>
    decreases n,
{
    if n == 0 {
        None
    } else {
        match first_error(ms, (n - 1) as nat) {
            Some(e) => Some(e),
            None => source_error(ms[n - 1]),
        }
    }
}

proof fn lemma_vertex_words_len(p: Seq<u32>, t: Seq<u32>, n: nat)
    ensures
        vertex_words_upto(p, t, n).len() == 8 * n,
    decreases n,
{
    if n > 0 {
        lemma_vertex_words_len(p, t, (n - 1) as nat);
    }
}

proof fn lemma_model_words_len(ms: Seq<MeshSource>, n: nat)
    requires
        n <= ms.len(),
    ensures
        model_vertex_words(ms, n).len() % 8 == 0,
    decreases n,
{
    if n > 0 {
        lemma_model_words_len(ms, (n - 1) as nat);
        lemma_vertex_words_len(ms[n - 1].positions@, ms[n - 1].texcoords@, vertex_count_of(ms[n - 1]));
    }
}

fn append_mesh_vertices(out: &mut Vec<u32>, m: &MeshSource)
    requires
        source_error(*m) is None,
    ensures
        final(out)@ == old(out)@ + mesh_vertex_words(*m),
{
    let plen = m.positions.len();
    let tlen = m.texcoords.len();
    let n = plen / 3;
    let ghost start = out@;
    let mut i: usize = 0;
    while i < n
        invariant
            n == vertex_count_of(*m),
            source_error(*m) is None,
            plen == m.positions@.len(),
            tlen == m.texcoords@.len(),
            3 * n <= plen,
            2 * n <= tlen,
            i <= n,
            out@ == start + vertex_words_upto(m.positions@, m.texcoords@, i as nat),
        decreases n - i,
    {
        out.push(m.positions[3 * i]);
        out.push(m.positions[3 * i + 1]);
        out.push(m.positions[3 * i + 2]);
        out.push(WHITE_CHANNEL);
        out.push(WHITE_CHANNEL);
        out.push(WHITE_CHANNEL);
        out.push(m.texcoords[2 * i]);
        out.push(m.texcoords[2 * i + 1]);
        i += 1;
        assert(out@ =~= start + vertex_words_upto(m.positions@, m.texcoords@, i as nat));
    }
}

/// Builds a textured model from parsed meshes: every mesh's vertices in
/// order, each white with its position and texture coordinates, and the
/// index list of the last mesh. Fails on the first mesh whose texture
/// coordinates are missing or too few.
pub fn assemble_model(meshes: &Vec<MeshSource>) -> (r: Result<MeshData, MeshError>)
    ensures
        first_error(meshes@, meshes@.len()) matches Some(e) ==> r == Err::<MeshData, MeshError>(e),
        first_error(meshes@, meshes@.len()) is None ==> (r matches Ok(d)
            && d.layout == VertexLayout::Textured
            && d.vertex_words@ == model_vertex_words(meshes@, meshes@.len())
            && d.indices@ == (if meshes@.len() == 0 { Seq::<u32>::empty() } else { meshes@.last().indices@ })),
{
    let mut vertex_words: Vec<u32> = Vec::new();
    let mut indices: Vec<u32> = Vec::new();
    let mut k: usize = 0;
    while k < meshes.len()
        invariant
            k <= meshes@.len(),
            first_error(meshes@, k as nat) is None,
            vertex_words@ == model_vertex_words(meshes@, k as nat),
            indices@ == (if k == 0 { Seq::<u32>::empty() } else { meshes@[k - 1].indices@ }),
        decreases meshes@.len() - k,
    {
        let m = &meshes[k];
        if m.texcoords.len() == 0 {
            proof {
                lemma_first_error_sticks(meshes@, (k + 1) as nat, meshes@.len());
            }
            return Err(MeshError::MissingTexcoords);
        }
        if m.texcoords.len() / 2 < m.positions.len() / 3 {
            proof {
                lemma_first_error_sticks(meshes@, (k + 1) as nat, meshes@.len());
            }
            return Err(MeshError::TexcoordsTooShort);
        }
        append_mesh_vertices(&mut vertex_words, m);
        indices = m.indices.clone();
        k += 1;
    }
    Ok(MeshData { layout: VertexLayout::Textured, vertex_words, indices })
}

proof fn lemma_first_error_sticks(ms: Seq<MeshSource>, a: nat, b: nat)
    requires
        a <= b,
        first_error(ms, a) is Some,
    ensures
        first_error(ms, b) == first_error(ms, a),
    decreases b - a,
{
    if a < b {
        lemma_first_error_sticks(ms, a, (b - 1) as nat);
    }
}

/// A model assembled from meshes holds whole textured vertices.
pub proof fn lemma_assembled_whole_vertices(ms: Seq<MeshSource>)
    ensures
        model_vertex_words(ms, ms.len()).len() % 8 == 0,
{
    lemma_model_words_len(ms, ms.len());
}

} // verus!
