use vstd::prelude::*;
use crate::memory::{MEMORY_DEVICE_LOCAL, MEMORY_HOST_COHERENT, MEMORY_HOST_VISIBLE};

verus! {

/// `VK_BUFFER_USAGE_TRANSFER_SRC_BIT`.
pub const BUFFER_TRANSFER_SRC: u32 = 0x1;
/// `VK_BUFFER_USAGE_TRANSFER_DST_BIT`.
pub const BUFFER_TRANSFER_DST: u32 = 0x2;
/// `VK_BUFFER_USAGE_UNIFORM_BUFFER_BIT`.
pub const BUFFER_UNIFORM: u32 = 0x10;
/// `VK_BUFFER_USAGE_INDEX_BUFFER_BIT`.
pub const BUFFER_INDEX: u32 = 0x40;
/// `VK_BUFFER_USAGE_VERTEX_BUFFER_BIT`.
pub const BUFFER_VERTEX: u32 = 0x80;

/// The attributes of a vertex, each a 32-bit float.
#[derive(Clone, Copy, PartialEq, Eq, Structural, Debug)]
pub enum VertexLayout {
    /// Position and colour: six floats.
    Simple,
    /// Position, colour and texture coordinates: eight floats.
    Textured,
}

/// A mesh as it is uploaded: the bit patterns of its vertex attributes, one
/// word per float, vertex after vertex, and its 32-bit indices.
#[derive(Clone, Debug)]
pub struct MeshData {
    pub layout: VertexLayout,
    pub vertex_words: Vec<u32>,
    pub indices: Vec<u32>,
}

/// A buffer to create: its size in bytes, usage and memory properties.
#[derive(Clone, Copy, PartialEq, Eq, Structural, Debug)]
pub struct BufferRequest {
    pub size: u64,
    pub usage: u32,
    pub memory_properties: u32,
}

/// The buffers of an upload into device-local memory: a host-visible staging
/// buffer that the data is copied into, and the final buffer that a one-shot
/// transfer fills from it.
#[derive(Clone, Copy, PartialEq, Eq, Structural, Debug)]
pub struct UploadPlan {
    pub staging: BufferRequest,
    pub destination: BufferRequest,
    pub copy_size: u64,
}

/// Why data cannot be uploaded.
#[derive(Clone, Copy, PartialEq, Eq, Structural, Debug)]
pub enum UploadError {
    /// No bytes: a buffer of size zero is invalid.
    Empty,
}

pub open spec fn words_per_vertex(layout: VertexLayout) -> nat {
    match layout {
        VertexLayout::Simple => 6,
        VertexLayout::Textured => 8,
    }
}

impl VertexLayout {
    /// The size of one vertex in bytes.
    pub fn stride(&self) -> (r: u64)
        ensures
            r == 4 * words_per_vertex(*self),
    {
        match self {
            VertexLayout::Simple => 24,
            VertexLayout::Textured => 32,
        }
    }
}

impl MeshData {
    /// The vertex data holds whole vertices and the byte sizes fit in memory.
    pub open spec fn wf(&self) -> bool {
        &&& self.vertex_words@.len() % words_per_vertex(self.layout) == 0
        &&& 4 * self.vertex_words@.len() <= usize::MAX
        &&& 4 * self.indices@.len() <= usize::MAX
    }

    pub open spec fn vertex_count_spec(&self) -> nat {
        self.vertex_words@.len() / words_per_vertex(self.layout)
    }

    /// The number of vertices.
    pub fn vertex_count(&self) -> (r: usize)
        requires
            self.wf(),
        ensures
            r == self.vertex_count_spec(),
    {
        match self.layout {
            VertexLayout::Simple => self.vertex_words.len() / 6,
            VertexLayout::Textured => self.vertex_words.len() / 8,
        }
    }

    /// The byte size of the vertex buffer: vertex count times vertex size.
    pub fn vertices_size(&self) -> (r: u64)
        requires
            self.wf(),
        ensures
            r == self.vertex_count_spec() * (4 * words_per_vertex(self.layout)),
            r == 4 * self.vertex_words@.len(),
    {
        let n = self.vertex_words.len() as u64;
        proof {
            let w = words_per_vertex(self.layout) as int;
            let len = self.vertex_words@.len() as int;
            assert(len == (len / w) * w) by (nonlinear_arith)
                requires
                    w > 0,
                    len % w == 0,
            ;
            assert((len / w) * (4 * w) == 4 * len) by (nonlinear_arith)
                requires
                    len == (len / w) * w,
            ;
        }
        4 * n
    }

    /// The byte size of the index buffer: four bytes per index.
    pub fn indices_size(&self) -> (r: u64)
        requires
            self.wf(),
        ensures
            r == 4 * self.indices@.len(),
    {
        4 * (self.indices.len() as u64)
    }
}

/// Byte `j` of the little-endian encoding of `words`.
pub open spec fn byte_at(words: Seq<u32>, j: int) -> u8 {
    ((words[j / 4] >> (8 * (j % 4)) as u32) & 0xff) as u8
}

/// Word `i` read back from little-endian bytes.
pub open spec fn word_at(bytes: Seq<u8>, i: int) -> u32 {
    (bytes[4 * i] as u32) | ((bytes[4 * i + 1] as u32) << 8u32) | ((bytes[4 * i + 2] as u32) << 16u32) | ((bytes[4 * i + 3] as u32) << 24u32)
}

pub open spec fn encoded(words: Seq<u32>) -> Seq<u8> {
    Seq::new(4 * words.len(), |j: int| byte_at(words, j))
}

pub open spec fn decoded(bytes: Seq<u8>) -> Seq<u32> {
    Seq::new(bytes.len() / 4, |i: int| word_at(bytes, i))
}

proof fn lemma_byte_fits(x: u32, s: u32)
    ensures
        (x >> s) & 0xff <= 0xff,
{
    assert((x >> s) & 0xff <= 0xff) by (bit_vector);
}

proof fn lemma_recompose(x: u32)
    ensures
        ((x >> 0u32) & 0xff) | (((x >> 8u32) & 0xff) << 8u32) | (((x >> 16u32) & 0xff) << 16u32) | (((x >> 24u32) & 0xff) << 24u32) == x,
{
    assert(((x >> 0u32) & 0xff) | (((x >> 8u32) & 0xff) << 8u32) | (((x >> 16u32) & 0xff) << 16u32) | (((x >> 24u32) & 0xff) << 24u32) == x) by (bit_vector);
}

/// The bytes copied into the mapped staging memory: each word in
/// little-endian order, as the device reads 32-bit values.
pub fn encode_words(words: &Vec<u32>) -> (r: Vec<u8>)
    requires
        4 * words@.len() <= usize::MAX,
    ensures
        r@ == encoded(words@),
{
    let mut r: Vec<u8> = Vec::new();
    let mut i: usize = 0;
    while i < words.len()
        invariant
            i <= words@.len(),
            4 * words@.len() <= usize::MAX,
            r@.len() == 4 * i,
            forall|j: int| 0 <= j < 4 * i ==> r@[j] == #[trigger] byte_at(words@, j),
        decreases words@.len() - i,
    {
        let w = words[i];
        proof {
            lemma_byte_fits(w, 0);
            lemma_byte_fits(w, 8);
            lemma_byte_fits(w, 16);
            lemma_byte_fits(w, 24);
        }
        r.push((w & 0xff) as u8);
        r.push(((w >> 8u32) & 0xff) as u8);
        r.push(((w >> 16u32) & 0xff) as u8);
        r.push(((w >> 24u32) & 0xff) as u8);
        proof {
            assert(w >> 0u32 == w) by (bit_vector);
            assert forall|j: int| 4 * i <= j < 4 * i + 4 implies r@[j] == #[trigger] byte_at(words@, j) by {
                assert(j / 4 == i);
                assert(j % 4 == j - 4 * i);
            }
        }
        i += 1;
    }
    assert(r@ =~= encoded(words@));
    r
}

/// Reads 32-bit little-endian words back from bytes; `None` when the bytes
/// do not hold a whole number of words.
pub fn decode_words(bytes: &Vec<u8>) -> (r: Option<Vec<u32>>)
    ensures
        bytes@.len() % 4 != 0 ==> r is None,
        bytes@.len() % 4 == 0 ==> (r matches Some(w) && w@ == decoded(bytes@)),
{
    if bytes.len() % 4 != 0 {
        return None;
    }
    let len = bytes.len();
    let n = len / 4;
    assert(4 * n == len);
    let mut r: Vec<u32> = Vec::new();
    let mut i: usize = 0;
    while i < n
        invariant
            n == bytes@.len() / 4,
            bytes@.len() == 4 * n,
            4 * n <= usize::MAX,
            i <= n,
            r@.len() == i,
            forall|k: int| 0 <= k < i ==> r@[k] == #[trigger] word_at(bytes@, k),
        decreases n - i,
    {
        let b0 = bytes[4 * i] as u32;
        let b1 = bytes[4 * i + 1] as u32;
        let b2 = bytes[4 * i + 2] as u32;
        let b3 = bytes[4 * i + 3] as u32;
        r.push(b0 | (b1 << 8u32) | (b2 << 16u32) | (b3 << 24u32));
        i += 1;
    }
    assert(r@ =~= decoded(bytes@));
    Some(r)
}

/// Reading back the staged bytes gives the words that were staged.
pub proof fn lemma_staging_round_trip(words: Seq<u32>)
    ensures
        encoded(words).len() % 4 == 0,
        decoded(encoded(words)) == words,
{
    let b = encoded(words);
    assert(b.len() == 4 * words.len());
    assert(b.len() / 4 == words.len());
    assert forall|i: int| 0 <= i < words.len() implies #[trigger] word_at(b, i) == words[i] by {
        let x = words[i];
        assert((4 * i) / 4 == i && (4 * i) % 4 == 0);
        assert((4 * i + 1) / 4 == i && (4 * i + 1) % 4 == 1);
        assert((4 * i + 2) / 4 == i && (4 * i + 2) % 4 == 2);
        assert((4 * i + 3) / 4 == i && (4 * i + 3) % 4 == 3);
        lemma_byte_fits(x, 0);
        lemma_byte_fits(x, 8);
        lemma_byte_fits(x, 16);
        lemma_byte_fits(x, 24);
        assert(b[4 * i] == byte_at(words, 4 * i));
        assert(b[4 * i + 1] == byte_at(words, 4 * i + 1));
        assert(b[4 * i + 2] == byte_at(words, 4 * i + 2));
        assert(b[4 * i + 3] == byte_at(words, 4 * i + 3));
        lemma_recompose(x);
    }
    assert(decoded(b) =~= words);
}

pub open spec fn upload_spec(byte_size: u64, usage: u32) -> Result<UploadPlan, UploadError> {
    if byte_size == 0 {
        Err(UploadError::Empty)
    } else {
        Ok(UploadPlan {
            staging: BufferRequest {
                size: byte_size,
                usage: BUFFER_TRANSFER_SRC,
                memory_properties: MEMORY_HOST_VISIBLE | MEMORY_HOST_COHERENT,
            },
            destination: BufferRequest {
                size: byte_size,
                usage: BUFFER_TRANSFER_DST | usage,
                memory_properties: MEMORY_DEVICE_LOCAL,
            },
            copy_size: byte_size,
        })
    }
}

/// The buffers for a write-once upload of `byte_size` bytes into a
/// device-local buffer used as `usage`.
pub fn plan_upload(byte_size: u64, usage: u32) -> (r: Result<UploadPlan, UploadError>)
    ensures
        r == upload_spec(byte_size, usage),
{
    if byte_size == 0 {
        return Err(UploadError::Empty);
    }
    Ok(UploadPlan {
        staging: BufferRequest {
            size: byte_size,
            usage: BUFFER_TRANSFER_SRC,
            memory_properties: MEMORY_HOST_VISIBLE | MEMORY_HOST_COHERENT,
        },
        destination: BufferRequest {
            size: byte_size,
            usage: BUFFER_TRANSFER_DST | usage,
            memory_properties: MEMORY_DEVICE_LOCAL,
        },
        copy_size: byte_size,
    })
}

/// The upload of a mesh's vertices: the staged bytes and the buffers.
pub fn vertex_upload(mesh: &MeshData) -> (r: Result<(Vec<u8>, UploadPlan), UploadError>)
    requires
        mesh.wf(),
    ensures
        mesh.vertex_words@.len() == 0 ==> r == Err::<(Vec<u8>, UploadPlan), UploadError>(UploadError::Empty),
        mesh.vertex_words@.len() > 0 ==> (r matches Ok((bytes, plan))
            && bytes@ == encoded(mesh.vertex_words@)
            && Ok::<UploadPlan, UploadError>(plan) == upload_spec((4 * mesh.vertex_words@.len()) as u64, BUFFER_VERTEX)),
{
    let size = mesh.vertices_size();
    match plan_upload(size, BUFFER_VERTEX) {
        Ok(plan) => Ok((encode_words(&mesh.vertex_words), plan)),
        Err(e) => Err(e),
    }
}

/// The upload of a mesh's indices: the staged bytes and the buffers.
pub fn index_upload(mesh: &MeshData) -> (r: Result<(Vec<u8>, UploadPlan), UploadError>)
    requires
        mesh.wf(),
    ensures
        mesh.indices@.len() == 0 ==> r == Err::<(Vec<u8>, UploadPlan), UploadError>(UploadError::Empty),
        mesh.indices@.len() > 0 ==> (r matches Ok((bytes, plan))
            && bytes@ == encoded(mesh.indices@)
            && Ok::<UploadPlan, UploadError>(plan) == upload_spec((4 * mesh.indices@.len()) as u64, BUFFER_INDEX)),
{
    let size = mesh.indices_size();
    match plan_upload(size, BUFFER_INDEX) {
        Ok(plan) => Ok((encode_words(&mesh.indices), plan)),
        Err(e) => Err(e),
    }
}

} // verus!
