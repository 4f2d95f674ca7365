use vkrender::memory::{MEMORY_DEVICE_LOCAL, MEMORY_HOST_COHERENT, MEMORY_HOST_VISIBLE};
use vkrender::mesh::{assemble_model, MeshError, MeshSource, WHITE_CHANNEL};
use vkrender::staging::{
    decode_words, encode_words, index_upload, plan_upload, vertex_upload, MeshData, UploadError, VertexLayout,
    BUFFER_INDEX, BUFFER_TRANSFER_DST, BUFFER_TRANSFER_SRC, BUFFER_VERTEX,
};

fn round_trip(words: Vec<u32>) {
    let bytes = encode_words(&words);
    assert_eq!(bytes.len(), 4 * words.len());
    let mut expected = Vec::new();
    for w in &words {
        expected.extend_from_slice(&w.to_le_bytes());
    }
    assert_eq!(bytes, expected);
    assert_eq!(decode_words(&bytes), Some(words));
}

#[test]
fn staging_round_trip_one() {
    round_trip(vec![0xdead_beef]);
}

#[test]
fn staging_round_trip_three() {
    round_trip(vec![0, 1, 2]);
    round_trip(vec![1.5f32.to_bits(), (-2.25f32).to_bits(), u32::MAX]);
}

#[test]
fn staging_round_trip_large() {
    round_trip((0..100_000u32).map(|i| i.wrapping_mul(2_654_435_761)).collect());
}

#[test]
fn decode_rejects_partial_word() {
    assert_eq!(decode_words(&vec![1, 2, 3]), None);
    assert_eq!(decode_words(&vec![0x78, 0x56, 0x34, 0x12]), Some(vec![0x1234_5678]));
}

#[test]
fn upload_buffers() {
    let p = plan_upload(96, BUFFER_VERTEX).unwrap();
    assert_eq!(p.staging.size, 96);
    assert_eq!(p.staging.usage, BUFFER_TRANSFER_SRC);
    assert_eq!(p.staging.memory_properties, MEMORY_HOST_VISIBLE | MEMORY_HOST_COHERENT);
    assert_eq!(p.destination.size, 96);
    assert_eq!(p.destination.usage, BUFFER_TRANSFER_DST | BUFFER_VERTEX);
    assert_eq!(p.destination.memory_properties, MEMORY_DEVICE_LOCAL);
    assert_eq!(p.copy_size, 96);
    assert_eq!(plan_upload(0, BUFFER_INDEX), Err(UploadError::Empty));
}

#[test]
fn mesh_sizes_and_uploads() {
    let mesh = MeshData { layout: VertexLayout::Textured, vertex_words: (0..24).collect(), indices: vec![0, 1, 2] };
    assert_eq!(mesh.vertex_count(), 3);
    assert_eq!(mesh.vertices_size(), 96);
    assert_eq!(mesh.indices_size(), 12);
    assert_eq!(VertexLayout::Simple.stride(), 24);
    assert_eq!(VertexLayout::Textured.stride(), 32);
    let (bytes, plan) = vertex_upload(&mesh).unwrap();
    assert_eq!(bytes.len(), 96);
    assert_eq!(decode_words(&bytes), Some(mesh.vertex_words.clone()));
    assert_eq!(plan.destination.usage, BUFFER_TRANSFER_DST | BUFFER_VERTEX);
    let (ibytes, iplan) = index_upload(&mesh).unwrap();
    assert_eq!(ibytes, vec![0, 0, 0, 0, 1, 0, 0, 0, 2, 0, 0, 0]);
    assert_eq!(iplan.destination.usage, BUFFER_TRANSFER_DST | BUFFER_INDEX);
    let empty = MeshData { layout: VertexLayout::Simple, vertex_words: Vec::new(), indices: Vec::new() };
    assert_eq!(vertex_upload(&empty).unwrap_err(), UploadError::Empty);
    assert_eq!(index_upload(&empty).unwrap_err(), UploadError::Empty);
}

fn source(positions: Vec<u32>, texcoords: Vec<u32>, indices: Vec<u32>) -> MeshSource {
    MeshSource { positions, texcoords, indices }
}

#[test]
fn model_from_parsed_meshes() {
    let a = source(vec![1, 2, 3, 4, 5, 6], vec![10, 11, 12, 13], vec![0, 1, 0]);
    let b = source(vec![7, 8, 9], vec![14, 15], vec![0, 0, 0]);
    let m = assemble_model(&vec![a, b]).unwrap();
    assert_eq!(m.layout, VertexLayout::Textured);
    let w = WHITE_CHANNEL;
    assert_eq!(w, 1.0f32.to_bits());
    assert_eq!(
        m.vertex_words,
        vec![1, 2, 3, w, w, w, 10, 11, 4, 5, 6, w, w, w, 12, 13, 7, 8, 9, w, w, w, 14, 15]
    );
    assert_eq!(m.indices, vec![0, 0, 0]);
    assert_eq!(m.vertex_count(), 3);
}

#[test]
fn model_mesh_errors() {
    let no_uv = source(vec![1, 2, 3], Vec::new(), vec![0]);
    assert_eq!(assemble_model(&vec![no_uv]).unwrap_err(), MeshError::MissingTexcoords);
    let short = source(vec![1, 2, 3, 4, 5, 6], vec![1, 2], vec![0]);
    let ok = source(vec![1, 2, 3], vec![1, 2], vec![0]);
    assert_eq!(assemble_model(&vec![ok, short]).unwrap_err(), MeshError::TexcoordsTooShort);
    let empty = assemble_model(&Vec::new()).unwrap();
    assert!(empty.vertex_words.is_empty());
    assert!(empty.indices.is_empty());
}
