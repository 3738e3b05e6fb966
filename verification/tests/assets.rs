//! The fixed-layout asset records: package, resource, texture, actor and
//! collision-mesh headers.
use cftkk::actr::experimental::{ActorInfo, Geometry, Mesh, MeshBatch, MeshPrimitive, SoftSkin, SoftSkinPrimitive};
use cftkk::actr::{ActorGeometry, Color, Index, IndexHeader};
use cftkk::cmes::{Header as CmesHeader, MeshNode, Triangle};
use cftkk::collision_mesh;
use cftkk::gcp::{FileInfo, GcpReader, Header as GcpHeader, Tag};
use cftkk::package::{FileIndex, Header as PackageHeader, ParseError as PackageError, Reader, TagIndex};
use cftkk::resource::{Kind, ResourceInfo};
use cftkk::texr::{Format, Header as TexrHeader, TexrReader};
use cftkk::ParseError;

#[test]
fn color_reads_rgba_in_order() {
    let c = Color::from_bytes(&[10, 20, 30, 40]);
    assert_eq!((c.r, c.g, c.b, c.a), (10, 20, 30, 40));
}

#[test]
fn index_header_reads_two_halfwords() {
    let h = IndexHeader::from_bytes(&[0x12, 0x34, 0x00, 0x05]);
    assert_eq!(h.magic, 0x1234);
    assert_eq!(h.count, 5);
}

#[test]
fn index_selects_layout_by_width() {
    let plain = Index::from_bytes(&[0, 1, 0, 2, 0, 3, 0, 4]);
    assert_eq!(
        (plain.pos_idx, plain.normal_idx, plain.color_idx, plain.texcoord_idx, plain.tag),
        (1, 2, 3, 4, 0)
    );
    let tagged = Index::from_bytes(&[0, 1, 0, 2, 0, 3, 0, 4, 9]);
    assert_eq!(tagged.tag, 9);
    let wide = Index::from_bytes(&[0, 7, 0, 1, 0, 2, 0, 0, 0, 3, 0, 4, 0, 0, 0, 0]);
    assert_eq!(
        (wide.unk1, wide.pos_idx, wide.normal_idx, wide.color_idx, wide.texcoord_idx),
        (7, 1, 2, 3, 4)
    );
}

#[test]
fn actor_geometry_reads_its_three_words() {
    let mut bytes = [0u8; 0x40];
    bytes[0x30..0x34].copy_from_slice(&42u32.to_be_bytes());
    bytes[0x38..0x3C].copy_from_slice(&0x100u32.to_be_bytes());
    bytes[0x3C..0x40].copy_from_slice(&0x200u32.to_be_bytes());
    let g = ActorGeometry::from_bytes(&bytes);
    assert_eq!(g.node_count, 42);
    assert_eq!(g.index_buffer_offset, 0x100);
    assert_eq!(g.node_offset, 0x200);
}

#[test]
fn soft_skin_and_mesh_read_their_offsets() {
    let mut bytes = [0u8; 0x80];
    bytes[0..4].copy_from_slice(&9u32.to_be_bytes());
    bytes[48] = 4;
    bytes[50..52].copy_from_slice(&0xABCDu16.to_be_bytes());
    bytes[96..100].copy_from_slice(&0x77u32.to_be_bytes());
    let s = SoftSkin::from_bytes(&bytes);
    assert_eq!(s.number_of_vertices, 9);
    assert_eq!(s.bones_per_pertex, 4);
    assert_eq!(s.flags, 0xABCD);
    assert_eq!(s.vertex_normal_extra_offset, 0x77);

    let mut bytes = [0u8; 0x70];
    bytes[8..12].copy_from_slice(&(-3i32).to_be_bytes());
    bytes[104..108].copy_from_slice(&0x55u32.to_be_bytes());
    let m = Mesh::from_bytes(&bytes);
    assert_eq!(m.number_of_batches, -3);
    assert_eq!(m.display_segments_offset, 0x55);
}

#[test]
fn primitives_and_batches_read_their_fields() {
    let b = MeshBatch::from_bytes(&[
        0, 0, 0, 7, 0, 0, 0, 1, 0, 0, 0, 2, 0, 0, 0, 3,
    ]);
    assert_eq!(b.number_of_primitives, 7);
    assert_eq!(b.texture_1_crc, 1);
    assert_eq!(b.texture_2_crc, 2);
    assert_eq!(b.flags, 3);

    let p = MeshPrimitive::from_bytes(&[5, 1, 0, 9, 0, 2, 0, 0]);
    assert_eq!(p.primtive_type, 5);
    assert_eq!(p.number_of_vertices, 9);
    assert_eq!(p.number_of_draw_primitives, 2);

    let sp = SoftSkinPrimitive::from_bytes(&[
        5, 1, 0, 9, 3, 2, 0, 0, 10, 11, 12, 13, 14, 15, 16, 17, 18, 19,
    ]);
    assert_eq!(sp.number_of_matricies, 3);
    assert_eq!(sp.matrix_indices, [10, 11, 12, 13, 14, 15, 16, 17, 18, 19]);
}

#[test]
fn actor_info_composes_mesh_and_geometry() {
    let mut bytes = [0u8; 0x90];
    bytes[0..4].copy_from_slice(&6u32.to_be_bytes());
    bytes[0x70..0x74].copy_from_slice(&11i32.to_be_bytes());
    bytes[0x74..0x78].copy_from_slice(&22i32.to_be_bytes());
    let info = ActorInfo::from_bytes(&bytes);
    assert_eq!(info.mesh.number_of_vertices, 6);
    assert_eq!(info.geometry.number_of_vertices, 11);
    assert_eq!(info.geometry.number_of_triangles, 22);
    let g = Geometry::from_bytes(&bytes[0x70..]);
    assert_eq!(g.number_of_vertices, 11);
}

#[test]
fn cmes_records_read_big_endian() {
    let t = Triangle::from_bytes(&[0, 1, 0, 2, 0, 3, 0, 4, 0, 0, 0, 0, 0, 0, 0, 0]);
    assert_eq!((t.x_idx, t.y_idx, t.z_idx, t.normal_idx), (1, 2, 3, 4));
    let n = MeshNode::from_bytes(&[0, 0, 0, 5, 0, 0, 0, 6, 0, 0, 0, 7]);
    assert_eq!(n.data, (5, 6, 7));
}

#[test]
fn collision_mesh_kind_rejects_unknown_words() {
    assert!(matches!(collision_mesh::Kind::try_from(0), Ok(collision_mesh::Kind::Cell)));
    assert!(matches!(collision_mesh::Kind::try_from(2), Ok(collision_mesh::Kind::Heirarchy)));
    assert!(matches!(collision_mesh::Kind::try_from(3), Err(())));
}

#[test]
fn gcp_tag_recognizes_known_names() {
    assert_eq!(Tag::from_bytes(b"TEXR"), Tag::Texture);
    assert_eq!(Tag::from_bytes(b"SET "), Tag::AssetSet);
    assert_eq!(Tag::from_bytes(b"ASTR"), Tag::AudioStream);
    assert_eq!(Tag::from_bytes(b"_STR"), Tag::AudioStream);
    assert_eq!(Tag::from_bytes(b"@STR"), Tag::AudioStream);
    assert_eq!(Tag::from_bytes(b"????"), Tag::NoTag);
}

#[test]
fn gcp_file_info_reads_both_forms() {
    let mut bytes = [0u8; 32];
    bytes[0..4].copy_from_slice(&0x10u32.to_be_bytes());
    bytes[4..8].copy_from_slice(&0xCAFEu32.to_be_bytes());
    bytes[8..12].copy_from_slice(&0x80u32.to_be_bytes());
    bytes[16..20].copy_from_slice(&1u32.to_be_bytes());
    let a = FileInfo::from_bytes(&bytes);
    let b = FileInfo::from_be_bytes(bytes);
    assert_eq!(a, b);
    assert_eq!(a.data_offset, 0x10);
    assert_eq!(a.crc, 0xCAFE);
    assert_eq!(a.file_size, 0x80);
    assert!(a.is_local);
}

#[test]
fn gcp_header_rejects_zero_counts() {
    let mut bytes = [0u8; 64];
    bytes[4..8].copy_from_slice(&0x800u32.to_be_bytes());
    assert!(matches!(GcpHeader::from_bytes(&bytes), Err(ParseError::ZeroFiles)));
    bytes[12..16].copy_from_slice(&2u32.to_be_bytes());
    assert!(matches!(GcpHeader::from_bytes(&bytes), Err(ParseError::ZeroStrings)));
    bytes[44..48].copy_from_slice(&0x40u32.to_be_bytes());
    let h = GcpHeader::from_bytes(&bytes).unwrap();
    assert_eq!(h.align_offset, 0x800);
    assert_eq!(h.file_info_count, 2);
    assert_eq!(h.string_table_size, 0x40);
}

#[test]
fn package_header_rejects_zero_file_count() {
    let bytes = [0u8; 64];
    assert!(matches!(
        PackageHeader::from_bytes(&bytes),
        Err(PackageError::ZeroFileCount)
    ));
    let mut bytes = [0u8; 64];
    bytes[12..16].copy_from_slice(&3i32.to_be_bytes());
    bytes[56..60].copy_from_slice(&9u32.to_be_bytes());
    let h = PackageHeader::from_bytes(&bytes).unwrap();
    assert_eq!(h.file_count, 3);
    assert_eq!(h.build_number, 9);
}

#[test]
fn package_index_records_read_big_endian() {
    let mut bytes = [0u8; 32];
    bytes[0..4].copy_from_slice(&(-1i32).to_be_bytes());
    bytes[24..32].copy_from_slice(&0x0102_0304_0506_0708u64.to_be_bytes());
    let f = FileIndex::from_bytes(&bytes);
    assert_eq!(f.offset, -1);
    assert_eq!(f.file_time, 0x0102_0304_0506_0708);

    let t = TagIndex::from_bytes(b".EXT");
    assert_eq!(t.tag, (b'.', b'E', b'X', b'T'));
}

#[test]
fn resource_info_rejects_unknown_kind_byte() {
    let mut bytes = [0u8; 32];
    bytes[6] = 200;
    assert!(matches!(ResourceInfo::from_bytes(&bytes), Err(())));
    bytes[6] = 7;
    bytes[12..16].copy_from_slice(&0xFACEu32.to_be_bytes());
    let r = ResourceInfo::from_bytes(&bytes).unwrap();
    assert!(matches!(r.resource_kind, Kind::CollisionMesh));
    assert_eq!(r.crc, 0xFACE);
}

#[test]
fn resource_kind_covers_every_type_byte() {
    assert!(matches!(Kind::try_from(0), Ok(Kind::Texture)));
    assert!(matches!(Kind::try_from(6), Ok(Kind::AssetSet)));
    assert!(matches!(Kind::try_from(20), Ok(Kind::PixelShader)));
    assert!(matches!(Kind::try_from(255), Ok(Kind::NoKind)));
    assert!(matches!(Kind::try_from(21), Err(())));
}

#[test]
fn texture_format_table_is_exact() {
    assert_eq!(Format::new(0xF), Format::Rgba8);
    assert_eq!(Format::new(0x15), Format::Cmpr);
    assert_eq!(Format::new(0x99), Format::I8);
    assert_eq!(Format::Rgba8.bits_per_pixel(), 32);
    assert_eq!(Format::Cmpr.bits_per_pixel(), 4);
    assert_eq!(Format::Ci8Rgb565.bits_per_pixel(), 8);
    assert_eq!(Format::Rgba8.block_dimensions(), (4, 4));
    assert_eq!(Format::Ci4Rgb5a3.block_dimensions(), (8, 8));
    assert_eq!(Format::I8.block_dimensions(), (8, 4));
}

#[test]
fn texture_header_rejects_zero_fields_in_order() {
    let mut bytes = [0u8; 0x80];
    assert!(matches!(TexrHeader::from_bytes(&bytes), Err(ParseError::ZeroWidth)));
    bytes[0x20..0x24].copy_from_slice(&64u32.to_be_bytes());
    assert!(matches!(TexrHeader::from_bytes(&bytes), Err(ParseError::ZeroHeight)));
    bytes[0x24..0x28].copy_from_slice(&32u32.to_be_bytes());
    assert!(matches!(TexrHeader::from_bytes(&bytes), Err(ParseError::ZeroSize)));
    bytes[0x38..0x3C].copy_from_slice(&0x1000u32.to_be_bytes());
    assert!(matches!(TexrHeader::from_bytes(&bytes), Err(ParseError::ZeroOffset)));
    bytes[0x70..0x74].copy_from_slice(&0x80u32.to_be_bytes());
    bytes[0x74..0x78].copy_from_slice(&0x1080u32.to_be_bytes());
    bytes[0x28..0x2C].copy_from_slice(&0x15u32.to_be_bytes());
    let h = TexrHeader::from_bytes(&bytes).unwrap();
    assert_eq!(h.width, 64);
    assert_eq!(h.height, 32);
    assert_eq!(h.texr_format, Format::Cmpr);
    assert!(h.should_mipmap);
    assert_eq!(h.img_end_offset, 0x1080);
}

#[test]
fn cmes_header_rejects_zero_tables() {
    let mut bytes = [0u8; 140];
    assert!(matches!(CmesHeader::from_bytes(&bytes), Err(ParseError::ZeroOffset)));
    bytes[0x60..0x64].copy_from_slice(&0x100u32.to_be_bytes());
    bytes[0x64..0x68].copy_from_slice(&0x200u32.to_be_bytes());
    bytes[0x68..0x6C].copy_from_slice(&0x300u32.to_be_bytes());
    bytes[0x6C..0x70].copy_from_slice(&0x400u32.to_be_bytes());
    assert!(matches!(CmesHeader::from_bytes(&bytes), Err(ParseError::ZeroVertices)));
    bytes[0x80..0x84].copy_from_slice(&3u32.to_be_bytes());
    assert!(matches!(CmesHeader::from_bytes(&bytes), Err(ParseError::ZeroNormals)));
    bytes[0x84..0x88].copy_from_slice(&2u32.to_be_bytes());
    assert!(matches!(CmesHeader::from_bytes(&bytes), Err(ParseError::ZeroTriangles)));
    bytes[0x88..0x8C].copy_from_slice(&1u32.to_be_bytes());
    let h = CmesHeader::from_bytes(&bytes).unwrap();
    assert_eq!(h.vertices_offset, 0x100);
    assert_eq!(h.triangle_count, 1);
}

#[test]
fn gcp_reader_checks_its_tables() {
    let mut bytes = vec![0u8; 0x100];
    bytes[4..8].copy_from_slice(&1u32.to_be_bytes()); // alignment unit
    bytes[12..16].copy_from_slice(&2u32.to_be_bytes()); // two files
    bytes[16..20].copy_from_slice(&0x40u32.to_be_bytes()); // file info at 0x40
    bytes[20..24].copy_from_slice(&0x80u32.to_be_bytes()); // tags at 0x80
    bytes[24..28].copy_from_slice(&4u32.to_be_bytes()); // four tags
    bytes[40..44].copy_from_slice(&0x90u32.to_be_bytes()); // strings at 0x90
    bytes[44..48].copy_from_slice(&0x20u32.to_be_bytes()); // string table size
    let reader = GcpReader::new(&bytes).unwrap();
    assert_eq!(reader.header().file_info_count, 2);

    // a string table running past the buffer is rejected
    bytes[44..48].copy_from_slice(&0x100u32.to_be_bytes());
    assert!(matches!(GcpReader::new(&bytes), Err(ParseError::UnexpectedEnd)));
    assert!(matches!(GcpReader::new(&bytes[..32]), Err(ParseError::UnexpectedEnd)));
}

#[test]
fn texr_reader_checks_its_regions() {
    let mut bytes = vec![0u8; 0x200];
    bytes[0x20..0x24].copy_from_slice(&8u32.to_be_bytes());
    bytes[0x24..0x28].copy_from_slice(&8u32.to_be_bytes());
    bytes[0x38..0x3C].copy_from_slice(&0x40u32.to_be_bytes());
    bytes[0x6C..0x70].copy_from_slice(&0x90u32.to_be_bytes()); // lookup table
    bytes[0x70..0x74].copy_from_slice(&0xA0u32.to_be_bytes()); // image start
    bytes[0x74..0x78].copy_from_slice(&0xE0u32.to_be_bytes()); // image end
    let reader = TexrReader::new(&bytes).unwrap();
    assert_eq!(reader.data().len(), 0x200);
    assert_eq!(reader.texture_lookup_data().unwrap().len(), 0x10);
    assert_eq!(reader.image_data().unwrap().len(), 0x40);

    // a lookup table past the image start is rejected
    bytes[0x6C..0x70].copy_from_slice(&0xB0u32.to_be_bytes());
    assert!(matches!(TexrReader::new(&bytes), Err(ParseError::UnexpectedEnd)));
}

#[test]
fn package_reader_checks_its_regions() {
    let mut bytes = vec![0u8; 0x100];
    bytes[4..8].copy_from_slice(&1u32.to_be_bytes()); // offset unit
    bytes[12..16].copy_from_slice(&1i32.to_be_bytes()); // one file
    bytes[16..20].copy_from_slice(&0x40u32.to_be_bytes()); // index offset
    bytes[48..52].copy_from_slice(&0x20u32.to_be_bytes()); // index size
    bytes[20..24].copy_from_slice(&0x60u32.to_be_bytes()); // tag offset
    bytes[24..28].copy_from_slice(&2i32.to_be_bytes()); // two tags
    bytes[32..36].copy_from_slice(&0x70u32.to_be_bytes()); // block map offset
    bytes[36..40].copy_from_slice(&0x10u32.to_be_bytes()); // block map size
    bytes[40..44].copy_from_slice(&0x80u32.to_be_bytes()); // name table offset
    bytes[44..48].copy_from_slice(&0x20u32.to_be_bytes()); // name table size
    let reader = Reader::new(&bytes).unwrap();
    assert_eq!(reader.header().file_count, 1);
    assert_eq!(reader.filename_table().unwrap().len(), 0x20);

    // a negative tag count is rejected, not a panic
    bytes[24..28].copy_from_slice(&(-1i32).to_be_bytes());
    assert!(matches!(Reader::new(&bytes), Err(PackageError::UnexpectedEnd)));
}

#[test]
fn batch_and_segment_tables_are_bounds_checked() {
    let mut soft = [0u8; 0x80];
    soft[8..12].copy_from_slice(&2u32.to_be_bytes()); // two batches
    soft[12..16].copy_from_slice(&8u32.to_be_bytes()); // batch table at 8
    soft[52..56].copy_from_slice(&0u32.to_be_bytes()); // segments at 0
    let s = SoftSkin::from_bytes(&soft);

    let mut buffer = vec![0u8; 8 + 32];
    buffer[8..12].copy_from_slice(&5i32.to_be_bytes());
    buffer[24..28].copy_from_slice(&6i32.to_be_bytes());
    let batches = s.batches_from_buffer(&buffer).unwrap();
    assert_eq!(batches.len(), 2);
    assert_eq!(batches[0].number_of_primitives, 5);
    assert_eq!(batches[1].number_of_primitives, 6);
    // a table running past the buffer is refused, not a panic
    assert!(s.batches_from_buffer(&buffer[..16]).is_none());

    buffer[0..4].copy_from_slice(&0x30u32.to_be_bytes());
    buffer[4..8].copy_from_slice(&0x10u32.to_be_bytes());
    let segs = s.display_segments_from_buffer(&buffer).unwrap();
    assert_eq!(segs[0], (0x30, 0x10));

    let mut mesh = [0u8; 0x70];
    mesh[8..12].copy_from_slice(&(-1i32).to_be_bytes()); // negative batch count
    let m = Mesh::from_bytes(&mesh);
    assert!(m.batches_from_buffer(&buffer).is_none());
}
