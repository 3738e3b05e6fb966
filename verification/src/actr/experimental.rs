//! The newer actor-header layouts: the soft-skin and rigid-mesh headers and
//! their batch and primitive descriptors.
use crate::byteread::{be16_at, be32_at, i32_be_at, u16_be_at, u32_be_at, u8_at};
use vstd::prelude::*;

verus! {

/// The resource bookkeeping record embedded at the head of an actor.
#[derive(Copy, Clone, Debug, PartialEq)]
pub struct ResourceInfo {
    pub package_id: u32,
    pub group_id: u16,
    pub kind: u8,
    pub context_offset: u32,
    pub crc: u32,
    pub child_1_resource_offset: u32,
    pub child_2_resource_offset: u32,
    pub parent_resource_offset: u32,
}

impl ResourceInfo {
    /// Number of bytes this record occupies.
    pub const SIZE: usize = 32;

    /// The decoded record: each field read big-endian at its offset.
    pub open spec fn spec_value(d: Seq<u8>) -> ResourceInfo
        recommends
            d.len() >= 32,
    {
        (ResourceInfo {
            package_id: be32_at(d, 0),
            group_id: be16_at(d, 4),
            kind: d[6],
            context_offset: be32_at(d, 8),
            crc: be32_at(d, 12),
            child_1_resource_offset: be32_at(d, 16),
            child_2_resource_offset: be32_at(d, 20),
            parent_resource_offset: be32_at(d, 24),
        })
    }

    /// Decodes the record from the start of `data`.
    pub fn from_bytes(data: &[u8]) -> (r: Self)
        requires
            data@.len() >= 32,
        ensures
            r == Self::spec_value(data@),
    {
        ResourceInfo {
            package_id: u32_be_at(data, 0),
            group_id: u16_be_at(data, 4),
            kind: u8_at(data, 6),
            context_offset: u32_be_at(data, 8),
            crc: u32_be_at(data, 12),
            child_1_resource_offset: u32_be_at(data, 16),
            child_2_resource_offset: u32_be_at(data, 20),
            parent_resource_offset: u32_be_at(data, 24),
        }
    }
}
/// The soft-skin header of an actor: vertex, batch and display-list
/// locations inside the actor buffer.
#[derive(Copy, Clone, Debug, PartialEq)]
pub struct SoftSkin {
    pub number_of_vertices: u32,
    pub vertex_offset: u32,
    pub number_of_batches: u32,
    pub batch_offset: u32,
    pub batch_primitive_offset: u32,
    pub number_of_solid_batches: u32,
    pub number_of_color_key_batches: u32,
    pub number_of_alpha_batches: u32,
    pub first_color_key_primitive_offset: i32,
    pub first_alpha_primitive_offset: i32,
    pub first_color_key_primitive_vertex_offset: i32,
    pub first_alpha_primitive_vertex_offset: i32,
    pub bones_per_pertex: u8,
    pub flags: u16,
    pub display_segment_offset: u32,
    pub display_list_offset: u32,
    pub display_list_size: u32,
    pub position_offset: u32,
    pub normal_offset: u32,
    pub texture_coord_offset: u32,
    pub color_offset: u32,
    pub position_count: u32,
    pub normal_count: u32,
    pub morph_target_offset: u32,
    pub patch_offset: u32,
    pub vertex_normal_extra_offset: u32,
}

impl SoftSkin {
    /// Number of bytes this record occupies.
    pub const SIZE: usize = 128;

    /// The decoded record: each field read big-endian at its offset.
    pub open spec fn spec_value(d: Seq<u8>) -> SoftSkin
        recommends
            d.len() >= 128,
    {
        (SoftSkin {
            number_of_vertices: be32_at(d, 0),
            vertex_offset: be32_at(d, 4),
            number_of_batches: be32_at(d, 8),
            batch_offset: be32_at(d, 12),
            batch_primitive_offset: be32_at(d, 16),
            number_of_solid_batches: be32_at(d, 20),
            number_of_color_key_batches: be32_at(d, 24),
            number_of_alpha_batches: be32_at(d, 28),
            first_color_key_primitive_offset: be32_at(d, 32) as i32,
            first_alpha_primitive_offset: be32_at(d, 36) as i32,
            first_color_key_primitive_vertex_offset: be32_at(d, 40) as i32,
            first_alpha_primitive_vertex_offset: be32_at(d, 44) as i32,
            bones_per_pertex: d[48],
            flags: be16_at(d, 50),
            display_segment_offset: be32_at(d, 52),
            display_list_offset: be32_at(d, 56),
            display_list_size: be32_at(d, 60),
            position_offset: be32_at(d, 64),
            normal_offset: be32_at(d, 68),
            texture_coord_offset: be32_at(d, 72),
            color_offset: be32_at(d, 76),
            position_count: be32_at(d, 80),
            normal_count: be32_at(d, 84),
            morph_target_offset: be32_at(d, 88),
            patch_offset: be32_at(d, 92),
            vertex_normal_extra_offset: be32_at(d, 96),
        })
    }

    /// Decodes the record from the start of `data`.
    pub fn from_bytes(data: &[u8]) -> (r: Self)
        requires
            data@.len() >= 128,
        ensures
            r == Self::spec_value(data@),
    {
        SoftSkin {
            number_of_vertices: u32_be_at(data, 0),
            vertex_offset: u32_be_at(data, 4),
            number_of_batches: u32_be_at(data, 8),
            batch_offset: u32_be_at(data, 12),
            batch_primitive_offset: u32_be_at(data, 16),
            number_of_solid_batches: u32_be_at(data, 20),
            number_of_color_key_batches: u32_be_at(data, 24),
            number_of_alpha_batches: u32_be_at(data, 28),
            first_color_key_primitive_offset: i32_be_at(data, 32),
            first_alpha_primitive_offset: i32_be_at(data, 36),
            first_color_key_primitive_vertex_offset: i32_be_at(data, 40),
            first_alpha_primitive_vertex_offset: i32_be_at(data, 44),
            bones_per_pertex: u8_at(data, 48),
            flags: u16_be_at(data, 50),
            display_segment_offset: u32_be_at(data, 52),
            display_list_offset: u32_be_at(data, 56),
            display_list_size: u32_be_at(data, 60),
            position_offset: u32_be_at(data, 64),
            normal_offset: u32_be_at(data, 68),
            texture_coord_offset: u32_be_at(data, 72),
            color_offset: u32_be_at(data, 76),
            position_count: u32_be_at(data, 80),
            normal_count: u32_be_at(data, 84),
            morph_target_offset: u32_be_at(data, 88),
            patch_offset: u32_be_at(data, 92),
            vertex_normal_extra_offset: u32_be_at(data, 96),
        }
    }
}
/// The rigid-mesh header of an actor: vertex, batch, shadow-volume and
/// display-list locations inside the actor buffer.
#[derive(Copy, Clone, Debug, PartialEq)]
pub struct Mesh {
    pub number_of_vertices: u32,
    pub vertext_offset: u32,
    pub number_of_batches: i32,
    pub batch_offset: u32,
    pub primitive_offset: u32,
    pub number_of_solid_batches: u32,
    pub number_of_color_key_batches: u32,
    pub number_of_alpha_batches: u32,
    pub first_color_key_primitive: i32,
    pub first_alpha_primitive: i32,
    pub first_color_key_primitive_vertex: i32,
    pub first_alpha_primitive_vertex: i32,
    pub shadow_volume_vertex_offset: u32,
    pub shadow_volume_face_offset: u32,
    pub shadow_volume_edge_offset: u32,
    pub number_of_shadow_volume_faces: i32,
    pub shadow_volume_edge_flags_offset: u32,
    pub number_of_shadow_volume_edge: i32,
    pub number_of_shadow_volume_vertices: i32,
    pub flags: u32,
    pub position_offset: u32,
    pub normal_offset: u32,
    pub texture_coord_offset: u32,
    pub color_offset: u32,
    pub display_list_offset: u32,
    pub display_list_size: u32,
    pub display_segments_offset: u32,
}

impl Mesh {
    /// Number of bytes this record occupies.
    pub const SIZE: usize = 112;

    /// The decoded record: each field read big-endian at its offset.
    pub open spec fn spec_value(d: Seq<u8>) -> Mesh
        recommends
            d.len() >= 112,
    {
        (Mesh {
            number_of_vertices: be32_at(d, 0),
            vertext_offset: be32_at(d, 4),
            number_of_batches: be32_at(d, 8) as i32,
            batch_offset: be32_at(d, 12),
            primitive_offset: be32_at(d, 16),
            number_of_solid_batches: be32_at(d, 20),
            number_of_color_key_batches: be32_at(d, 24),
            number_of_alpha_batches: be32_at(d, 28),
            first_color_key_primitive: be32_at(d, 32) as i32,
            first_alpha_primitive: be32_at(d, 36) as i32,
            first_color_key_primitive_vertex: be32_at(d, 40) as i32,
            first_alpha_primitive_vertex: be32_at(d, 44) as i32,
            shadow_volume_vertex_offset: be32_at(d, 48),
            shadow_volume_face_offset: be32_at(d, 52),
            shadow_volume_edge_offset: be32_at(d, 56),
            number_of_shadow_volume_faces: be32_at(d, 60) as i32,
            shadow_volume_edge_flags_offset: be32_at(d, 64),
            number_of_shadow_volume_edge: be32_at(d, 68) as i32,
            number_of_shadow_volume_vertices: be32_at(d, 72) as i32,
            flags: be32_at(d, 76),
            position_offset: be32_at(d, 80),
            normal_offset: be32_at(d, 84),
            texture_coord_offset: be32_at(d, 88),
            color_offset: be32_at(d, 92),
            display_list_offset: be32_at(d, 96),
            display_list_size: be32_at(d, 100),
            display_segments_offset: be32_at(d, 104),
        })
    }

    /// Decodes the record from the start of `data`.
    pub fn from_bytes(data: &[u8]) -> (r: Self)
        requires
            data@.len() >= 112,
        ensures
            r == Self::spec_value(data@),
    {
        Mesh {
            number_of_vertices: u32_be_at(data, 0),
            vertext_offset: u32_be_at(data, 4),
            number_of_batches: i32_be_at(data, 8),
            batch_offset: u32_be_at(data, 12),
            primitive_offset: u32_be_at(data, 16),
            number_of_solid_batches: u32_be_at(data, 20),
            number_of_color_key_batches: u32_be_at(data, 24),
            number_of_alpha_batches: u32_be_at(data, 28),
            first_color_key_primitive: i32_be_at(data, 32),
            first_alpha_primitive: i32_be_at(data, 36),
            first_color_key_primitive_vertex: i32_be_at(data, 40),
            first_alpha_primitive_vertex: i32_be_at(data, 44),
            shadow_volume_vertex_offset: u32_be_at(data, 48),
            shadow_volume_face_offset: u32_be_at(data, 52),
            shadow_volume_edge_offset: u32_be_at(data, 56),
            number_of_shadow_volume_faces: i32_be_at(data, 60),
            shadow_volume_edge_flags_offset: u32_be_at(data, 64),
            number_of_shadow_volume_edge: i32_be_at(data, 68),
            number_of_shadow_volume_vertices: i32_be_at(data, 72),
            flags: u32_be_at(data, 76),
            position_offset: u32_be_at(data, 80),
            normal_offset: u32_be_at(data, 84),
            texture_coord_offset: u32_be_at(data, 88),
            color_offset: u32_be_at(data, 92),
            display_list_offset: u32_be_at(data, 96),
            display_list_size: u32_be_at(data, 100),
            display_segments_offset: u32_be_at(data, 104),
        }
    }
}
/// One display-list part header: the draw command and its vertex count.
#[derive(Copy, Clone, Debug, PartialEq)]
pub struct DisplayListPart {
    pub cmd: u16,
    pub vertex_count: u16,
}

impl DisplayListPart {
    /// Number of bytes this record occupies.
    pub const LENGTH: usize = 4;

    /// The decoded record: each field read big-endian at its offset.
    pub open spec fn spec_value(d: Seq<u8>) -> DisplayListPart
        recommends
            d.len() >= 4,
    {
        (DisplayListPart {
            cmd: be16_at(d, 0),
            vertex_count: be16_at(d, 2),
        })
    }

    /// Decodes the record from the start of `data`.
    pub fn from_bytes(data: &[u8]) -> (r: Self)
        requires
            data@.len() >= 4,
        ensures
            r == Self::spec_value(data@),
    {
        DisplayListPart {
            cmd: u16_be_at(data, 0),
            vertex_count: u16_be_at(data, 2),
        }
    }
}
/// One mesh batch: its primitive count and the textures it binds.
#[derive(Copy, Clone, Debug, PartialEq)]
pub struct MeshBatch {
    pub number_of_primitives: i32,
    pub texture_1_crc: u32,
    pub texture_2_crc: u32,
    pub flags: u32,
}

impl MeshBatch {
    /// Number of bytes this record occupies.
    pub const SIZE: usize = 16;

    /// The decoded record: each field read big-endian at its offset.
    pub open spec fn spec_value(d: Seq<u8>) -> MeshBatch
        recommends
            d.len() >= 16,
    {
        (MeshBatch {
            number_of_primitives: be32_at(d, 0) as i32,
            texture_1_crc: be32_at(d, 4),
            texture_2_crc: be32_at(d, 8),
            flags: be32_at(d, 12),
        })
    }

    /// Decodes the record from the start of `data`.
    pub fn from_bytes(data: &[u8]) -> (r: Self)
        requires
            data@.len() >= 16,
        ensures
            r == Self::spec_value(data@),
    {
        MeshBatch {
            number_of_primitives: i32_be_at(data, 0),
            texture_1_crc: u32_be_at(data, 4),
            texture_2_crc: u32_be_at(data, 8),
            flags: u32_be_at(data, 12),
        }
    }
}
/// One rigid-mesh primitive descriptor.
#[derive(Copy, Clone, Debug, PartialEq)]
pub struct MeshPrimitive {
    pub primtive_type: u8,
    pub flags: u8,
    pub number_of_vertices: u16,
    pub number_of_draw_primitives: u16,
}

impl MeshPrimitive {
    /// Number of bytes this record occupies.
    pub const SIZE: usize = 8;

    /// The decoded record: each field read big-endian at its offset.
    pub open spec fn spec_value(d: Seq<u8>) -> MeshPrimitive
        recommends
            d.len() >= 8,
    {
        (MeshPrimitive {
            primtive_type: d[0],
            flags: d[1],
            number_of_vertices: be16_at(d, 2),
            number_of_draw_primitives: be16_at(d, 4),
        })
    }

    /// Decodes the record from the start of `data`.
    pub fn from_bytes(data: &[u8]) -> (r: Self)
        requires
            data@.len() >= 8,
        ensures
            r == Self::spec_value(data@),
    {
        MeshPrimitive {
            primtive_type: u8_at(data, 0),
            flags: u8_at(data, 1),
            number_of_vertices: u16_be_at(data, 2),
            number_of_draw_primitives: u16_be_at(data, 4),
        }
    }
}
/// One soft-skin primitive descriptor, with its bone matrix palette.
#[derive(Copy, Clone, Debug, PartialEq)]
pub struct SoftSkinPrimitive {
    pub primtive_type: u8,
    pub flags: u8,
    pub number_of_vertices: u16,
    pub number_of_matricies: u8,
    pub number_of_draw_primitives: u8,
    pub matrix_indices: [u8; 10],
}

impl SoftSkinPrimitive {
    /// Number of bytes this record occupies.
    pub const SIZE: usize = 0x12;

    /// Decodes the record from the start of `bytes`.
    pub fn from_bytes(bytes: &[u8]) -> (r: Self)
        requires
            bytes@.len() >= 0x12,
        ensures
            r.primtive_type == bytes@[0],
            r.flags == bytes@[1],
            r.number_of_vertices == be16_at(bytes@, 2),
            r.number_of_matricies == bytes@[4],
            r.number_of_draw_primitives == bytes@[5],
            r.matrix_indices@ == bytes@.subrange(8, 18),
    {
        let matrix_indices: [u8; 10] = [
            u8_at(bytes, 8),
            u8_at(bytes, 9),
            u8_at(bytes, 10),
            u8_at(bytes, 11),
            u8_at(bytes, 12),
            u8_at(bytes, 13),
            u8_at(bytes, 14),
            u8_at(bytes, 15),
            u8_at(bytes, 16),
            u8_at(bytes, 17),
        ];
        proof {
            assert(matrix_indices@ =~= bytes@.subrange(8, 18));
        }
        SoftSkinPrimitive {
            primtive_type: u8_at(bytes, 0),
            flags: u8_at(bytes, 1),
            number_of_vertices: u16_be_at(bytes, 2),
            number_of_matricies: u8_at(bytes, 4),
            number_of_draw_primitives: u8_at(bytes, 5),
            matrix_indices,
        }
    }
}

/// The geometry counts and data-stream locations of one actor node.
#[derive(Copy, Clone, Debug, PartialEq)]
pub struct Geometry {
    pub number_of_vertices: i32,
    pub number_of_triangles: i32,
    pub data_stream_1_offset: u32,
    pub data_stream_2_offset: u32,
    pub data_stream_3_offset: u32,
    pub data_stream_4_offset: u32,
}

impl Geometry {
    /// Number of bytes this record occupies.
    pub const SIZE: usize = 32;

    /// The decoded record: each field read big-endian at its offset.
    pub open spec fn spec_value(d: Seq<u8>) -> Geometry
        recommends
            d.len() >= 32,
    {
        (Geometry {
            number_of_vertices: be32_at(d, 0) as i32,
            number_of_triangles: be32_at(d, 4) as i32,
            data_stream_1_offset: be32_at(d, 16),
            data_stream_2_offset: be32_at(d, 20),
            data_stream_3_offset: be32_at(d, 24),
            data_stream_4_offset: be32_at(d, 28),
        })
    }

    /// Decodes the record from the start of `data`.
    pub fn from_bytes(data: &[u8]) -> (r: Self)
        requires
            data@.len() >= 32,
        ensures
            r == Self::spec_value(data@),
    {
        Geometry {
            number_of_vertices: i32_be_at(data, 0),
            number_of_triangles: i32_be_at(data, 4),
            data_stream_1_offset: u32_be_at(data, 16),
            data_stream_2_offset: u32_be_at(data, 20),
            data_stream_3_offset: u32_be_at(data, 24),
            data_stream_4_offset: u32_be_at(data, 28),
        }
    }
}
/// The mesh and geometry headers of one actor node, stored back to back.
#[derive(Copy, Clone, Debug, PartialEq)]
pub struct ActorInfo {
    pub mesh: Mesh,
    pub geometry: Geometry,
}

impl ActorInfo {
    /// Number of bytes this record occupies.
    pub const SIZE: usize = 0x90;

    /// Decodes the two headers from the start of `bytes`.
    pub fn from_bytes(bytes: &[u8]) -> (r: Self)
        requires
            bytes@.len() >= 0x90,
        ensures
            r.mesh == Mesh::spec_value(bytes@),
            r.geometry == Geometry::spec_value(bytes@.subrange(0x70, 0x90)),
    {
        let mesh = Mesh::from_bytes(bytes);
        let geo_bytes = vstd::slice::slice_subrange(bytes, 0x70, 0x90);
        let geometry = Geometry::from_bytes(geo_bytes);
        ActorInfo { mesh, geometry }
    }
}


impl SoftSkin {
    /// The batch records the header names, when the batch table lies inside
    /// `buffer`; each batch is read at its fixed position in the table.
    pub fn batches_from_buffer(&self, buffer: &[u8]) -> (r: Option<Vec<MeshBatch>>)
        ensures
            r is Some <==> self.batch_offset + self.number_of_batches * 16 <= buffer@.len(),
            r matches Some(v) ==> v@.len() == self.number_of_batches && forall|i: int|
                0 <= i < v@.len() ==> v@[i] == MeshBatch::spec_value(
                    buffer@.subrange(
                        self.batch_offset + i * 16,
                        self.batch_offset + i * 16 + 16,
                    ),
                ),
    {
        read_batch_table(buffer, self.batch_offset, self.number_of_batches)
    }

    /// The (offset, size) display segments, when the segment table lies
    /// inside `buffer`. The table holds one segment per batch.
    pub fn display_segments_from_buffer(&self, buffer: &[u8]) -> (r: Option<Vec<(u32, u32)>>)
        ensures
            r is Some <==> self.display_segment_offset + self.number_of_batches * 8
                <= buffer@.len(),
            r matches Some(v) ==> v@.len() == self.number_of_batches && forall|i: int|
                0 <= i < v@.len() ==> v@[i] == (
                    be32_at(buffer@, self.display_segment_offset + i * 8),
                    be32_at(buffer@, self.display_segment_offset + i * 8 + 4),
                ),
    {
        read_segment_table(buffer, self.display_segment_offset, self.number_of_batches)
    }
}

impl Mesh {
    /// The batch records the header names, when the batch count is
    /// nonnegative and the batch table lies inside `buffer`.
    pub fn batches_from_buffer(&self, buffer: &[u8]) -> (r: Option<Vec<MeshBatch>>)
        ensures
            r is Some <==> self.number_of_batches >= 0 && self.batch_offset
                + self.number_of_batches * 16 <= buffer@.len(),
            r matches Some(v) ==> v@.len() == self.number_of_batches && forall|i: int|
                0 <= i < v@.len() ==> v@[i] == MeshBatch::spec_value(
                    buffer@.subrange(
                        self.batch_offset + i * 16,
                        self.batch_offset + i * 16 + 16,
                    ),
                ),
    {
        if self.number_of_batches < 0 {
            return None;
        }
        read_batch_table(buffer, self.batch_offset, self.number_of_batches as u32)
    }

    /// The (offset, size) display segments, when the batch count is
    /// nonnegative and the segment table lies inside `buffer`.
    pub fn display_segments_from_buffer(&self, buffer: &[u8]) -> (r: Option<Vec<(u32, u32)>>)
        ensures
            r is Some <==> self.number_of_batches >= 0 && self.display_segments_offset
                + self.number_of_batches * 8 <= buffer@.len(),
            r matches Some(v) ==> v@.len() == self.number_of_batches && forall|i: int|
                0 <= i < v@.len() ==> v@[i] == (
                    be32_at(buffer@, self.display_segments_offset + i * 8),
                    be32_at(buffer@, self.display_segments_offset + i * 8 + 4),
                ),
    {
        if self.number_of_batches < 0 {
            return None;
        }
        read_segment_table(buffer, self.display_segments_offset, self.number_of_batches as u32)
    }
}

/// Reads `count` sixteen-byte batch records starting at `start`.
fn read_batch_table(buffer: &[u8], start: u32, count: u32) -> (r: Option<Vec<MeshBatch>>)
    ensures
        r is Some <==> start + count * 16 <= buffer@.len(),
        r matches Some(v) ==> v@.len() == count && forall|i: int|
            0 <= i < v@.len() ==> v@[i] == MeshBatch::spec_value(
                buffer@.subrange(start + i * 16, start + i * 16 + 16),
            ),
{
    let n: usize = buffer.len();
    let total = match (count as usize).checked_mul(16) {
        Some(v) => v,
        None => {
            return None;
        },
    };
    let end = match (start as usize).checked_add(total) {
        Some(v) => v,
        None => {
            return None;
        },
    };
    if end > n {
        return None;
    }
    let mut out: Vec<MeshBatch> = Vec::new();
    let mut i: usize = 0;
    while i < count as usize
        invariant
            i <= count,
            out@.len() == i,
            n == buffer@.len(),
            start + count * 16 <= buffer@.len(),
            forall|j: int| 0 <= j < i ==> out@[j] == MeshBatch::spec_value(
                buffer@.subrange(start + j * 16, start + j * 16 + 16),
            ),
        decreases count - i,
    {
        let off = start as usize + i * 16;
        let chunk = vstd::slice::slice_subrange(buffer, off, off + 16);
        out.push(MeshBatch::from_bytes(chunk));
        i = i + 1;
    }
    Some(out)
}

/// Reads `count` (offset, size) pairs starting at `start`.
fn read_segment_table(buffer: &[u8], start: u32, count: u32) -> (r: Option<Vec<(u32, u32)>>)
    ensures
        r is Some <==> start + count * 8 <= buffer@.len(),
        r matches Some(v) ==> v@.len() == count && forall|i: int|
            0 <= i < v@.len() ==> v@[i] == (
                be32_at(buffer@, start + i * 8),
                be32_at(buffer@, start + i * 8 + 4),
            ),
{
    let n: usize = buffer.len();
    let total = match (count as usize).checked_mul(8) {
        Some(v) => v,
        None => {
            return None;
        },
    };
    let end = match (start as usize).checked_add(total) {
        Some(v) => v,
        None => {
            return None;
        },
    };
    if end > n {
        return None;
    }
    let mut out: Vec<(u32, u32)> = Vec::new();
    let mut i: usize = 0;
    while i < count as usize
        invariant
            i <= count,
            out@.len() == i,
            n == buffer@.len(),
            start + count * 8 <= buffer@.len(),
            forall|j: int| 0 <= j < i ==> out@[j] == (
                be32_at(buffer@, start + j * 8),
                be32_at(buffer@, start + j * 8 + 4),
            ),
        decreases count - i,
    {
        let off = start as usize + i * 8;
        out.push((
            crate::byteread::u32_be_at(buffer, off),
            crate::byteread::u32_be_at(buffer, off + 4),
        ));
        i = i + 1;
    }
    Some(out)
}

} // verus!
