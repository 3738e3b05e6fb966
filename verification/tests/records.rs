//! The structured decoders: headers, classes, nodes, sectors and the walk.
use cftkk::fetm::nodes::node::Transform;
use cftkk::fetm::{
    decode_world_nodes, BaseNode, EntityClass, EntityClassHeader, EntityKlass, Error, Node,
    NodeSimulation, Sector, TkKind, WorldNode,
};
use cftkk::ParseError;

fn itok(v: u8) -> TkKind<'static> {
    TkKind::U8(v)
}

fn ftok(bits: u32) -> TkKind<'static> {
    TkKind::F32(bits)
}

/// The 26 tokens of a base node's fixed tail, with every boolean zero, plus
/// a zero action count and no attachment. Positions follow the bit table.
fn base_tail() -> Vec<TkKind<'static>> {
    let mut t = Vec::new();
    t.push(itok(0)); // pause when room not visible
    for i in 0..6u32 {
        t.push(ftok(0x3F80_0000 + i)); // bounds, distinct bit patterns
    }
    t.push(itok(0)); // registered
    t.push(itok(0)); // missing entity class
    t.push(itok(0)); // timer active
    t.push(itok(0)); // pause when not visible
    t.push(TkKind::Hex8(0)); // raw flag word
    t.push(itok(0)); // is static
    t.push(ftok(0x4000_0000)); // unknown float
    t.push(itok(9)); // unknown int
    t.push(itok(0)); // advanced
    t.push(TkKind::Hex8(0xAB)); // sector checksum
    t.push(itok(0)); // action list enabled
    t.push(itok(0)); // custom bounding box
    t.push(itok(0)); // pause when not loaded
    t.push(itok(0)); // pause when sector not current
    t.push(itok(0)); // pause when room not current
    t.push(itok(0)); // pause when sector not visible
    t.push(itok(3)); // unknown
    t.push(itok(0)); // action count: must be zero
    t.push(itok(0)); // attachment presence
    t
}

fn empty_transform_node() -> Vec<TkKind<'static>> {
    let mut t = vec![itok(0)];
    t.extend(base_tail());
    t
}

#[test]
fn noentclass_header_is_one_token() {
    let tokens = [TkKind::Str(b"<noentclass>")];
    let h = EntityClassHeader::from_tokens(&tokens).unwrap();
    assert!(!h.has_entity_class);
    assert_eq!(h.class_size, 0);
    assert_eq!(h.len(), 1);
}

#[test]
fn full_header_is_five_tokens() {
    let tokens = [
        TkKind::Str(b"World Sector"),
        itok(1),
        TkKind::U32(77),
        TkKind::Hex8(0xFEED),
        itok(3),
    ];
    let h = EntityClassHeader::from_tokens(&tokens).unwrap();
    assert!(h.has_entity_class);
    assert_eq!(h.runtime_id, 77);
    assert_eq!(h.content_crc, 0xFEED);
    assert_eq!(h.class_size, 3);
    assert_eq!(h.len(), 5);
}

#[test]
fn header_encode_decode_round_trip() {
    let h = EntityClassHeader {
        name: b"Some Class",
        has_entity_class: true,
        runtime_id: 12,
        content_crc: 0xBEEF,
        class_size: 4,
    };
    let tokens = h.to_tokens();
    let back = EntityClassHeader::from_tokens(&tokens).unwrap();
    assert_eq!(back, h);

    let degenerate = EntityClassHeader {
        name: b"<noentclass>",
        has_entity_class: false,
        runtime_id: 0,
        content_crc: 0,
        class_size: 0,
    };
    let tokens = degenerate.to_tokens();
    assert_eq!(tokens.len(), 1);
    let back = EntityClassHeader::from_tokens(&tokens).unwrap();
    assert_eq!(back, degenerate);
}

#[test]
fn header_wrong_kind_is_invalid_token_kind() {
    let tokens = [itok(1)];
    assert!(matches!(
        EntityClassHeader::from_tokens(&tokens),
        Err(Error::InvalidTokenKind)
    ));
}

#[test]
fn header_truncation_is_unexpected_end() {
    let full = [
        TkKind::Str(b"World Sector"),
        itok(1),
        TkKind::U32(77),
        TkKind::Hex8(0xFEED),
        itok(3),
    ];
    for k in 0..full.len() {
        assert!(matches!(
            EntityClassHeader::from_tokens(&full[..k]),
            Err(Error::ParseError(ParseError::UnexpectedEnd))
        ));
    }
}

#[test]
fn entity_class_length_is_header_plus_body() {
    // An unrecognized class name decodes to Empty but still spans its
    // declared body, so callers can skip past it.
    let tokens = [
        TkKind::Str(b"Unknown Class"),
        itok(1),
        TkKind::U32(0),
        TkKind::Hex8(0),
        itok(2),
        itok(5),
        itok(6),
    ];
    let c = EntityClass::from_tokens(&tokens).unwrap();
    assert!(matches!(c.class, EntityKlass::Empty));
    assert_eq!(c.len(), 7);
    assert_eq!(c.len(), c.header.len() + c.header.class_size);
}

#[test]
fn entity_class_short_body_is_unexpected_end() {
    let tokens = [
        TkKind::Str(b"Unknown Class"),
        itok(1),
        TkKind::U32(0),
        TkKind::Hex8(0),
        itok(2),
        itok(5),
    ];
    assert!(matches!(
        EntityClass::from_tokens(&tokens),
        Err(Error::ParseError(ParseError::UnexpectedEnd))
    ));
}

#[test]
fn dynamic_collision_class_is_recognized() {
    let tokens = [
        TkKind::Str(b"Dynamic Collision Node"),
        itok(0),
        TkKind::U32(0),
        TkKind::Hex8(0),
        itok(0),
    ];
    let c = EntityClass::from_tokens(&tokens).unwrap();
    assert!(matches!(c.class, EntityKlass::DynamicColllsionNode));
}

#[test]
fn base_node_single_flag_bit_is_exact() {
    // Every boolean input token is zero except the one mapped to
    // "pause when not visible": the flags word is exactly 1 << 11, and the
    // float fields come back bit for bit.
    let mut tokens = vec![itok(1)];
    let float_bits = [
        0x3F80_0000u32,
        0x4000_0000,
        0x4040_0000,
        0x4080_0000,
        0x40A0_0000,
        0x40C0_0000,
        0x40E0_0000,
        0x4100_0000,
        0x4110_0000,
        0x4120_0000,
    ];
    for b in float_bits.iter() {
        tokens.push(ftok(*b));
    }
    let mut tail = base_tail();
    tail[10] = itok(1); // pause when not visible
    tokens.extend(tail);
    let node = BaseNode::from_tokens(&tokens).unwrap();
    assert_eq!(node.flags, 1 << 11);
    match node.transform {
        Transform::Static(st) => {
            assert_eq!(st.pos_x, 0x3F80_0000);
            assert_eq!(st.rot_w, 0x4120_0000);
        }
        _ => panic!("expected a static transform"),
    }
    assert_eq!(node.min_x, 0x3F80_0000);
    assert_eq!(node.max_z, 0x3F80_0005);
    assert_eq!(node.sector_crc, 0xAB);
    assert_eq!(node.size(), 37);
}

#[test]
fn base_node_nonzero_action_count_is_not_supported() {
    let mut tokens = empty_transform_node();
    tokens[25] = itok(2); // action count lives at tail position 24
    assert!(matches!(
        BaseNode::from_tokens(&tokens),
        Err(Error::CurrentlyNotSupported)
    ));
}

#[test]
fn transform_tag_values_select_the_form() {
    assert!(matches!(
        Transform::from_tokens(&[itok(0)]),
        Ok(Transform::Empty)
    ));
    assert!(matches!(
        Transform::from_tokens(&[itok(2)]),
        Err(Error::CurrentlyNotSupported)
    ));
    assert!(matches!(
        Transform::from_tokens(&[itok(7)]),
        Err(Error::InvalidTokenKind)
    ));
}

#[test]
fn node_simulation_length_is_base_plus_tail() {
    let mut tokens = empty_transform_node();
    for i in 0..33u8 {
        // gravity and tuning fields: floats at tail 0..5, 15..23, 26..28
        let is_float = i < 6 || (15..=23).contains(&i) || (26..=28).contains(&i);
        if is_float {
            tokens.push(ftok(0x3F00_0000 + i as u32));
        } else {
            tokens.push(itok(i));
        }
    }
    let sim = NodeSimulation::from_sectors(&tokens).unwrap();
    assert_eq!(sim.size(), sim.base_node.size() + NodeSimulation::EXTRA);
    assert_eq!(sim.size(), 27 + 33);
    assert_eq!(sim.gravity_x, 0x3F00_0000);
    assert_eq!(sim.unknown_count_1, 32);
}

#[test]
fn unknown_node_type_degrades_to_dummy() {
    let node = Node::from_name(b"never_reversed", &[]).unwrap();
    assert!(matches!(node, Node::Dummy));
    assert_eq!(node.size(), 0);
}

#[test]
fn world_node_length_law_holds_on_a_dummy() {
    let tokens = [
        TkKind::Str(b"dummy"),
        TkKind::Str(b"origin"),
        TkKind::Str(b"<noentclass>"),
    ];
    let w = WorldNode::from_tokens(&tokens).unwrap();
    assert_eq!(w.node_type, b"dummy");
    assert_eq!(w.node_name, b"origin");
    assert_eq!(w.len(), 2 + w.entity_class.len() + w.node.size());
    assert_eq!(w.len(), 3);
}

/// A sector whose node list size is three, followed by its nodes.
fn sector_then_nodes() -> Vec<TkKind<'static>> {
    let mut t = vec![TkKind::Str(b"sector"), TkKind::Str(b"<noentclass>")];
    t.push(TkKind::Str(b"sector_a")); // tail 0: sector name
    for i in 1..=8u8 {
        t.push(itok(i)); // unknowns, two flag bits, fog color
    }
    t.push(ftok(0x3DCC_CCCD)); // fog near
    t.push(ftok(0x3F00_0000)); // fog far
    t.push(ftok(0x3F80_0000)); // fog intensity
    for i in 12..=26u8 {
        t.push(itok(if i == 12 { 1 } else { 0 })); // flip flags and flag bits
    }
    for i in 0..6u32 {
        t.push(ftok(0x4000_0000 + i)); // the two extent triples
    }
    t.push(itok(0)); // node sprite batch size
    t.push(itok(0)); // first node offset
    t.push(itok(3)); // node list size
    for k in 0..3u8 {
        t.push(TkKind::Str(b"dummy"));
        t.push(TkKind::Str(b"node"));
        t.push(TkKind::Str(b"<noentclass>"));
        let _unused = k;
    }
    t.push(TkKind::Str(b"end"));
    t
}

#[test]
fn sector_walk_decodes_exactly_three_nodes() {
    let tokens = sector_then_nodes();
    let sector = Sector::from_tokens(&tokens).unwrap();
    assert_eq!(sector.node_list_size, 3);
    assert_eq!(sector.len(), 1 + sector.entity_class.len() + 36);

    let (nodes, end) =
        decode_world_nodes(&tokens, sector.len(), sector.node_list_size).unwrap();
    assert_eq!(nodes.len(), 3);
    for node in &nodes {
        assert_eq!(node.node_type, b"dummy");
    }
    // The walk lands exactly on the closing sentinel name.
    assert_eq!(tokens[end].extract_str().unwrap(), b"end");
    assert_eq!(end, tokens.len() - 1);

    // The same walk done by hand, one sibling at a time.
    let mut pos = sector.len();
    let mut decoded = 0;
    while decoded < sector.node_list_size {
        let node = WorldNode::from_tokens(&tokens[pos..]).unwrap();
        pos += node.len();
        decoded += 1;
    }
    assert_eq!(pos, end);
}

#[test]
fn sector_flags_fold_sets_the_stored_bits() {
    let tokens = sector_then_nodes();
    let sector = Sector::from_tokens(&tokens).unwrap();
    // Tail position 4 carried 4 (low bit clear), position 5 carried 5 (low
    // bit set), position 12 carried 1: bits 0x1D and 0x1F are set, 0x1E is
    // clear.
    assert_eq!(sector.flags, (1 << 0x1D) | (1 << 0x1F));
    assert_eq!(sector.fog_r, 6);
    assert_eq!(sector.fog_near_dist, 0x3DCC_CCCD);
    assert_eq!(sector.flip_r, 0);
}
