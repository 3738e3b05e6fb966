//! The node variants, the entity-class dispatch and the world record.
use cftkk::fetm::entityclasses::camera_base::CameraBase;
use cftkk::fetm::entityclasses::main_character::MainCharacter;
use cftkk::fetm::nodes::advanced_node::AdvancedNode;
use cftkk::fetm::nodes::camera::CameraNode;
use cftkk::fetm::nodes::controller::Controller;
use cftkk::fetm::nodes::decal_system::DecalSystem;
use cftkk::fetm::nodes::effect::Effect;
use cftkk::fetm::nodes::prop_node::PropNode;
use cftkk::fetm::nodes::simulation_object::SimulationObject;
use cftkk::fetm::{EntityClass, EntityKlass, Error, Node, TkKind, World, WorldSector};

/// One token of the kind a layout letter names, carrying a value derived
/// from its position so tests can spot-check fields.
fn tok(k: char, i: usize) -> TkKind<'static> {
    match k {
        'I' => TkKind::U16(i as u16),
        'F' => TkKind::F32(0x3F80_0000 + i as u32),
        'H' => TkKind::Hex8(0x1000 + i as u32),
        'S' => TkKind::Str(b"name"),
        _ => panic!("unknown kind letter"),
    }
}

fn run(kinds: &str) -> Vec<TkKind<'static>> {
    kinds.chars().enumerate().map(|(i, k)| tok(k, i)).collect()
}

/// An empty-transform base node whose boolean and count tokens are all zero.
fn zero_base() -> Vec<TkKind<'static>> {
    let mut t = vec![TkKind::U8(0)];
    for k in "IFFFFFFIIIIHIFIIHIIIIIIIII".chars() {
        t.push(match k {
            'I' => TkKind::U8(0),
            'F' => TkKind::F32(0),
            'H' => TkKind::Hex8(0),
            _ => unreachable!(),
        });
    }
    t
}

/// A minimal advanced node: zero base, twelve fields, no entity class.
fn zero_advanced() -> Vec<TkKind<'static>> {
    let mut t = zero_base();
    for k in "IIIIIIIIHHIF".chars() {
        t.push(match k {
            'I' => TkKind::U8(0),
            'H' => TkKind::Hex8(0),
            'F' => TkKind::F32(0),
            _ => unreachable!(),
        });
    }
    t.push(TkKind::Str(b"<noentclass>"));
    t
}

#[test]
fn world_skips_the_unread_positions() {
    let kinds = "IIIIII??III???FII?S?IFFFFFFI";
    let mut tokens = Vec::new();
    for (i, k) in kinds.chars().enumerate() {
        tokens.push(match k {
            '?' => TkKind::Str(b"skipped"),
            'S' => TkKind::Str(b"theme"),
            _ => tok(k, i),
        });
    }
    tokens[20] = TkKind::U8(0); // action count must be zero
    tokens[0] = TkKind::U8(1);
    tokens[1] = TkKind::U8(0);
    tokens[2] = TkKind::U8(1);
    tokens[3] = TkKind::U8(0);
    let w = World::from_tokens(&tokens).unwrap();
    assert_eq!(w.flags, (1 << 0x12) | (1 << 0x1F));
    assert_eq!(w.sound_name, b"theme");
    assert_eq!(w.simulation_scale, 0x3F80_0000 + 14);
    assert_eq!(w.o_104, 27);
    assert_eq!(w.action_count, 0);
}

#[test]
fn world_nonzero_action_count_is_not_supported() {
    let kinds = "IIIIII??III???FII?S?IFFFFFFI";
    let mut tokens = run(&kinds.replace('?', "I").replace('S', "I"));
    tokens[18] = TkKind::Str(b"theme");
    assert!(matches!(World::from_tokens(&tokens), Err(Error::CurrentlyNotSupported)));
}

#[test]
fn world_sector_class_dispatches_by_name() {
    let body_kinds = "HIIFFFFFIFFFFFFFFFIFFFFFFFFFFFIIIIIIIIIIIIIIIIIIIIIIIIIIIIIIIIHHHHHIIIFHHHHHISHFFFFIFIIIIIIIHIHIIIIH";
    let mut tokens = vec![
        TkKind::Str(b"World Sector"),
        TkKind::U8(1),
        TkKind::U32(0),
        TkKind::Hex8(0),
        TkKind::U16(100),
    ];
    let mut body = run(body_kinds);
    body[77] = TkKind::Str(b"battle_theme");
    tokens.extend(body);
    let c = EntityClass::from_tokens(&tokens).unwrap();
    assert_eq!(c.len(), 105);
    match &c.class {
        EntityKlass::WorldSector(ws) => {
            assert_eq!(ws.music_name, b"battle_theme");
            assert_eq!(ws.normal_sector.texture_resource_crc, 0x1000);
            assert_eq!(ws.node_crc_10, 0x1000 + 99);
            assert_eq!(ws.action_count, 76);
            assert_eq!(WorldSector::LENGTH, 100);
        }
        _ => panic!("expected a world-sector class"),
    }
}

#[test]
fn main_character_class_dispatches_by_name() {
    let body_kinds = "IFIIFFIIIFFIIIIHIIFHHFIIIFFIIIIIFIIHHHIIFFIHIIIHIIIIIIIIIIIIIIIIIIFFFFIIFFIHHIHIHHHHHHHHHHHIHHHFIIIHHHHHHHHHHIHIHIHIHIHHHHHHHHHHHHHHHHHHHHHHHHHHHHHHHHHHHHHHHHHHHIHHHHFHHHHHHHHHIHHIHHI";
    assert_eq!(body_kinds.len(), 183);
    let mut tokens = vec![
        TkKind::Str(b"Main Character"),
        TkKind::U8(1),
        TkKind::U32(0),
        TkKind::Hex8(0),
        TkKind::U16(183),
    ];
    tokens.extend(run(body_kinds));
    let c = EntityClass::from_tokens(&tokens).unwrap();
    assert_eq!(c.len(), 188);
    match &c.class {
        EntityKlass::MainCharacter(mc) => {
            assert_eq!(MainCharacter::SIZE, 183);
            assert_eq!(mc.character.game_object.base.field_0x1c, 0);
            assert_eq!(mc.field_0x3c0, 182);
        }
        _ => panic!("expected a main-character class"),
    }
}

#[test]
fn camera_base_action_lists_must_be_empty() {
    let kinds = "HIIIIHIIIIIIIIIIFIIFIIHIIIIII";
    let mut tokens = run(kinds);
    tokens[6] = TkKind::U8(0);
    tokens[7] = TkKind::U8(0);
    let cb = CameraBase::from_tokens(&tokens).unwrap();
    assert_eq!(cb.size(), 29);
    assert_eq!(cb.field_0x1c, 0x1000);

    let mut bad = run(kinds);
    bad[6] = TkKind::U8(1);
    bad[7] = TkKind::U8(0);
    assert!(matches!(CameraBase::from_tokens(&bad), Err(Error::CurrentlyNotSupported)));
}

#[test]
fn advanced_node_spans_base_fields_and_class() {
    let tokens = zero_advanced();
    let adv = AdvancedNode::from_tokens(&tokens).unwrap();
    assert_eq!(adv.size(), 27 + 12 + 1);
    assert_eq!(adv.entity_class.len(), 1);
}

#[test]
fn prop_node_reads_its_mesh_pairs() {
    let mut tokens = zero_advanced();
    // six header fields: skipped, flag, actor type, no optional float,
    // two pairs, skipped
    for v in [9u8, 1, 2, 0, 2, 3] {
        tokens.push(TkKind::U8(v));
    }
    tokens.push(TkKind::Str(b"mesh_a"));
    tokens.push(TkKind::F32(0x3F00_0000));
    tokens.push(TkKind::Str(b"mesh_b"));
    tokens.push(TkKind::F32(0x3F80_0000));
    for k in "SIHIISIIIIIIISI".chars() {
        tokens.push(match k {
            'S' => TkKind::Str(b"trail"),
            'I' => TkKind::U8(4),
            'H' => TkKind::Hex8(0xD0),
            _ => unreachable!(),
        });
    }
    let p = PropNode::from_tokens(&tokens).unwrap();
    assert_eq!(p.token_names.len(), 2);
    assert_eq!(p.token_names[0].0, b"mesh_a");
    assert_eq!(p.token_names[1].1, 0x3F80_0000);
    assert_eq!(p.size(), 40 + 21 + 4);
    assert_eq!(p.size(), tokens.len());

    // the optional float shares its token with the pair count, so a set
    // presence flag can never decode
    let mut bad = zero_advanced();
    for v in [9u8, 1, 2, 1, 2, 3] {
        bad.push(TkKind::U8(v));
    }
    assert!(matches!(PropNode::from_tokens(&bad), Err(Error::InvalidTokenKind)));
}

#[test]
fn simulation_object_appends_a_second_class() {
    let mut tokens = zero_advanced();
    for v in [9u8, 1, 2, 0, 0, 3] {
        tokens.push(TkKind::U8(v));
    }
    for k in "SIHIISIIIIIIISI".chars() {
        tokens.push(match k {
            'S' => TkKind::Str(b"trail"),
            'I' => TkKind::U8(4),
            'H' => TkKind::Hex8(0xD0),
            _ => unreachable!(),
        });
    }
    tokens.push(TkKind::U8(7)); // the trailing integer
    tokens.push(TkKind::Str(b"<noentclass>"));
    let so = SimulationObject::from_tokens(&tokens).unwrap();
    assert_eq!(so.field_0x140, 7);
    assert_eq!(so.size(), so.prop_node.size() + 1 + so.entity_class.len());
    assert_eq!(so.size(), tokens.len());
}

#[test]
fn controller_reads_nested_channels() {
    let mut tokens = zero_base();
    tokens.push(TkKind::U8(5)); // unknown count
    tokens.push(TkKind::U8(2)); // two channels
    // channel with one descriptor
    tokens.push(TkKind::Str(b"stick_x"));
    tokens.push(TkKind::U8(0));
    tokens.push(TkKind::F32(1));
    tokens.push(TkKind::F32(2));
    tokens.push(TkKind::U8(0));
    tokens.push(TkKind::U8(1));
    for v in [10u8, 11, 12, 13] {
        tokens.push(TkKind::U8(v));
    }
    // channel with no descriptors
    tokens.push(TkKind::Str(b"stick_y"));
    tokens.push(TkKind::U8(0));
    tokens.push(TkKind::F32(3));
    tokens.push(TkKind::F32(4));
    tokens.push(TkKind::U8(0));
    tokens.push(TkKind::U8(0));
    // stick calibration
    tokens.push(TkKind::U8(1));
    tokens.push(TkKind::U8(2));
    tokens.push(TkKind::F32(5));
    tokens.push(TkKind::U8(3));
    tokens.push(TkKind::U8(4));
    tokens.push(TkKind::F32(6));
    let c = Controller::from_tokens(&tokens).unwrap();
    assert_eq!(c.input_channels.len(), 2);
    assert_eq!(c.input_channels[0].channel_name, b"stick_x");
    assert_eq!(c.input_channels[0].input_descs.len(), 1);
    assert_eq!(c.input_channels[0].input_descs[0].unk_flag_3, 13);
    assert_eq!(c.input_channels[1].input_descs.len(), 0);
    assert_eq!(c.right_stick_unk_float, 6);
    assert_eq!(c.size(), tokens.len());
    assert_eq!(c.size(), 27 + 2 + 10 + 6 + 6);
}

#[test]
fn camera_effect_and_decal_tails_have_fixed_widths() {
    let mut cam = zero_advanced();
    cam.push(TkKind::U8(1));
    cam.push(TkKind::F32(0x42B4_0000)); // field of view
    cam.push(TkKind::F32(1));
    cam.push(TkKind::F32(2));
    let c = CameraNode::from_tokens(&cam).unwrap();
    assert_eq!(c.fov, 0x42B4_0000);
    assert_eq!(c.size(), 40 + CameraNode::EXTRA);

    let mut eff = zero_advanced();
    for k in "IIIIFFF".chars() {
        eff.push(if k == 'I' {
            TkKind::U8(0)
        } else {
            TkKind::F32(9)
        });
    }
    let e = Effect::from_tokens(&eff).unwrap();
    assert_eq!(e.size(), 40 + Effect::EXTRA);

    let mut dec = zero_advanced();
    for k in "IIIIHIIIFIIFFI".chars() {
        dec.push(match k {
            'I' => TkKind::U8(0),
            'H' => TkKind::Hex8(0x15C),
            _ => TkKind::F32(8),
        });
    }
    let d = DecalSystem::from_tokens(&dec).unwrap();
    assert_eq!(d.field_0x15c, 0x15C);
    assert_eq!(d.size(), 40 + DecalSystem::EXTRA);
}

#[test]
fn node_dispatch_selects_by_type_name() {
    let dummy = Node::from_name(b"dummy", &[]).unwrap();
    assert!(matches!(dummy, Node::Dummy));

    let mut cam = zero_advanced();
    cam.push(TkKind::U8(1));
    cam.push(TkKind::F32(1));
    cam.push(TkKind::F32(2));
    cam.push(TkKind::F32(3));
    let node = Node::from_name(b"camera", &cam).unwrap();
    assert!(matches!(node, Node::Camera(_)));
    assert_eq!(node.size(), cam.len());

    // a collision node: base, then seven flags immediately following
    let mut col = zero_base();
    for v in 0..7u8 {
        col.push(TkKind::U8(v));
    }
    let node = Node::from_name(b"collision_node", &col).unwrap();
    match &node {
        Node::Collision(c) => {
            assert_eq!(c.unknown_flags_0, 0);
            assert_eq!(c.unknown_flags_6, 6);
        }
        _ => panic!("expected a collision node"),
    }
    assert_eq!(node.size(), col.len());
    assert_eq!(node.size(), 27 + 7);
}
