//! The remaining fixed-shape entity-class payloads.
use cftkk::fetm::entityclasses::chase_camera::ChaseCamera;
use cftkk::fetm::entityclasses::default_particle_system::DefaultParticleSystem;
use cftkk::fetm::entityclasses::prop_base::PropBase;
use cftkk::fetm::entityclasses::shockwave_effect::ShockwaveEffect;
use cftkk::fetm::entityclasses::swipe_effect::SwipeEffect;
use cftkk::fetm::nodes::node::Attachment;
use cftkk::fetm::nodes::node::Transform;
use cftkk::fetm::{Error, TkKind};
use cftkk::ParseError;

fn mk(k: char, i: usize) -> TkKind<'static> {
    match k {
        'I' => TkKind::U16(i as u16),
        'F' => TkKind::F32(0x3F80_0000 + i as u32),
        'H' => TkKind::Hex8(0x2000 + i as u32),
        'S' => TkKind::Str(b"label"),
        _ => panic!("unknown kind letter"),
    }
}

fn seq_of(kinds: &str) -> Vec<TkKind<'static>> {
    kinds.chars().enumerate().map(|(i, k)| mk(k, i)).collect()
}

#[test]
fn prop_base_reads_its_thirty_nine_tokens() {
    let kinds = "IFIIFFIIIFFIIIIHIIFHHFIIIFFIIIIIFIIHHHI";
    assert_eq!(kinds.len(), 39);
    let tokens = seq_of(kinds);
    let p = PropBase::from_tokens(&tokens).unwrap();
    assert_eq!(PropBase::SIZE, 39);
    assert_eq!(p.field_0x1c, 0);
    assert_eq!(p.field_0x44, (11, 12, 13, 14));
    assert_eq!(p.field_0x48, 0x2000 + 15);
    assert_eq!(p.field_0x94, 38);
}

#[test]
fn prop_base_truncation_is_unexpected_end() {
    let kinds = "IFIIFFIIIFFIIIIHIIFHHFIIIFFIIIIIFIIHHHI";
    let tokens = seq_of(kinds);
    for k in [0usize, 1, 15, 38] {
        assert!(matches!(
            PropBase::from_tokens(&tokens[..k]),
            Err(Error::ParseError(ParseError::UnexpectedEnd))
        ));
    }
}

#[test]
fn prop_base_wrong_kind_is_invalid_token_kind() {
    let kinds = "IFIIFFIIIFFIIIIHIIFHHFIIIFFIIIIIFIIHHHI";
    let mut tokens = seq_of(kinds);
    tokens[1] = TkKind::U8(0); // a float position holding an integer
    assert!(matches!(PropBase::from_tokens(&tokens), Err(Error::InvalidTokenKind)));
}

#[test]
fn chase_camera_extends_camera_base() {
    let base_kinds = "HIIIIHIIIIIIIIIIFIIFIIHIIIIII";
    let own_kinds = "IFFFFFFFF";
    let mut tokens = seq_of(base_kinds);
    tokens[6] = TkKind::U8(0);
    tokens[7] = TkKind::U8(0);
    for (j, k) in own_kinds.chars().enumerate() {
        tokens.push(mk(k, 29 + j));
    }
    let c = ChaseCamera::from_tokens(&tokens).unwrap();
    assert_eq!(ChaseCamera::LENGTH, 38);
    assert_eq!(c.field_0x64, 29);
    assert_eq!(c.field_0x84, 0x3F80_0000 + 37);
}

#[test]
fn particle_system_reads_its_fifty_one_tokens() {
    let kinds = "HIIIIFIIIIIIIIIIIIFFFFFIFFFFIFFFIFFIFFFFFFFFFFFIFFI";
    assert_eq!(kinds.len(), 51);
    let tokens = seq_of(kinds);
    let p = DefaultParticleSystem::from_tokens(&tokens).unwrap();
    assert_eq!(DefaultParticleSystem::SIZE, 51);
    assert_eq!(p.field_0x1c, 0x2000);
    assert_eq!(p.field_0xd4, 50);
}

#[test]
fn shockwave_and_swipe_read_their_tokens() {
    let kinds = "HIFIIIIIIIFFFF";
    assert_eq!(kinds.len(), 14);
    let s = ShockwaveEffect::from_tokens(&seq_of(kinds)).unwrap();
    assert_eq!(ShockwaveEffect::LENGTH, 14);
    assert_eq!(s.field_0x48, 0x3F80_0000 + 13);

    let kinds = "HHHHHFFFFFFHIFIIIIIIIIFIF";
    assert_eq!(kinds.len(), 25);
    let w = SwipeEffect::from_tokens(&seq_of(kinds)).unwrap();
    assert_eq!(SwipeEffect::LENGTH, 25);
    assert_eq!(w.field_0x24, 0x2000 + 1);
    assert_eq!(w.field_0x78, 0x3F80_0000 + 24);
}

#[test]
fn attachment_nests_a_transform() {
    let tokens = [
        TkKind::Str(b"hand"),
        TkKind::Str(b"bone_r"),
        TkKind::U8(1),
        TkKind::U8(0),
        TkKind::U8(1),
        TkKind::U8(0), // empty transform tag
    ];
    let a = Attachment::from_tokens(&tokens).unwrap();
    assert_eq!(a.node_name, b"hand");
    assert_eq!(a.bone_name, b"bone_r");
    assert!(matches!(a.transform, Transform::Empty));
    assert_eq!(a.size(), 6);
}
