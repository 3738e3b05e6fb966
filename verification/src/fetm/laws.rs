//! The length-additivity laws of the composite records.
//!
//! Every record reports how many tokens it consumed, and a composite's
//! length is the sum of its parts plus its own fixed fields. Each law here
//! states that sum explicitly for one composite, over the same `spec_size`
//! functions the decoders' contracts use.
use crate::fetm::entityclasses::character::Character;
use crate::fetm::entityclasses::game_object::GameObject;
use crate::fetm::entityclasses::main_character::MainCharacter;
use crate::fetm::entityclasses::prop_base::PropBase;
use crate::fetm::nodes::advanced_node::AdvancedNode;
use crate::fetm::nodes::camera::CameraNode;
use crate::fetm::nodes::controller::InputChannel;
use crate::fetm::nodes::decal_system::DecalSystem;
use crate::fetm::nodes::effect::Effect;
use crate::fetm::nodes::node::Attachment;
use crate::fetm::nodes::prop_node::PropNode;
use crate::fetm::nodes::simulation_object::SimulationObject;
use crate::fetm::{BaseNode, NodeCollision, NodeSimulation, NormalSector, Sector, WorldSector};
use vstd::prelude::*;

verus! {

/// An attachment is its five fixed fields plus its transform.
pub proof fn lemma_attachment_additivity(a: Attachment)
    ensures
        a.spec_size() == 5 + a.transform.spec_size(),
{
}

/// A base node is its transform, its twenty-six fixed fields, and its
/// attachment if present.
pub proof fn lemma_base_node_additivity(b: BaseNode)
    ensures
        b.attachment matches Some(a) ==> b.spec_size() == b.transform.spec_size()
            + BaseNode::FIXED_TAIL + a.spec_size(),
        b.attachment is None ==> b.spec_size() == b.transform.spec_size() + BaseNode::FIXED_TAIL,
{
}

/// A simulation node is its base node plus thirty-three fields.
pub proof fn lemma_node_simulation_additivity(x: NodeSimulation)
    ensures
        x.spec_size() == x.base_node.spec_size() + NodeSimulation::EXTRA,
{
}

/// A collision node is its base node followed by seven flags.
pub proof fn lemma_node_collision_additivity(x: NodeCollision)
    ensures
        x.spec_size() == x.base_node.spec_size() + NodeCollision::EXTRA,
{
}

/// An advanced node is its base node, twelve fields and its entity class.
pub proof fn lemma_advanced_node_additivity(x: AdvancedNode)
    ensures
        x.spec_size() == x.node.spec_size() + AdvancedNode::EXTRA + x.entity_class.spec_len(),
{
}

/// A prop node is its advanced node, its fixed fields, and two tokens per
/// mesh-name pair.
pub proof fn lemma_prop_node_additivity(x: PropNode)
    ensures
        x.spec_size() == x.advanced_node.spec_size() + PropNode::FIXED_EXTRA + 2
            * x.token_names@.len(),
{
}

/// A simulation object is its prop node, one integer and its entity class.
pub proof fn lemma_simulation_object_additivity(x: SimulationObject)
    ensures
        x.spec_size() == x.prop_node.spec_size() + 1 + x.entity_class.spec_len(),
{
}

/// A camera node is its advanced node plus four fields.
pub proof fn lemma_camera_additivity(x: CameraNode)
    ensures
        x.spec_size() == x.base.spec_size() + CameraNode::EXTRA,
{
}

/// An effect node is its advanced node plus seven fields.
pub proof fn lemma_effect_additivity(x: Effect)
    ensures
        x.spec_size() == x.advanced_node.spec_size() + Effect::EXTRA,
{
}

/// A decal system is its advanced node plus fourteen fields.
pub proof fn lemma_decal_system_additivity(x: DecalSystem)
    ensures
        x.spec_size() == x.base.spec_size() + DecalSystem::EXTRA,
{
}

/// An input channel is its six fixed fields plus four tokens per descriptor.
pub proof fn lemma_input_channel_additivity(x: InputChannel)
    ensures
        x.spec_size() == 6 + 4 * x.input_descs@.len(),
{
}

/// A sector is its name token, its entity class and its fixed tail.
pub proof fn lemma_sector_additivity(x: Sector)
    ensures
        x.spec_len() == 1 + x.entity_class.spec_len() + Sector::TAIL,
{
}


/// The single-inheritance chain of the character payloads: each record's
/// size is its base record's size plus its own field count.
pub proof fn lemma_character_chain_additivity()
    ensures
        MainCharacter::SIZE == Character::SIZE + 107,
        Character::SIZE == GameObject::SIZE + 30,
        GameObject::SIZE == PropBase::SIZE + 7,
{
}

/// A world-sector payload is the normal-sector prefix plus its own fields.
pub proof fn lemma_world_sector_additivity()
    ensures
        WorldSector::LENGTH == NormalSector::LENGTH + 38,
{
}

} // verus!
