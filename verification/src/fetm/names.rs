//! The class and node-type names the dispatch layers recognize.
//!
//! The format has no type tags for its records; a name string read from the
//! stream selects the decoder. Each name is given here once, as a spec-level
//! byte sequence and a matcher that decides it, so that every dispatch
//! contract can say exactly which name was matched.
use crate::fetm::layout::bytes_eq;
use vstd::prelude::*;

verus! {

/// The name "<noentclass>".
pub open spec fn spec_name_noentclass() -> Seq<u8> {
    seq![60u8, 110u8, 111u8, 101u8, 110u8, 116u8, 99u8, 108u8, 97u8, 115u8, 115u8, 62u8]
}

/// Decides whether `name` is "<noentclass>".
pub fn name_is_noentclass(name: &[u8]) -> (r: bool)
    ensures
        r <==> name@ == spec_name_noentclass(),
{
    let lit: [u8; 12] = [60, 110, 111, 101, 110, 116, 99, 108, 97, 115, 115, 62];
    proof {
        assert(lit@ =~= spec_name_noentclass());
    }
    bytes_eq(name, lit.as_slice())
}

/// The name "World Sector".
pub open spec fn spec_name_world_sector() -> Seq<u8> {
    seq![87u8, 111u8, 114u8, 108u8, 100u8, 32u8, 83u8, 101u8, 99u8, 116u8, 111u8, 114u8]
}

/// Decides whether `name` is "World Sector".
pub fn name_is_world_sector(name: &[u8]) -> (r: bool)
    ensures
        r <==> name@ == spec_name_world_sector(),
{
    let lit: [u8; 12] = [87, 111, 114, 108, 100, 32, 83, 101, 99, 116, 111, 114];
    proof {
        assert(lit@ =~= spec_name_world_sector());
    }
    bytes_eq(name, lit.as_slice())
}

/// The name "Main Character".
pub open spec fn spec_name_main_character() -> Seq<u8> {
    seq![77u8, 97u8, 105u8, 110u8, 32u8, 67u8, 104u8, 97u8, 114u8, 97u8, 99u8, 116u8, 101u8, 114u8]
}

/// Decides whether `name` is "Main Character".
pub fn name_is_main_character(name: &[u8]) -> (r: bool)
    ensures
        r <==> name@ == spec_name_main_character(),
{
    let lit: [u8; 14] = [77, 97, 105, 110, 32, 67, 104, 97, 114, 97, 99, 116, 101, 114];
    proof {
        assert(lit@ =~= spec_name_main_character());
    }
    bytes_eq(name, lit.as_slice())
}

/// The name "Dynamic Collision Node".
pub open spec fn spec_name_dynamic_collision_node() -> Seq<u8> {
    seq![68u8, 121u8, 110u8, 97u8, 109u8, 105u8, 99u8, 32u8, 67u8, 111u8, 108u8, 108u8, 105u8, 115u8, 105u8, 111u8, 110u8, 32u8, 78u8, 111u8, 100u8, 101u8]
}

/// Decides whether `name` is "Dynamic Collision Node".
pub fn name_is_dynamic_collision_node(name: &[u8]) -> (r: bool)
    ensures
        r <==> name@ == spec_name_dynamic_collision_node(),
{
    let lit: [u8; 22] = [68, 121, 110, 97, 109, 105, 99, 32, 67, 111, 108, 108, 105, 115, 105, 111, 110, 32, 78, 111, 100, 101];
    proof {
        assert(lit@ =~= spec_name_dynamic_collision_node());
    }
    bytes_eq(name, lit.as_slice())
}

/// The name "simulation".
pub open spec fn spec_name_simulation() -> Seq<u8> {
    seq![115u8, 105u8, 109u8, 117u8, 108u8, 97u8, 116u8, 105u8, 111u8, 110u8]
}

/// Decides whether `name` is "simulation".
pub fn name_is_simulation(name: &[u8]) -> (r: bool)
    ensures
        r <==> name@ == spec_name_simulation(),
{
    let lit: [u8; 10] = [115, 105, 109, 117, 108, 97, 116, 105, 111, 110];
    proof {
        assert(lit@ =~= spec_name_simulation());
    }
    bytes_eq(name, lit.as_slice())
}

/// The name "collision_node".
pub open spec fn spec_name_collision_node() -> Seq<u8> {
    seq![99u8, 111u8, 108u8, 108u8, 105u8, 115u8, 105u8, 111u8, 110u8, 95u8, 110u8, 111u8, 100u8, 101u8]
}

/// Decides whether `name` is "collision_node".
pub fn name_is_collision_node(name: &[u8]) -> (r: bool)
    ensures
        r <==> name@ == spec_name_collision_node(),
{
    let lit: [u8; 14] = [99, 111, 108, 108, 105, 115, 105, 111, 110, 95, 110, 111, 100, 101];
    proof {
        assert(lit@ =~= spec_name_collision_node());
    }
    bytes_eq(name, lit.as_slice())
}

/// The name "dummy".
pub open spec fn spec_name_dummy() -> Seq<u8> {
    seq![100u8, 117u8, 109u8, 109u8, 121u8]
}

/// Decides whether `name` is "dummy".
pub fn name_is_dummy(name: &[u8]) -> (r: bool)
    ensures
        r <==> name@ == spec_name_dummy(),
{
    let lit: [u8; 5] = [100, 117, 109, 109, 121];
    proof {
        assert(lit@ =~= spec_name_dummy());
    }
    bytes_eq(name, lit.as_slice())
}

/// The name "simulation_object".
pub open spec fn spec_name_simulation_object() -> Seq<u8> {
    seq![115u8, 105u8, 109u8, 117u8, 108u8, 97u8, 116u8, 105u8, 111u8, 110u8, 95u8, 111u8, 98u8, 106u8, 101u8, 99u8, 116u8]
}

/// Decides whether `name` is "simulation_object".
pub fn name_is_simulation_object(name: &[u8]) -> (r: bool)
    ensures
        r <==> name@ == spec_name_simulation_object(),
{
    let lit: [u8; 17] = [115, 105, 109, 117, 108, 97, 116, 105, 111, 110, 95, 111, 98, 106, 101, 99, 116];
    proof {
        assert(lit@ =~= spec_name_simulation_object());
    }
    bytes_eq(name, lit.as_slice())
}

/// The name "camera".
pub open spec fn spec_name_camera() -> Seq<u8> {
    seq![99u8, 97u8, 109u8, 101u8, 114u8, 97u8]
}

/// Decides whether `name` is "camera".
pub fn name_is_camera(name: &[u8]) -> (r: bool)
    ensures
        r <==> name@ == spec_name_camera(),
{
    let lit: [u8; 6] = [99, 97, 109, 101, 114, 97];
    proof {
        assert(lit@ =~= spec_name_camera());
    }
    bytes_eq(name, lit.as_slice())
}

/// The name "controller".
pub open spec fn spec_name_controller() -> Seq<u8> {
    seq![99u8, 111u8, 110u8, 116u8, 114u8, 111u8, 108u8, 108u8, 101u8, 114u8]
}

/// Decides whether `name` is "controller".
pub fn name_is_controller(name: &[u8]) -> (r: bool)
    ensures
        r <==> name@ == spec_name_controller(),
{
    let lit: [u8; 10] = [99, 111, 110, 116, 114, 111, 108, 108, 101, 114];
    proof {
        assert(lit@ =~= spec_name_controller());
    }
    bytes_eq(name, lit.as_slice())
}

/// The name "effect".
pub open spec fn spec_name_effect() -> Seq<u8> {
    seq![101u8, 102u8, 102u8, 101u8, 99u8, 116u8]
}

/// Decides whether `name` is "effect".
pub fn name_is_effect(name: &[u8]) -> (r: bool)
    ensures
        r <==> name@ == spec_name_effect(),
{
    let lit: [u8; 6] = [101, 102, 102, 101, 99, 116];
    proof {
        assert(lit@ =~= spec_name_effect());
    }
    bytes_eq(name, lit.as_slice())
}

/// The name "decalsystem".
pub open spec fn spec_name_decalsystem() -> Seq<u8> {
    seq![100u8, 101u8, 99u8, 97u8, 108u8, 115u8, 121u8, 115u8, 116u8, 101u8, 109u8]
}

/// Decides whether `name` is "decalsystem".
pub fn name_is_decalsystem(name: &[u8]) -> (r: bool)
    ensures
        r <==> name@ == spec_name_decalsystem(),
{
    let lit: [u8; 11] = [100, 101, 99, 97, 108, 115, 121, 115, 116, 101, 109];
    proof {
        assert(lit@ =~= spec_name_decalsystem());
    }
    bytes_eq(name, lit.as_slice())
}

} // verus!
