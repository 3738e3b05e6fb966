//! Entity-class payload decoders, selected by class name.
//!
//! Each payload is a fixed run of tokens; the composed records mirror the
//! format's apparent single inheritance (a derived record's decoder first
//! decodes its base over the same token prefix, then reads its own fields).
pub mod camera_base;
pub mod character;
pub mod chase_camera;
pub mod default_particle_system;
pub mod game_object;
pub mod main_character;
pub mod prop_base;
pub mod shockwave_effect;
pub mod swipe_effect;
