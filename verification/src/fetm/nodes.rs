//! Scene-node payload decoders, selected by node-type name.
//!
//! Every node payload starts from the shared `BaseNode` record; the variants
//! add their own trailing fields and report their total consumed length.
pub mod advanced_node;
pub mod camera;
pub mod controller;
pub mod decal_system;
pub mod effect;
pub mod node;
pub mod prop_node;
pub mod simulation_object;
