//! What runs a transition from one scene to another.
pub mod animation_player;
