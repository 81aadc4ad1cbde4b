//! Stack-based scene management for a scene-tree engine.
#![allow(unused_imports)]

pub mod ident;
pub mod idle;
pub mod laws;
pub mod manager;
pub mod plugin;
pub mod promise;
pub mod resource;
pub mod settings;
pub mod text;
pub mod transition;
pub mod tree;
