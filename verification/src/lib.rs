//! An in-scene prop editor: a registry of named scene objects, a catalog of
//! placeable prop templates, and the controller that places props on the
//! ground tile and undoes the most recent placements.

pub mod catalog;
pub mod controller;
pub mod forest;
pub mod main_system;
pub mod naming;
pub mod object;
pub mod registry;
pub mod session;
pub mod text;
pub mod vec3;
