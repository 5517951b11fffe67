//! Game-level logic of a level editor and runtime: asset-loading verdicts,
//! level and asset paths, input mapping, controller and session state
//! machines, and the bookkeeping behind networked players.

pub mod assembler;
pub mod comms;
pub mod controller;
pub mod network;
pub mod editor;
pub mod interact;
pub mod resources;
pub mod loader;
pub mod viewer;
