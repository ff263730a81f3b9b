//! Core of an interactive 2D particle field: pointer input resolution, the
//! spawn lattice, the particle arena, the scene lifecycle and the menu's
//! button decisions.
pub mod input;
pub mod lattice;
pub mod store;
pub mod scene;
pub mod menu;
