//! Core of a grid-based level editor: a working grid of tiles and occupants,
//! an edit-validation pipeline that maintains the occupancy invariant, an
//! exclusive editing-mode state machine, and a two-phase lifecycle barrier
//! that sequences editor startup and teardown.
//!
//! Rendering, input devices, cameras and on-disk persistence are collaborators:
//! they hand this core plain values (grid coordinates, visual handles, signals)
//! and receive grid snapshots and action lists back.

pub mod tiles;
pub mod grid;
pub mod edit;
pub mod mode;
pub mod lifecycle;
pub mod level;
pub mod episode;
pub mod selector;
pub mod zoom;
