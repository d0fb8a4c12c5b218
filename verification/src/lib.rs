//! Grid-aligned steering and motion integration for a 2D platformer.
//!
//! Actors logically occupy discrete grid cells but move smoothly through
//! continuous world space. Each simulation tick, the motion resolver turns an
//! actor's steering state (current cell, destination cell, direction intent,
//! locomotion mode) into a linear velocity and, for airborne modes, a directly
//! computed vertical position; the integrator then advances every entity's
//! world position by velocity times elapsed time. Vertical motion while
//! falling or jumping is a pure function of absolute time, so replaying a
//! trajectory at any earlier timestamp reproduces it exactly.
//!
//! World positions, speeds and times are fixed-point integers: positions and
//! speeds in milliunits (one grid cell is [`grid::CELL_SIZE`] milliunits on a
//! side), times in milliseconds.

pub mod config;
pub mod editor;
pub mod grid;
pub mod laws;
pub mod level;
pub mod movement;
pub mod steering;
