//! Core of a small real-time rendering engine: fixed-point geometry, shader
//! program and mesh lifecycles, build-once/read-many resource registries, a
//! first-person camera, and draw-call planning. The library computes fully
//! resolved plans over plain values; an embedding executes them against a GPU.

pub mod assets;
pub mod error;
pub mod fixed;
pub mod game;
pub mod game_window;
pub mod graphics;
pub mod registry;
