//! Frame orchestration for a GPU-resident slime-mould simulation.
//!
//! The crate holds the decisions of the render loop as plain, verified state
//! machines: how the two field buffers trade roles, which compute kernel is
//! live, when a recording captures a frame and under which name, and what a
//! frame does in which order. Everything that touches a device, a window, a
//! file or a thread is left to the caller, who carries out the plans that
//! these functions hand back.

pub mod bindings;
pub mod capture;
pub mod clock;
pub mod orchestrator;
pub mod params;
pub mod recording;
pub mod registry;
pub mod swarm;
pub mod text;
pub mod watcher;
pub mod world;
