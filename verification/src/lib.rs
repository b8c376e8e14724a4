//! Orchestration core of an interactive shader playground.
//!
//! A compute shader writes into an image every frame, a display pass draws that
//! image on a screen-filling quad, shaders can be swapped while the program
//! runs, and a background job renders an animation frame by frame for a video
//! encoder.
//!
//! The library decides which GPU objects exist, how they are wired and in which
//! order the GPU is asked to do things. It never talks to a GPU itself: every
//! request is recorded on a [`device::Device`] as a [`device::Command`], and the
//! host program replays the recorded commands on the real graphics API.

pub mod compute;
pub mod device;
pub mod export;
pub mod frame;
pub mod renderer;
pub mod shader_manager;
pub mod text;
pub mod texture;
pub mod worker;
