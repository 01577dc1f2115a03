//! Verified core of a node-based real-time video processing studio:
//! frame and device models, the node graph, error classification,
//! resilience policies, telemetry, hardware compatibility rules, GPU memory
//! and queue bookkeeping, capture and camera settings, virtual webcams,
//! output nodes, the box blur, playback positions and the development
//! server's registry.

pub mod virtual_camera;
pub mod frame;
pub mod pixel;
pub mod ident;
pub mod camera;
pub mod types;
pub mod text;
pub mod error;
pub mod resilience;
pub mod graph;
pub mod hardware;
pub mod telemetry;
pub mod vulkan;
pub mod engine;
pub mod capture;
pub mod params;
pub mod processors;
pub mod web;
pub mod tally;
pub mod input;
pub mod studio;
pub mod output;
pub mod blur;
pub mod playback;
