//! A verified model-loading and GPU resource-binding pipeline.
//!
//! The library parses a text-based 3D asset description into plain records,
//! packs vertex data into the layout the render pipeline expects, plans the
//! per-mesh tangent-space compute pass, and records the draw calls a front
//! end must issue.  The graphics device itself is an external collaborator:
//! device-resident objects are modelled by the data uploaded to them and by
//! the binding descriptions handed to the device.

pub mod binding;
pub mod draw;
pub mod error;
pub mod geometry;
pub mod loader;
pub mod material;
pub mod mesh;
