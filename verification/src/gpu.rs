//! The GPU driver bridge: identifier allocation, resource tables, pixel
//! conversion, pipeline selection and command translation.

pub mod ids;
pub mod state;
pub mod bitmap;
pub mod table;
pub mod pipeline;
pub mod ops;
pub mod driver;
pub mod laws;
