//! A live image viewer's rendering core: surface configuration, the image
//! texture and its hot reloads, the full-screen quad pipeline, and the
//! event-driven frame scheduler.

pub mod pipeline;
pub mod pixels;
pub mod scheduler;
pub mod surface;
pub mod texture;
