//! The handlers of a controller that keeps everything in one record.

pub mod relay;
