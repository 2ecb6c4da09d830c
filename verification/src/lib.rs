//! Webcam still-capture library: YUYV 4:2:2 to RGB conversion, capture
//! pipeline orchestration, and JPEG encoding of the converted raster.
pub mod convert;
pub mod decimal;
pub mod pipeline;
