//! Verified core of a webcam stippling demo: the arithmetic, tables and
//! frame scheduling that sit between the browser, the GPU and the
//! Poisson-disk sampler.
pub mod arith;
pub mod dispatch;
pub mod bytes;
pub mod mode;
pub mod draw;
pub mod layout;
pub mod sliders;
pub mod canvas;
pub mod frame;
