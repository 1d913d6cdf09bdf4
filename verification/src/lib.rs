//! The verified core of a real-time renderer: resource descriptions, the
//! per-frame plan and the event dispatch, stated over plain values so that a
//! thin shell can carry them out on a graphics device and a window.

pub mod app;
pub mod graphics;
