//! Particle flow field: the integer core of each particle, the raster it is
//! drawn into, and the decisions the animation makes on each message.

pub mod particle;
pub mod raster;
pub mod canvas;
