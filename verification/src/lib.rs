//! Game rules of an orbital sandbox: camera modes, contact tracking,
//! player controls, information overlays and the choice of the body that
//! dominates a point.

pub mod attractor;
pub mod camera;
pub mod collision;
pub mod control;
pub mod visibility;
