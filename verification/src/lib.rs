//! Verified core of a dice playbox: a pair of dice tumbling in a box that
//! always fills the camera's view.
//!
//! The box is a child of the camera rig. Whenever the window is resized, the
//! [`frustum`] solver finds the corner of the camera's view at a fixed depth,
//! the [`playbox`] is refitted so that its walls stand on the edge of the
//! view, and the [`spawner`] places new dice at the centre of the box. Every
//! tick, [`control`] turns the keyboard or the device's motion sensor into a
//! force on the rig, and [`feedback`] turns the collisions that started into
//! sounds, louder for harder impacts. [`mesh`] turns the box's visual mesh
//! inside out, so that the walls are seen from within.
//!
//! All quantities are fixed-point numbers, whole millionths of their unit
//! (see [`units`]); [`transform`] carries points from one space into
//! another. Nothing here reads a window, a sensor or a physics world: the
//! caller hands in what it read and carries out what comes back.

pub mod control;
pub mod error;
pub mod feedback;
pub mod frustum;
pub mod mesh;
pub mod playbox;
pub mod spawner;
pub mod transform;
pub mod units;
