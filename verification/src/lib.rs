//! Selection and cropping logic of a screen-region capture tool.
//!
//! The tool shows a captured screen image centred in a window, lets the user
//! drag out a rectangle, and on confirmation cuts that rectangle out of the
//! image. This crate holds the part of it that can be reasoned about: the
//! geometry that maps a dragged rectangle to image pixels, the per-frame
//! selection state machine, the overlay that previews the selection, and the
//! crop itself with the name of the file it is saved under. Reading the
//! pointer, drawing, writing files and filling the clipboard are left to the
//! caller.

pub mod bitmap;
pub mod capture;
pub mod controller;
pub mod geometry;
pub mod overlay;
pub mod paths;
pub mod selection;
