use vstd::prelude::*;

pub mod canvas;
pub mod chrome;
pub mod curve;
pub mod deck;
pub mod drag;
pub mod editor;
pub mod frame;
pub mod gallery;
pub mod header;
pub mod history;
pub mod knob;
pub mod numeric_entry;
pub mod paint;
pub mod screen;
pub mod session;
pub mod slots;

verus! {

} // verus!
