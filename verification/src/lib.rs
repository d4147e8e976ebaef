//! Layout primitives and views for building SwiftUI-like interfaces on
//! small, allocation-free targets.

pub mod primitives;
pub mod layout;
pub mod render;
pub mod event;
pub mod focus;
pub mod font;
pub mod view;

use vstd::prelude::*;

verus! {
} // verus!
