//! How shapes are filled and stroked.

pub mod fill_style;
pub mod horizontal_gradient;
pub mod shape_style;
pub mod vertical_gradient;
