//! The editing, wrapping, layout and event logic of Graphite's terminal input box.

pub mod text;
pub mod wrap;
pub mod selection;
pub mod theme;
pub mod layout;
pub mod input_box;
