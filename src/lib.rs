//! Navigation core of a terminal compendium viewer: wraparound selection
//! cursors, relational projection of reference lists onto entity
//! collections, and the view / overlay state machine driven by key input.

pub mod cursor;
pub mod projection;
pub mod records;
pub mod navigation;
pub mod store;
pub mod input;
pub mod sheet;
