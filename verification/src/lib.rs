//! Layout and composition core of a terminal UI toolkit: widgets (tables,
//! containers) that resolve their on-screen geometry from declarative size
//! hints and track what must be redrawn.

pub mod components;
