//! A small demonstration library: an entry routine that binds a name and an
//! age, derives the age plus one and a type description, and renders one
//! output line, together with the type-name probe and the decimal rendering
//! that the line needs.

pub mod decimal;
pub mod entry;
pub mod probe;
