//! Integer-valued building blocks of a spherical plotting library:
//! object identifiers, RGBA colours, and the index logic of polygons.

pub mod color;
pub mod nearest;
pub mod object_id;

pub use color::Color;
pub use object_id::ObjectId;
