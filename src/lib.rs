//! Integer and byte logic of a Monte-Carlo path tracer: the text image
//! encoding, the face classification of a hit, the termination policy of a
//! traced light path, and the layout of a multi-threaded render.

pub mod image_writer;
pub mod hit;
pub mod path;
pub mod plan;
