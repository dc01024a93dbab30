//! The endpoints: what each handler decides once the server has parsed the
//! request, and the shapes of what it takes and gives.

pub mod hello;
pub mod log;
