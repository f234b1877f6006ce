//! Planning of a cubemap skybox render pass: which pipeline a view needs,
//! what that pipeline looks like, and what its bind group holds.
//!
//! Everything here is plain data. Nothing touches a GPU: the caller turns the
//! plans into device objects.

pub mod format;
pub mod state;
pub mod layout;
pub mod pipeline;
pub mod bind_group;
pub mod prepare;
