//! A record store of funding ideas, their campaigns and attached documents,
//! with read-time joins that compute each campaign's days left and status.

pub mod idea_map;
pub mod model;
pub mod store;
pub mod laws;
