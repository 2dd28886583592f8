//! Records of which the world holds exactly one.

pub mod player_aabb_lookup;
