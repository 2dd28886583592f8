//! The stages of a tick, as far as they decide anything.

pub mod inventory_systems;
pub mod keep_alive;
pub mod rebuild_player_location;

pub use inventory_systems::give_command;
pub use keep_alive::keep_alive;
pub use rebuild_player_location::rebuild_player_location;
