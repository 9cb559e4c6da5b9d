//! Core logic of a map-pack installer for a game engine: the registry of
//! installed packs, archive inspection, extraction planning and the
//! progress and install state machines, each with a verified contract.

pub mod archive;
pub mod configuration;
pub mod dates;
pub mod extract;
pub mod game_player;
pub mod image_loader;
pub mod initializable;
pub mod injector;
pub mod install_flow;
pub mod installer;
pub mod locales;
pub mod progress;
pub mod quake_file;
pub mod registry;
pub mod remote;
pub mod text;
