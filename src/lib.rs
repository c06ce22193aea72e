//! Attach a debug root filesystem to a running container: the engine adapter,
//! the image catalog, the overlay composer and the session store of `injesh`,
//! as verified functions over plain values.
pub mod catalog;
pub mod cmd;
pub mod command;
pub mod engine;
pub mod error;
pub mod overlay;
pub mod session;
pub mod setting;
pub mod text;
pub mod user;
