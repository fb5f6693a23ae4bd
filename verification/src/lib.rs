//! Verified game logic of a 3D character game: the networked input protocol, key bindings,
//! input freezing and the cursor, camera-kind switching, interactions, session set-up,
//! navigation probing and animation selection.

pub mod protocol;
pub mod game_control;
pub mod actions;
pub mod camera;
pub mod interaction;
pub mod networking;
pub mod navigation;
pub mod animation;
pub mod movement;
