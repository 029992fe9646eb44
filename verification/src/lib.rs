use vstd::prelude::*;

pub mod audio;
pub mod bluetooth;
pub mod discovery;
pub mod image;
pub mod keyed;
pub mod media;
pub mod network;
pub mod notification;
pub mod search;
pub mod shortcut;
pub mod text;
pub mod time;
pub mod window;
