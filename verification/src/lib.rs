//! Decision logic of a daemon that announces the track a music player
//! server has started to play.

pub mod artwork;
pub mod directory;
pub mod history;
pub mod notification;
pub mod session;
pub mod track;
