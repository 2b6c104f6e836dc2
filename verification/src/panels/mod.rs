//! The decisions of the interface panels: what each user action changes in
//! a panel's own state and which command it sends to the audio core.

pub mod browser;
pub mod inspector;
pub mod menu;
pub mod mixer;
pub mod timeline;
pub mod track_list;
pub mod transport;
