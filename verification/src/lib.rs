//! The logic of a weather dashboard: the starred cities, the screens the
//! dashboard moves through, the requests it makes to the forecast service
//! and how it reads the replies.

pub mod api;
pub mod app;
pub mod favorites;
pub mod ui;
