pub mod dialog_add_config;
pub mod utils;
pub mod widget;
