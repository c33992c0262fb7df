pub mod settings;
pub mod template;
pub mod ui;
