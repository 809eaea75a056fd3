pub mod settings;
pub mod terminal;
