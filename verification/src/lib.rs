pub mod config;
pub mod image;
pub mod image_loader;
pub mod scheduler;
pub mod settings;
pub mod text;
pub mod image_handler;
pub mod error;
pub mod roseate_core;
pub mod notifier;
pub mod toasts;
