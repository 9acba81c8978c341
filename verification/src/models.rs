pub mod media;
pub mod toasts;
