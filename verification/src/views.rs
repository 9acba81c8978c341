pub mod home;
pub mod login;
pub mod media;
pub mod settings;
