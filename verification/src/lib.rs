pub mod activation;
pub mod dispatch;
pub mod modes;
pub mod paths;
pub mod settings;
pub mod text;
pub mod window;
