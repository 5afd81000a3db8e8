pub mod camera;
pub mod key_listener;
pub mod mouse_listener;
pub mod scene;
