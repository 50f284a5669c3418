pub mod app_state;
pub mod graphics;
pub mod render_thread;
