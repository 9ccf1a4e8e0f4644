pub mod assets;
pub mod event_loop;
pub mod gui;
pub mod window;
