//! Screen sharing for an X11 client that runs in a Wayland session.

pub mod capture;
pub mod hook;
pub mod image_proc;
pub mod injector;
pub mod portal;
pub mod pw;
pub mod text;
