pub mod camera;
pub mod camera_controller;
pub mod command;
pub mod event;
pub mod render_device;
pub mod resource;
pub mod surface_wrapper;
pub mod texture;
