pub mod scene_object;
pub mod scene_object_loader;
