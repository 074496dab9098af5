pub mod point_cloud;
pub mod point_cloud_renderer;
