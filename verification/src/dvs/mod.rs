pub mod deferred_voxel_shading;
pub mod voxelization;
