//! The points of a scan.

use crate::error::Error;
use crate::utils::float_bits::Vec3Bits;
use vstd::prelude::*;

verus! {

/// A run of points that are drawn together.
#[derive(Clone, Copy, Debug, PartialEq, Eq, Structural)]
pub struct Batch {
    pub offset: u32,
    pub num_points: u32,
}

#[derive(Debug, PartialEq, Eq)]
pub struct PointCloud {
    pub batches: Vec<Batch>,
    pub point_xyz_list: Vec<Vec3Bits>,
}

/// Splits the points into batches. Points are not batched yet: there is no
/// batch, whatever the points.
pub fn organize_batch(xyz_list: &Vec<Vec3Bits>) -> (r: Result<Vec<Batch>, Error>)
    ensures
        r matches Ok(batches) && batches@ == Seq::<Batch>::empty(),
{
    Ok(Vec::new())
}

impl PointCloud {
    /// The cloud of the points that were read, or the empty cloud where the
    /// scan could not be read: the renderer then starts with nothing to draw.
    pub fn from(loaded: Option<Vec<Vec3Bits>>) -> (cloud: PointCloud)
        ensures
            cloud.batches@ == Seq::<Batch>::empty(),
            cloud.point_xyz_list@ == match loaded {
                Some(points) => points@,
                None => Seq::<Vec3Bits>::empty(),
            },
    {
        let point_xyz_list = match loaded {
            Some(points) => points,
            None => Vec::new(),
        };

        let batches = match organize_batch(&point_xyz_list) {
            Ok(batches) => batches,
            Err(_) => Vec::new(),
        };

        PointCloud { batches, point_xyz_list }
    }
}

} // verus!
