//! Voxel grids as they are held on the host before upload.

use vstd::prelude::*;
use crate::vector::Vec3;

verus! {

/// A dense array of densities in three dimensions, one byte per voxel, stored
/// with the first coordinate running fastest.
#[derive(PartialEq, Eq, Debug)]
pub struct CpuTexture3D {
    /// The densities, `width * height * depth` of them.
    pub data: Vec<u8>,
    /// Number of voxels along the first axis.
    pub width: u32,
    /// Number of voxels along the second axis.
    pub height: u32,
    /// Number of voxels along the third axis.
    pub depth: u32,
}

/// A voxel grid together with the extent of the box it fills.
#[derive(PartialEq, Eq, Debug)]
pub struct CpuVoxelGrid {
    /// The voxel data.
    pub voxels: CpuTexture3D,
    /// The size of the box the voxel data is stretched over.
    pub size: Vec3,
}

/// Why a voxel grid cannot be turned into a material.
#[derive(Clone, Copy, PartialEq, Eq, Structural, Debug, Hash)]
pub enum VoxelGridError {
    /// One of the three dimensions is zero.
    ZeroDimension,
    /// The dimensions are positive but there are no samples.
    EmptySamples,
    /// The number of samples is not the product of the dimensions.
    SampleCountMismatch,
}

impl Clone for CpuTexture3D {
    /// A texture of the same dimensions with the same densities.
    fn clone(&self) -> (copy: Self)
        ensures
            copy.data@ == self.data@,
            copy.width == self.width,
            copy.height == self.height,
            copy.depth == self.depth,
    {
        CpuTexture3D {
            data: self.data.clone(),
            width: self.width,
            height: self.height,
            depth: self.depth,
        }
    }
}

impl Clone for CpuVoxelGrid {
    /// A grid of the same size with the same voxels.
    fn clone(&self) -> (copy: Self)
        ensures
            copy.voxels.data@ == self.voxels.data@,
            copy.voxels.width == self.voxels.width,
            copy.voxels.height == self.voxels.height,
            copy.voxels.depth == self.voxels.depth,
            copy.size == self.size,
    {
        CpuVoxelGrid { voxels: self.voxels.clone(), size: self.size }
    }
}

impl CpuTexture3D {
    /// The number of voxels that the dimensions announce.
    pub open spec fn voxel_count(&self) -> nat {
        (self.width as nat) * (self.height as nat) * (self.depth as nat)
    }

    /// What is wrong with the texture, if anything: the first of zero
    /// dimension, no samples, wrong number of samples.
    pub open spec fn defect(&self) -> Option<VoxelGridError> {
        if self.width == 0 || self.height == 0 || self.depth == 0 {
            Some(VoxelGridError::ZeroDimension)
        } else if self.data@.len() == 0 {
            Some(VoxelGridError::EmptySamples)
        } else if self.data@.len() != self.voxel_count() {
            Some(VoxelGridError::SampleCountMismatch)
        } else {
            None
        }
    }

    /// Every dimension is at least one and there is one sample per voxel.
    pub open spec fn well_formed(&self) -> bool {
        self.defect() is None
    }

    /// Checks the texture, reporting the first defect found.
    pub fn validate(&self) -> (checked: Result<(), VoxelGridError>)
        ensures
            checked == match self.defect() {
                Some(e) => Err::<(), VoxelGridError>(e),
                None => Ok::<(), VoxelGridError>(()),
            },
    {
        if self.width == 0 || self.height == 0 || self.depth == 0 {
            return Err(VoxelGridError::ZeroDimension);
        }
        if self.data.len() == 0 {
            return Err(VoxelGridError::EmptySamples);
        }
        let width: u64 = self.width as u64;
        let height: u64 = self.height as u64;
        assert(width * height <= 0xffff_ffff * 0xffff_ffff) by (nonlinear_arith)
            requires
                width <= 0xffff_ffff,
                height <= 0xffff_ffff,
        ;
        let layer: u128 = (width * height) as u128;
        let depth: u128 = self.depth as u128;
        assert(layer * depth <= 0xffff_ffff * 0xffff_ffff * 0xffff_ffff) by (nonlinear_arith)
            requires
                layer <= 0xffff_ffff * 0xffff_ffff,
                depth <= 0xffff_ffff,
        ;
        let count: u128 = layer * depth;
        if self.data.len() as u128 != count {
            return Err(VoxelGridError::SampleCountMismatch);
        }
        Ok(())
    }
}

impl CpuVoxelGrid {
    /// What is wrong with the grid, if anything.
    pub open spec fn defect(&self) -> Option<VoxelGridError> {
        self.voxels.defect()
    }

    /// The grid can be uploaded and rendered.
    pub open spec fn well_formed(&self) -> bool {
        self.voxels.well_formed()
    }

    /// Checks the grid, reporting the first defect found.
    pub fn validate(&self) -> (checked: Result<(), VoxelGridError>)
        ensures
            checked == match self.defect() {
                Some(e) => Err::<(), VoxelGridError>(e),
                None => Ok::<(), VoxelGridError>(()),
            },
    {
        self.voxels.validate()
    }
}

} // verus!
