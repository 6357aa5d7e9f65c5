//! The launch calls of the driver.

use vstd::prelude::*;

use crate::attribute::LaunchAttribute;

verus! {

/// The arguments of `cuLaunchKernel`.
#[derive(Debug, PartialEq, Eq)]
pub struct PlainLaunch {
    pub func: usize,
    pub grid_dim_x: u32,
    pub grid_dim_y: u32,
    pub grid_dim_z: u32,
    pub block_dim_x: u32,
    pub block_dim_y: u32,
    pub block_dim_z: u32,
    pub shared_mem_bytes: u32,
    pub stream: usize,
    /// The address of the array that holds the address of each kernel argument.
    pub kernel_params: usize,
    /// The address of the driver's list of extra options, zero for none.
    pub extra: usize,
}

/// The launch configuration of `cuLaunchKernelEx`.
#[derive(Debug, PartialEq, Eq)]
pub struct LaunchConfig {
    pub grid_dim_x: u32,
    pub grid_dim_y: u32,
    pub grid_dim_z: u32,
    pub block_dim_x: u32,
    pub block_dim_y: u32,
    pub block_dim_z: u32,
    pub shared_mem_bytes: u32,
    pub stream: usize,
    pub attrs: Vec<LaunchAttribute>,
    pub num_attrs: u32,
}

/// The arguments of `cuLaunchKernelEx`.
#[derive(Debug, PartialEq, Eq)]
pub struct ExtendedLaunch {
    pub config: LaunchConfig,
    pub func: usize,
    /// The address of the array that holds the address of each kernel argument.
    pub kernel_params: usize,
    /// The address of the driver's list of extra options, zero for none.
    pub extra: usize,
}

/// A call that submits a kernel.
#[derive(Debug, PartialEq, Eq)]
pub enum LaunchCall {
    /// `cuLaunchKernel`.
    Plain(PlainLaunch),
    /// `cuLaunchKernelEx`.
    Extended(ExtendedLaunch),
}

/// How many blocks and threads a kernel runs on, and with how much dynamic
/// shared memory.
#[verifier::ext_equal]
pub struct Geometry {
    pub grid_dim: (u32, u32, u32),
    pub block_dim: (u32, u32, u32),
    pub shared_mem_bytes: u32,
}

/// What a launch call asks of the driver.
#[verifier::ext_equal]
pub enum CallModel {
    Plain {
        func: usize,
        geometry: Geometry,
        stream: usize,
        /// The address of the array of kernel arguments.
        kernel_params: usize,
        extra: usize,
    },
    Extended {
        func: usize,
        geometry: Geometry,
        stream: usize,
        /// The words of each attribute record, in order.
        attrs: Seq<Seq<u32>>,
        num_attrs: u32,
        /// The address of the array of kernel arguments.
        kernel_params: usize,
        extra: usize,
    },
}

/// The words of each of a list of attribute records.
pub open spec fn records(attrs: Seq<LaunchAttribute>) -> Seq<Seq<u32>> {
    Seq::new(attrs.len(), |i: int| attrs[i]@)
}

impl View for PlainLaunch {
    type V = CallModel;

    open spec fn view(&self) -> CallModel {
        CallModel::Plain {
            func: self.func,
            geometry: Geometry {
                grid_dim: (self.grid_dim_x, self.grid_dim_y, self.grid_dim_z),
                block_dim: (self.block_dim_x, self.block_dim_y, self.block_dim_z),
                shared_mem_bytes: self.shared_mem_bytes,
            },
            stream: self.stream,
            kernel_params: self.kernel_params,
            extra: self.extra,
        }
    }
}

impl View for ExtendedLaunch {
    type V = CallModel;

    open spec fn view(&self) -> CallModel {
        CallModel::Extended {
            func: self.func,
            geometry: Geometry {
                grid_dim: (
                    self.config.grid_dim_x,
                    self.config.grid_dim_y,
                    self.config.grid_dim_z,
                ),
                block_dim: (
                    self.config.block_dim_x,
                    self.config.block_dim_y,
                    self.config.block_dim_z,
                ),
                shared_mem_bytes: self.config.shared_mem_bytes,
            },
            stream: self.config.stream,
            attrs: records(self.config.attrs@),
            num_attrs: self.config.num_attrs,
            kernel_params: self.kernel_params,
            extra: self.extra,
        }
    }
}

impl View for LaunchCall {
    type V = CallModel;

    open spec fn view(&self) -> CallModel {
        match self {
            LaunchCall::Plain(launch) => launch@,
            LaunchCall::Extended(launch) => launch@,
        }
    }
}

} // verus!
