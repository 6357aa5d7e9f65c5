//! Kernel launches through the CUDA driver, as plain data.
//!
//! A launch function works out what the driver has to be asked, and in which
//! order, and returns it as a [`Launch`]. Whoever holds the driver makes the
//! call that the launch waits for and hands the outcome to [`Launch::step`],
//! until the launch is finished; [`driver_result`] turns the driver's status
//! into such an outcome.
//!
//! - [`attribute`]: the attribute records of an extended launch, word by word;
//! - [`call`]: the two launch calls of the driver and their arguments;
//! - [`error`]: driver status codes;
//! - [`handle`]: contexts, streams and functions;
//! - [`launch`]: the launch functions and their state machine;
//! - [`laws`]: what holds across them.

pub mod attribute;
pub mod call;
pub mod error;
pub mod handle;
pub mod launch;
pub mod laws;

pub use attribute::{AttributeAbi, LaunchAttribute};
pub use call::{ExtendedLaunch, LaunchCall, LaunchConfig, PlainLaunch};
pub use error::{driver_result, DriverError};
pub use handle::{CudaContext, CudaFunction, CudaStream};
pub use launch::{
    launch_kernel, launch_kernel_cooperative, launch_kernel_cooperative_on_stream,
    launch_kernel_ex, launch_kernel_ex_cooperative, launch_kernel_ex_cooperative_on_stream,
    launch_kernel_ex_on_stream, launch_kernel_on_stream, Launch,
};
