//! Driver handles. A handle is the address by which the driver knows an
//! object; nothing here looks behind it.

use vstd::prelude::*;

verus! {

/// A driver context.
#[derive(Clone, Copy, Debug, PartialEq, Eq, Structural)]
pub struct CudaContext {
    pub cu_ctx: usize,
}

/// A kernel of a loaded module.
#[derive(Clone, Copy, Debug, PartialEq, Eq, Structural)]
pub struct CudaFunction {
    pub cu_function: usize,
}

/// A stream, with the context that owns it.
#[derive(Clone, Copy, Debug, PartialEq, Eq, Structural)]
pub struct CudaStream {
    pub cu_stream: usize,
    pub context: CudaContext,
}

impl CudaFunction {
    /// The driver's handle of the kernel.
    pub fn cu_function(&self) -> (handle: usize)
        ensures
            handle == self.cu_function,
    {
        self.cu_function
    }
}

impl CudaStream {
    /// The driver's handle of the stream.
    pub fn cu_stream(&self) -> (handle: usize)
        ensures
            handle == self.cu_stream,
    {
        self.cu_stream
    }

    /// The context that owns the stream.
    pub fn context(&self) -> (context: CudaContext)
        ensures
            context == self.context,
    {
        self.context
    }
}

} // verus!
