//! The launch functions, and the state machine that carries a launch through.
//!
//! The functions whose names end in `_on_stream` first make the stream's
//! context current on the calling thread and submit the kernel only once that
//! has succeeded. The others submit at once and leave the context to the
//! caller.
//!
//! `kernel_params` is the address of the caller's array of kernel arguments. The
//! driver gets that very address: the array is neither read nor copied on the
//! way.

use vstd::prelude::*;

use crate::attribute::{AttributeAbi, LaunchAttribute};
use crate::call::{ExtendedLaunch, LaunchCall, LaunchConfig, PlainLaunch};
use crate::error::DriverError;
use crate::handle::{CudaContext, CudaFunction, CudaStream};

verus! {

use crate::attribute::{cluster_record, cooperative_record};
use crate::call::{records, CallModel, Geometry};

/// A launch under way. Each state but the last names the driver call that it
/// waits for.
#[derive(Debug, PartialEq, Eq)]
pub enum Launch {
    /// `context` has to be made current on the calling thread; `call` comes
    /// after that.
    Bind { context: CudaContext, call: LaunchCall },
    /// `call` has to be made.
    Submit { call: LaunchCall },
    /// No call is left to make.
    Finished { result: Result<(), DriverError> },
}

/// A launch under way, in terms of what it asks of the driver.
#[verifier::ext_equal]
pub enum LaunchModel {
    Bind { context: CudaContext, call: CallModel },
    Submit { call: CallModel },
    Finished { result: Result<(), DriverError> },
}

impl View for Launch {
    type V = LaunchModel;

    open spec fn view(&self) -> LaunchModel {
        match self {
            Launch::Bind { context, call } => LaunchModel::Bind { context: *context, call: call@ },
            Launch::Submit { call } => LaunchModel::Submit { call: call@ },
            Launch::Finished { result } => LaunchModel::Finished { result: *result },
        }
    }
}

/// A driver call for which a launch can wait.
#[verifier::ext_equal]
pub enum DriverRequest {
    /// Make a context current on the calling thread.
    BindContext(CudaContext),
    /// Submit a kernel.
    Submit(CallModel),
}

impl LaunchModel {
    /// The driver call that the launch waits for.
    pub open spec fn request(self) -> Option<DriverRequest> {
        match self {
            LaunchModel::Bind { context, .. } => Some(DriverRequest::BindContext(context)),
            LaunchModel::Submit { call } => Some(DriverRequest::Submit(call)),
            LaunchModel::Finished { .. } => None,
        }
    }

    /// The launch after the call that it waits for ended with `outcome`.
    pub open spec fn step(self, outcome: Result<(), DriverError>) -> LaunchModel {
        match self {
            LaunchModel::Bind { call, .. } => match outcome {
                Ok(_) => LaunchModel::Submit { call },
                Err(_) => LaunchModel::Finished { result: outcome },
            },
            LaunchModel::Submit { .. } => LaunchModel::Finished { result: outcome },
            LaunchModel::Finished { .. } => self,
        }
    }

    /// The launch with the binding of `context` put in front of its submission.
    pub open spec fn bound_to(self, context: CudaContext) -> LaunchModel {
        match self {
            LaunchModel::Submit { call } => LaunchModel::Bind { context, call },
            _ => self,
        }
    }

    /// The requests that the launch makes, in order, when the driver answers
    /// with `outcomes` one after the other, and what it comes to.
    pub open spec fn run(self, outcomes: Seq<Result<(), DriverError>>) -> (
        Seq<DriverRequest>,
        LaunchModel,
    )
        decreases outcomes.len(),
    {
        match self.request() {
            Some(request) if outcomes.len() > 0 => {
                let (requests, end) = self.step(outcomes[0]).run(outcomes.drop_first());
                (seq![request] + requests, end)
            },
            _ => (Seq::empty(), self),
        }
    }
}

/// A launch that makes `context` current and then makes `call`.
pub open spec fn bind_then(context: CudaContext, call: CallModel) -> LaunchModel {
    LaunchModel::Bind { context, call }
}

/// A launch that makes `call` at once.
pub open spec fn submit(call: CallModel) -> LaunchModel {
    LaunchModel::Submit { call }
}

/// A launch that came to `result`.
pub open spec fn finished(result: Result<(), DriverError>) -> LaunchModel {
    LaunchModel::Finished { result }
}

impl Launch {
    /// Takes the outcome of the call that the launch waits for. A context that
    /// could not be made current ends the launch with that error, and nothing
    /// is submitted. What comes back from a submission is the launch's own
    /// result. A finished launch stays as it is.
    pub fn step(self, outcome: Result<(), DriverError>) -> (next: Launch)
        ensures
            next@ == self@.step(outcome),
            self is Bind && outcome is Ok ==> next == (Launch::Submit { call: self->Bind_call }),
            self is Bind && outcome is Err ==> next == (Launch::Finished { result: outcome }),
            self is Submit ==> next == (Launch::Finished { result: outcome }),
            self is Finished ==> next == self,
    {
        match self {
            Launch::Bind { call, .. } => match outcome {
                Ok(_) => Launch::Submit { call },
                Err(error) => Launch::Finished { result: Err(error) },
            },
            Launch::Submit { .. } => Launch::Finished { result: outcome },
            Launch::Finished { result } => Launch::Finished { result },
        }
    }

    /// Puts the binding of `context` in front of the submission.
    fn bound_to(self, context: CudaContext) -> (bound: Launch)
        ensures
            bound@ == self@.bound_to(context),
    {
        match self {
            Launch::Submit { call } => Launch::Bind { context, call },
            other => other,
        }
    }
}

/// The geometry that three launch arguments stand for.
pub open spec fn geometry(
    grid_dim: (u32, u32, u32),
    block_dim: (u32, u32, u32),
    shared_mem_bytes: u32,
) -> Geometry {
    Geometry { grid_dim, block_dim, shared_mem_bytes }
}

/// A launch without attributes and without extra options.
pub open spec fn plain_call(
    func: usize,
    geometry: Geometry,
    stream: usize,
    kernel_params: usize,
) -> CallModel {
    CallModel::Plain { func, geometry, stream, kernel_params, extra: 0 }
}

/// A launch with the given attribute records and no extra options.
pub open spec fn extended_call(
    func: usize,
    geometry: Geometry,
    stream: usize,
    attrs: Seq<Seq<u32>>,
    kernel_params: usize,
) -> CallModel {
    CallModel::Extended {
        func,
        geometry,
        stream,
        attrs,
        num_attrs: attrs.len() as u32,
        kernel_params,
        extra: 0,
    }
}

/// The records of a launch with thread-block clusters.
pub open spec fn cluster_attrs(abi: AttributeAbi, cluster_dim: (u32, u32, u32)) -> Seq<
    Seq<u32>,
> {
    seq![cluster_record(abi, cluster_dim)]
}

/// The records of a cooperative launch.
pub open spec fn cooperative_attrs(abi: AttributeAbi) -> Seq<Seq<u32>> {
    seq![cooperative_record(abi)]
}

/// The records of a cooperative launch with thread-block clusters.
pub open spec fn cluster_cooperative_attrs(
    abi: AttributeAbi,
    cluster_dim: (u32, u32, u32),
) -> Seq<Seq<u32>> {
    seq![cluster_record(abi, cluster_dim), cooperative_record(abi)]
}

/// A launch with thread-block clusters.
pub open spec fn cluster_call(
    abi: AttributeAbi,
    func: usize,
    geometry: Geometry,
    cluster_dim: (u32, u32, u32),
    stream: usize,
    kernel_params: usize,
) -> CallModel {
    extended_call(func, geometry, stream, cluster_attrs(abi, cluster_dim), kernel_params)
}

/// A cooperative launch.
pub open spec fn cooperative_call(
    abi: AttributeAbi,
    func: usize,
    geometry: Geometry,
    stream: usize,
    kernel_params: usize,
) -> CallModel {
    extended_call(func, geometry, stream, cooperative_attrs(abi), kernel_params)
}

/// A cooperative launch with thread-block clusters.
pub open spec fn cluster_cooperative_call(
    abi: AttributeAbi,
    func: usize,
    geometry: Geometry,
    cluster_dim: (u32, u32, u32),
    stream: usize,
    kernel_params: usize,
) -> CallModel {
    extended_call(
        func,
        geometry,
        stream,
        cluster_cooperative_attrs(abi, cluster_dim),
        kernel_params,
    )
}

/// Puts together the arguments of `cuLaunchKernelEx`.
fn extended_launch(
    func: usize,
    grid_dim: (u32, u32, u32),
    block_dim: (u32, u32, u32),
    shared_mem_bytes: u32,
    stream: usize,
    attrs: Vec<LaunchAttribute>,
    num_attrs: u32,
    kernel_params: usize,
) -> (call: LaunchCall)
    requires
        num_attrs == attrs@.len(),
    ensures
        call@ == extended_call(
            func,
            geometry(grid_dim, block_dim, shared_mem_bytes),
            stream,
            records(attrs@),
            kernel_params,
        ),
{
    let config = LaunchConfig {
        grid_dim_x: grid_dim.0,
        grid_dim_y: grid_dim.1,
        grid_dim_z: grid_dim.2,
        block_dim_x: block_dim.0,
        block_dim_y: block_dim.1,
        block_dim_z: block_dim.2,
        shared_mem_bytes,
        stream,
        attrs,
        num_attrs,
    };
    LaunchCall::Extended(
        ExtendedLaunch { config, func, kernel_params, extra: 0 },
    )
}

/// Launches a kernel with `cuLaunchKernel`, on whatever context is current.
pub fn launch_kernel(
    func: usize,
    grid_dim: (u32, u32, u32),
    block_dim: (u32, u32, u32),
    shared_mem_bytes: u32,
    stream: usize,
    kernel_params: usize,
) -> (launch: Launch)
    ensures
        launch@ == submit(
            plain_call(
                func,
                geometry(grid_dim, block_dim, shared_mem_bytes),
                stream,
                kernel_params,
            ),
        ),
{
    let call = LaunchCall::Plain(
        PlainLaunch {
            func,
            grid_dim_x: grid_dim.0,
            grid_dim_y: grid_dim.1,
            grid_dim_z: grid_dim.2,
            block_dim_x: block_dim.0,
            block_dim_y: block_dim.1,
            block_dim_z: block_dim.2,
            shared_mem_bytes,
            stream,
            kernel_params,
            extra: 0,
        },
    );
    Launch::Submit { call }
}

/// Launches a kernel with thread-block clusters of `cluster_dim` blocks, on
/// whatever context is current. This is one `cuLaunchKernelEx` call with the
/// cluster dimensions as its only attribute.
pub fn launch_kernel_ex(
    abi: AttributeAbi,
    func: usize,
    grid_dim: (u32, u32, u32),
    block_dim: (u32, u32, u32),
    shared_mem_bytes: u32,
    cluster_dim: (u32, u32, u32),
    stream: usize,
    kernel_params: usize,
) -> (launch: Launch)
    requires
        abi.valid(),
    ensures
        launch@ == submit(
            cluster_call(
                abi,
                func,
                geometry(grid_dim, block_dim, shared_mem_bytes),
                cluster_dim,
                stream,
                kernel_params,
            ),
        ),
{
    let mut attrs: Vec<LaunchAttribute> = Vec::new();
    attrs.push(LaunchAttribute::cluster_dimension(abi, cluster_dim));
    assert(records(attrs@) =~= cluster_attrs(abi, cluster_dim));
    let call = extended_launch(
        func,
        grid_dim,
        block_dim,
        shared_mem_bytes,
        stream,
        attrs,
        1,
        kernel_params,
    );
    Launch::Submit { call }
}

/// Launches a kernel all of whose blocks are resident on the device at the
/// same time, on whatever context is current. This is one `cuLaunchKernelEx`
/// call with the cooperative flag as its only attribute.
pub fn launch_kernel_cooperative(
    abi: AttributeAbi,
    func: usize,
    grid_dim: (u32, u32, u32),
    block_dim: (u32, u32, u32),
    shared_mem_bytes: u32,
    stream: usize,
    kernel_params: usize,
) -> (launch: Launch)
    requires
        abi.valid(),
    ensures
        launch@ == submit(
            cooperative_call(
                abi,
                func,
                geometry(grid_dim, block_dim, shared_mem_bytes),
                stream,
                kernel_params,
            ),
        ),
{
    let mut attrs: Vec<LaunchAttribute> = Vec::new();
    attrs.push(LaunchAttribute::cooperative(abi));
    assert(records(attrs@) =~= cooperative_attrs(abi));
    let call = extended_launch(
        func,
        grid_dim,
        block_dim,
        shared_mem_bytes,
        stream,
        attrs,
        1,
        kernel_params,
    );
    Launch::Submit { call }
}

/// Launches a cooperative kernel with thread-block clusters of `cluster_dim`
/// blocks, on whatever context is current. This is one `cuLaunchKernelEx` call
/// with two attributes, the cluster dimensions and then the cooperative flag.
pub fn launch_kernel_ex_cooperative(
    abi: AttributeAbi,
    func: usize,
    grid_dim: (u32, u32, u32),
    block_dim: (u32, u32, u32),
    shared_mem_bytes: u32,
    cluster_dim: (u32, u32, u32),
    stream: usize,
    kernel_params: usize,
) -> (launch: Launch)
    requires
        abi.valid(),
    ensures
        launch@ == submit(
            cluster_cooperative_call(
                abi,
                func,
                geometry(grid_dim, block_dim, shared_mem_bytes),
                cluster_dim,
                stream,
                kernel_params,
            ),
        ),
{
    let mut attrs: Vec<LaunchAttribute> = Vec::new();
    attrs.push(LaunchAttribute::cluster_dimension(abi, cluster_dim));
    attrs.push(LaunchAttribute::cooperative(abi));
    assert(records(attrs@) =~= cluster_cooperative_attrs(abi, cluster_dim));
    let call = extended_launch(
        func,
        grid_dim,
        block_dim,
        shared_mem_bytes,
        stream,
        attrs,
        2,
        kernel_params,
    );
    Launch::Submit { call }
}

/// Launches a kernel on a stream: makes the stream's context current, then
/// does as [`launch_kernel`] does.
pub fn launch_kernel_on_stream(
    func: &CudaFunction,
    grid_dim: (u32, u32, u32),
    block_dim: (u32, u32, u32),
    shared_mem_bytes: u32,
    stream: &CudaStream,
    kernel_params: usize,
) -> (launch: Launch)
    ensures
        launch@ == bind_then(
            stream.context,
            plain_call(
                func.cu_function,
                geometry(grid_dim, block_dim, shared_mem_bytes),
                stream.cu_stream,
                kernel_params,
            ),
        ),
{
    let launch = launch_kernel(
        func.cu_function(),
        grid_dim,
        block_dim,
        shared_mem_bytes,
        stream.cu_stream(),
        kernel_params,
    );
    launch.bound_to(stream.context())
}

/// Launches a kernel with thread-block clusters on a stream: makes the
/// stream's context current, then does as [`launch_kernel_ex`] does.
pub fn launch_kernel_ex_on_stream(
    abi: AttributeAbi,
    func: &CudaFunction,
    grid_dim: (u32, u32, u32),
    block_dim: (u32, u32, u32),
    shared_mem_bytes: u32,
    cluster_dim: (u32, u32, u32),
    stream: &CudaStream,
    kernel_params: usize,
) -> (launch: Launch)
    requires
        abi.valid(),
    ensures
        launch@ == bind_then(
            stream.context,
            cluster_call(
                abi,
                func.cu_function,
                geometry(grid_dim, block_dim, shared_mem_bytes),
                cluster_dim,
                stream.cu_stream,
                kernel_params,
            ),
        ),
{
    let launch = launch_kernel_ex(
        abi,
        func.cu_function(),
        grid_dim,
        block_dim,
        shared_mem_bytes,
        cluster_dim,
        stream.cu_stream(),
        kernel_params,
    );
    launch.bound_to(stream.context())
}

/// Launches a cooperative kernel on a stream: makes the stream's context
/// current, then does as [`launch_kernel_cooperative`] does.
pub fn launch_kernel_cooperative_on_stream(
    abi: AttributeAbi,
    func: &CudaFunction,
    grid_dim: (u32, u32, u32),
    block_dim: (u32, u32, u32),
    shared_mem_bytes: u32,
    stream: &CudaStream,
    kernel_params: usize,
) -> (launch: Launch)
    requires
        abi.valid(),
    ensures
        launch@ == bind_then(
            stream.context,
            cooperative_call(
                abi,
                func.cu_function,
                geometry(grid_dim, block_dim, shared_mem_bytes),
                stream.cu_stream,
                kernel_params,
            ),
        ),
{
    let launch = launch_kernel_cooperative(
        abi,
        func.cu_function(),
        grid_dim,
        block_dim,
        shared_mem_bytes,
        stream.cu_stream(),
        kernel_params,
    );
    launch.bound_to(stream.context())
}

/// Launches a cooperative kernel with thread-block clusters on a stream: makes
/// the stream's context current, then does as
/// [`launch_kernel_ex_cooperative`] does.
pub fn launch_kernel_ex_cooperative_on_stream(
    abi: AttributeAbi,
    func: &CudaFunction,
    grid_dim: (u32, u32, u32),
    block_dim: (u32, u32, u32),
    shared_mem_bytes: u32,
    cluster_dim: (u32, u32, u32),
    stream: &CudaStream,
    kernel_params: usize,
) -> (launch: Launch)
    requires
        abi.valid(),
    ensures
        launch@ == bind_then(
            stream.context,
            cluster_cooperative_call(
                abi,
                func.cu_function,
                geometry(grid_dim, block_dim, shared_mem_bytes),
                cluster_dim,
                stream.cu_stream,
                kernel_params,
            ),
        ),
{
    let launch = launch_kernel_ex_cooperative(
        abi,
        func.cu_function(),
        grid_dim,
        block_dim,
        shared_mem_bytes,
        cluster_dim,
        stream.cu_stream(),
        kernel_params,
    );
    launch.bound_to(stream.context())
}

} // verus!
