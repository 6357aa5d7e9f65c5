//! What holds across the launch functions, whatever the driver answers.

use vstd::prelude::*;

use crate::attribute::AttributeAbi;
use crate::call::LaunchCall;
use crate::error::DriverError;
use crate::handle::{CudaContext, CudaFunction, CudaStream};
use crate::launch::Launch;

verus! {

use crate::attribute::{
    cluster_record, cooperative_record, decode, encode, word_at, AttributeMeaning,
};
use crate::call::{records, CallModel, Geometry};
use crate::error::result_of_status;
use crate::launch::{
    bind_then, cluster_attrs, cluster_call, cluster_cooperative_attrs, cluster_cooperative_call,
    cooperative_attrs, cooperative_call, finished, geometry, plain_call, submit, DriverRequest,
    LaunchModel,
};

/// Where the context cannot be made current, the launch ends with that very
/// error: binding is all that the driver is asked, and nothing is submitted.
pub proof fn failed_bind_submits_nothing(
    context: CudaContext,
    call: CallModel,
    error: DriverError,
    later: Seq<Result<(), DriverError>>,
)
    ensures
        bind_then(context, call).run(seq![Err(error)] + later) == (
            seq![DriverRequest::BindContext(context)],
            finished(Err(error)),
        ),
{
    let outcomes: Seq<Result<(), DriverError>> = seq![Err(error)] + later;
    let start = bind_then(context, call);
    let bound = start.step(outcomes[0]);
    assert(bound.run(outcomes.drop_first()) == (Seq::<DriverRequest>::empty(), bound));
    assert(start.run(outcomes).0 =~= seq![DriverRequest::BindContext(context)]);
}

/// Once the context is current, the kernel is submitted, once, and the launch
/// ends with what the driver made of the submission.
pub proof fn bound_launch_submits_once(
    context: CudaContext,
    call: CallModel,
    outcome: Result<(), DriverError>,
    later: Seq<Result<(), DriverError>>,
)
    ensures
        bind_then(context, call).run(seq![Ok(()), outcome] + later) == (
            seq![DriverRequest::BindContext(context), DriverRequest::Submit(call)],
            finished(outcome),
        ),
{
    let outcomes: Seq<Result<(), DriverError>> = seq![Ok(()), outcome] + later;
    let start = bind_then(context, call);
    let bound = start.step(outcomes[0]);
    assert(bound == submit(call));
    assert(outcomes.drop_first() =~= seq![outcome] + later);
    unbound_launch_submits_once(call, outcome, later);
    assert(start.run(outcomes).0 =~= seq![
        DriverRequest::BindContext(context),
        DriverRequest::Submit(call),
    ]);
}

/// A launch that leaves the context to the caller never touches it: it submits
/// the kernel, once, and ends with what the driver made of the submission.
pub proof fn unbound_launch_submits_once(
    call: CallModel,
    outcome: Result<(), DriverError>,
    later: Seq<Result<(), DriverError>>,
)
    ensures
        submit(call).run(seq![outcome] + later) == (
            seq![DriverRequest::Submit(call)],
            finished(outcome),
        ),
{
    let outcomes: Seq<Result<(), DriverError>> = seq![outcome] + later;
    let start = submit(call);
    let end = start.step(outcomes[0]);
    assert(end.run(outcomes.drop_first()) == (Seq::<DriverRequest>::empty(), end));
    assert(start.run(outcomes).0 =~= seq![DriverRequest::Submit(call)]);
}

/// However many answers the driver has given so far, a launch on a stream has
/// submitted nothing unless it first asked for the stream's context to be made
/// current and the driver did so.
pub proof fn submission_follows_successful_bind(
    context: CudaContext,
    call: CallModel,
    outcomes: Seq<Result<(), DriverError>>,
    i: int,
)
    requires
        0 <= i < bind_then(context, call).run(outcomes).0.len(),
        bind_then(context, call).run(outcomes).0[i] is Submit,
    ensures
        i == 1,
        bind_then(context, call).run(outcomes).0[0] == DriverRequest::BindContext(context),
        bind_then(context, call).run(outcomes).0[1] == DriverRequest::Submit(call),
        outcomes[0] is Ok,
{
    let start = bind_then(context, call);
    reveal_with_fuel(LaunchModel::run, 4);
    let bound = start.step(outcomes[0]);
    let rest = outcomes.drop_first();
    if bound is Submit && rest.len() > 0 {
        let end = bound.step(rest[0]);
        assert(end.run(rest.drop_first()) == (Seq::<DriverRequest>::empty(), end));
    }
}

/// A launch on a stream succeeds if and only if the driver made the context
/// current and then took the kernel.
pub proof fn success_needs_bind_and_submission(
    context: CudaContext,
    call: CallModel,
    outcomes: Seq<Result<(), DriverError>>,
)
    ensures
        bind_then(context, call).run(outcomes).1 == finished(Ok(())) <==> {
            &&& outcomes.len() >= 2
            &&& outcomes[0] is Ok
            &&& outcomes[1] is Ok
        },
{
    if outcomes.len() > 0 {
        let rest = outcomes.drop_first();
        match outcomes[0] {
            Ok(unit) => {
                assert(unit == ());
                if rest.len() > 0 {
                    assert(outcomes =~= seq![Ok(()), outcomes[1]] + outcomes.skip(2));
                    bound_launch_submits_once(context, call, outcomes[1], outcomes.skip(2));
                    if outcomes[1] is Ok {
                        assert(outcomes[1]->Ok_0 == ());
                    }
                } else {
                    reveal_with_fuel(LaunchModel::run, 2);
                }
            },
            Err(error) => {
                assert(outcomes =~= seq![Err(error)] + rest);
                failed_bind_submits_nothing(context, call, error, rest);
            },
        }
    }
}

/// A finished launch asks nothing more of the driver, and its result stands.
pub proof fn finished_launch_stays_finished(
    result: Result<(), DriverError>,
    outcomes: Seq<Result<(), DriverError>>,
)
    ensures
        finished(result).run(outcomes) == (Seq::<DriverRequest>::empty(), finished(result)),
{
}

/// A kernel that the driver refused leaves the driver's own status code in the
/// launch's result, and any code but zero is a refusal.
pub proof fn status_reaches_caller(call: CallModel, status: u32)
    ensures
        status == 0 ==> submit(call).step(result_of_status(status)) == finished(Ok(())),
        status != 0 ==> submit(call).step(result_of_status(status)) == finished(
            Err(DriverError(status)),
        ),
        result_of_status(status) is Ok <==> status == 0,
        result_of_status(status) is Err ==> result_of_status(status)->Err_0.0 == status,
{
}

/// Attribute records are laid out as the driver expects them, in words of four
/// bytes: the id at byte offset 0, zero padding at 4, the cluster dimensions at
/// 8, 12 and 16, the cooperative flag at 8, and zeros up to the end of the
/// record.
pub proof fn record_layout(abi: AttributeAbi, dim: (u32, u32, u32))
    requires
        abi.valid(),
    ensures
        cluster_record(abi, dim).len() == abi.record_words,
        cluster_record(abi, dim)[0] == abi.cluster_dimension,
        cluster_record(abi, dim)[1] == 0,
        cluster_record(abi, dim)[2] == dim.0,
        cluster_record(abi, dim)[3] == dim.1,
        cluster_record(abi, dim)[4] == dim.2,
        forall|i: int| 5 <= i < abi.record_words ==> cluster_record(abi, dim)[i] == 0,
        cooperative_record(abi).len() == abi.record_words,
        cooperative_record(abi)[0] == abi.cooperative,
        cooperative_record(abi)[1] == 0,
        cooperative_record(abi)[2] == 1,
        forall|i: int| 3 <= i < abi.record_words ==> cooperative_record(abi)[i] == 0,
        forall|words: Seq<u32>, i: int| 0 <= i ==> #[trigger] word_at(words, 4 * i) == words[i],
{
}

/// Records of every size that has room for an id, padding and three cluster
/// dimensions, and that memory can hold, will do, and no others.
pub proof fn record_size_bounds(abi: AttributeAbi)
    ensures
        abi.valid() <==> 5 <= abi.record_words && abi.record_words * 4 <= isize::MAX,
{
}

/// The driver reads out of a record what the launch put into it, as long as it
/// tells the two attributes apart by their ids.
pub proof fn records_read_back(abi: AttributeAbi, meaning: AttributeMeaning)
    requires
        abi.valid(),
        abi.cluster_dimension != abi.cooperative,
    ensures
        decode(abi, encode(abi, meaning)) == Some(meaning),
{
}

/// Two requests with the same record are the same request, as long as the ids
/// of the two attributes differ.
pub proof fn records_are_unambiguous(
    abi: AttributeAbi,
    a: AttributeMeaning,
    b: AttributeMeaning,
)
    requires
        abi.valid(),
        abi.cluster_dimension != abi.cooperative,
        encode(abi, a) == encode(abi, b),
    ensures
        a == b,
{
    records_read_back(abi, a);
    records_read_back(abi, b);
}

/// A cooperative launch with clusters carries the attributes of the cluster
/// launch, then those of the cooperative launch, and nothing else.
pub proof fn attributes_combine(abi: AttributeAbi, cluster_dim: (u32, u32, u32))
    ensures
        cluster_cooperative_attrs(abi, cluster_dim) == cluster_attrs(abi, cluster_dim)
            + cooperative_attrs(abi),
{
    assert(cluster_cooperative_attrs(abi, cluster_dim) =~= cluster_attrs(abi, cluster_dim)
        + cooperative_attrs(abi));
}

/// The driver is told of exactly as many attributes as there are records, each
/// of them complete: one for a cluster launch, one for a cooperative launch,
/// two for both at once.
pub proof fn attribute_count_matches_records(
    abi: AttributeAbi,
    func: usize,
    geometry: Geometry,
    cluster_dim: (u32, u32, u32),
    stream: usize,
    kernel_params: usize,
)
    ensures
        complete_records(
            abi,
            cluster_call(abi, func, geometry, cluster_dim, stream, kernel_params),
            1,
        ),
        complete_records(abi, cooperative_call(abi, func, geometry, stream, kernel_params), 1),
        complete_records(
            abi,
            cluster_cooperative_call(abi, func, geometry, cluster_dim, stream, kernel_params),
            2,
        ),
{
}

/// A call announces and carries `count` attribute records, all of full length.
pub open spec fn complete_records(abi: AttributeAbi, call: CallModel, count: nat) -> bool {
    &&& call is Extended
    &&& call->num_attrs == count
    &&& call->attrs.len() == count
    &&& forall|i: int| 0 <= i < count ==> (#[trigger] call->attrs[i]).len()
        == abi.record_words
}

/// What a call runs: the kernel, on what geometry, on which stream, with the
/// kernel arguments and the extra options at which addresses.
pub open spec fn kernel_run(call: CallModel) -> (usize, Geometry, usize, usize, usize) {
    match call {
        CallModel::Plain { func, geometry, stream, kernel_params, extra } => (
            func,
            geometry,
            stream,
            kernel_params,
            extra,
        ),
        CallModel::Extended { func, geometry, stream, kernel_params, extra, .. } => (
            func,
            geometry,
            stream,
            kernel_params,
            extra,
        ),
    }
}

/// Every kind of launch runs the kernel that it was given, on that geometry
/// and stream, with the caller's own array of kernel arguments and no extra
/// options. The kinds differ in their attributes alone.
pub proof fn launches_differ_only_in_attributes(
    abi: AttributeAbi,
    func: usize,
    geometry: Geometry,
    cluster_dim: (u32, u32, u32),
    stream: usize,
    kernel_params: usize,
)
    ensures
        kernel_run(plain_call(func, geometry, stream, kernel_params)) == (
            func,
            geometry,
            stream,
            kernel_params,
            0usize,
        ),
        kernel_run(cluster_call(abi, func, geometry, cluster_dim, stream, kernel_params)) == (
            func,
            geometry,
            stream,
            kernel_params,
            0usize,
        ),
        kernel_run(cooperative_call(abi, func, geometry, stream, kernel_params)) == (
            func,
            geometry,
            stream,
            kernel_params,
            0usize,
        ),
        kernel_run(
            cluster_cooperative_call(abi, func, geometry, cluster_dim, stream, kernel_params),
        ) == (func, geometry, stream, kernel_params, 0usize),
{
}

/// A plain launch is a `cuLaunchKernel` call, which has no attributes, whatever
/// its geometry: the kernel, grid, block, shared memory, stream and array of
/// arguments in it are those of the caller, axis by axis, and there are no extra
/// options.
pub proof fn plain_launch_has_no_attributes(
    call: LaunchCall,
    func: usize,
    grid_dim: (u32, u32, u32),
    block_dim: (u32, u32, u32),
    shared_mem_bytes: u32,
    stream: usize,
    kernel_params: usize,
)
    requires
        call@ == plain_call(
            func,
            geometry(grid_dim, block_dim, shared_mem_bytes),
            stream,
            kernel_params,
        ),
    ensures
        call is Plain,
        call->Plain_0.func == func,
        call->Plain_0.grid_dim_x == grid_dim.0,
        call->Plain_0.grid_dim_y == grid_dim.1,
        call->Plain_0.grid_dim_z == grid_dim.2,
        call->Plain_0.block_dim_x == block_dim.0,
        call->Plain_0.block_dim_y == block_dim.1,
        call->Plain_0.block_dim_z == block_dim.2,
        call->Plain_0.shared_mem_bytes == shared_mem_bytes,
        call->Plain_0.stream == stream,
        call->Plain_0.kernel_params == kernel_params,
        call->Plain_0.extra == 0,
{
}

/// A launch with clusters is a `cuLaunchKernelEx` call with one attribute, which
/// the driver reads as the caller's cluster dimensions, x before y before z. All
/// else in the call is as the caller gave it, axis by axis.
pub proof fn cluster_launch_carries_cluster_dimensions(
    call: LaunchCall,
    abi: AttributeAbi,
    func: usize,
    grid_dim: (u32, u32, u32),
    block_dim: (u32, u32, u32),
    shared_mem_bytes: u32,
    cluster_dim: (u32, u32, u32),
    stream: usize,
    kernel_params: usize,
)
    requires
        abi.valid(),
        call@ == cluster_call(
            abi,
            func,
            geometry(grid_dim, block_dim, shared_mem_bytes),
            cluster_dim,
            stream,
            kernel_params,
        ),
    ensures
        call is Extended,
        call->Extended_0.func == func,
        call->Extended_0.config.grid_dim_x == grid_dim.0,
        call->Extended_0.config.grid_dim_y == grid_dim.1,
        call->Extended_0.config.grid_dim_z == grid_dim.2,
        call->Extended_0.config.block_dim_x == block_dim.0,
        call->Extended_0.config.block_dim_y == block_dim.1,
        call->Extended_0.config.block_dim_z == block_dim.2,
        call->Extended_0.config.shared_mem_bytes == shared_mem_bytes,
        call->Extended_0.config.stream == stream,
        call->Extended_0.kernel_params == kernel_params,
        call->Extended_0.extra == 0,
        call->Extended_0.config.num_attrs == 1,
        call->Extended_0.config.attrs@.len() == 1,
        call->Extended_0.config.attrs@[0]@.len() == abi.record_words,
        call->Extended_0.config.attrs@[0]@[0] == abi.cluster_dimension,
        call->Extended_0.config.attrs@[0]@[1] == 0,
        call->Extended_0.config.attrs@[0]@[2] == cluster_dim.0,
        call->Extended_0.config.attrs@[0]@[3] == cluster_dim.1,
        call->Extended_0.config.attrs@[0]@[4] == cluster_dim.2,
        forall|i: int| 5 <= i < abi.record_words ==> call->Extended_0.config.attrs@[0]@[i] == 0,
        decode(abi, call->Extended_0.config.attrs@[0]@) == Some(
            AttributeMeaning::ClusterDimension {
                x: cluster_dim.0,
                y: cluster_dim.1,
                z: cluster_dim.2,
            },
        ),
{
    let attrs = call->Extended_0.config.attrs@;
    assert(records(attrs).len() == 1);
    assert(records(attrs)[0] == attrs[0]@);
}

/// A cooperative launch is a `cuLaunchKernelEx` call with one attribute, which
/// the driver reads as the cooperative flag, turned on. All else in the call is
/// as the caller gave it, axis by axis.
pub proof fn cooperative_launch_carries_cooperative_flag(
    call: LaunchCall,
    abi: AttributeAbi,
    func: usize,
    grid_dim: (u32, u32, u32),
    block_dim: (u32, u32, u32),
    shared_mem_bytes: u32,
    stream: usize,
    kernel_params: usize,
)
    requires
        abi.valid(),
        call@ == cooperative_call(
            abi,
            func,
            geometry(grid_dim, block_dim, shared_mem_bytes),
            stream,
            kernel_params,
        ),
    ensures
        call is Extended,
        call->Extended_0.func == func,
        call->Extended_0.config.grid_dim_x == grid_dim.0,
        call->Extended_0.config.grid_dim_y == grid_dim.1,
        call->Extended_0.config.grid_dim_z == grid_dim.2,
        call->Extended_0.config.block_dim_x == block_dim.0,
        call->Extended_0.config.block_dim_y == block_dim.1,
        call->Extended_0.config.block_dim_z == block_dim.2,
        call->Extended_0.config.shared_mem_bytes == shared_mem_bytes,
        call->Extended_0.config.stream == stream,
        call->Extended_0.kernel_params == kernel_params,
        call->Extended_0.extra == 0,
        call->Extended_0.config.num_attrs == 1,
        call->Extended_0.config.attrs@.len() == 1,
        call->Extended_0.config.attrs@[0]@.len() == abi.record_words,
        call->Extended_0.config.attrs@[0]@[0] == abi.cooperative,
        call->Extended_0.config.attrs@[0]@[1] == 0,
        call->Extended_0.config.attrs@[0]@[2] == 1,
        forall|i: int| 3 <= i < abi.record_words ==> call->Extended_0.config.attrs@[0]@[i] == 0,
        abi.cluster_dimension != abi.cooperative ==> decode(abi, call->Extended_0.config.attrs@[0]@)
            == Some(AttributeMeaning::Cooperative),
{
    let attrs = call->Extended_0.config.attrs@;
    assert(records(attrs).len() == 1);
    assert(records(attrs)[0] == attrs[0]@);
}

/// A cooperative launch with clusters is a `cuLaunchKernelEx` call with two
/// attributes, which the driver reads as the caller's cluster dimensions and then
/// as the cooperative flag, turned on. All else in the call is as the caller gave
/// it, axis by axis.
pub proof fn cluster_cooperative_launch_carries_both(
    call: LaunchCall,
    abi: AttributeAbi,
    func: usize,
    grid_dim: (u32, u32, u32),
    block_dim: (u32, u32, u32),
    shared_mem_bytes: u32,
    cluster_dim: (u32, u32, u32),
    stream: usize,
    kernel_params: usize,
)
    requires
        abi.valid(),
        call@ == cluster_cooperative_call(
            abi,
            func,
            geometry(grid_dim, block_dim, shared_mem_bytes),
            cluster_dim,
            stream,
            kernel_params,
        ),
    ensures
        call is Extended,
        call->Extended_0.func == func,
        call->Extended_0.config.grid_dim_x == grid_dim.0,
        call->Extended_0.config.grid_dim_y == grid_dim.1,
        call->Extended_0.config.grid_dim_z == grid_dim.2,
        call->Extended_0.config.block_dim_x == block_dim.0,
        call->Extended_0.config.block_dim_y == block_dim.1,
        call->Extended_0.config.block_dim_z == block_dim.2,
        call->Extended_0.config.shared_mem_bytes == shared_mem_bytes,
        call->Extended_0.config.stream == stream,
        call->Extended_0.kernel_params == kernel_params,
        call->Extended_0.extra == 0,
        call->Extended_0.config.num_attrs == 2,
        call->Extended_0.config.attrs@.len() == 2,
        call->Extended_0.config.attrs@[0]@.len() == abi.record_words,
        call->Extended_0.config.attrs@[0]@[0] == abi.cluster_dimension,
        call->Extended_0.config.attrs@[0]@[1] == 0,
        call->Extended_0.config.attrs@[0]@[2] == cluster_dim.0,
        call->Extended_0.config.attrs@[0]@[3] == cluster_dim.1,
        call->Extended_0.config.attrs@[0]@[4] == cluster_dim.2,
        forall|i: int| 5 <= i < abi.record_words ==> call->Extended_0.config.attrs@[0]@[i] == 0,
        decode(abi, call->Extended_0.config.attrs@[0]@) == Some(
            AttributeMeaning::ClusterDimension {
                x: cluster_dim.0,
                y: cluster_dim.1,
                z: cluster_dim.2,
            },
        ),
        call->Extended_0.config.attrs@[1]@.len() == abi.record_words,
        call->Extended_0.config.attrs@[1]@[0] == abi.cooperative,
        call->Extended_0.config.attrs@[1]@[1] == 0,
        call->Extended_0.config.attrs@[1]@[2] == 1,
        forall|i: int| 3 <= i < abi.record_words ==> call->Extended_0.config.attrs@[1]@[i] == 0,
        abi.cluster_dimension != abi.cooperative ==> decode(abi, call->Extended_0.config.attrs@[1]@)
            == Some(AttributeMeaning::Cooperative),
{
    let attrs = call->Extended_0.config.attrs@;
    assert(records(attrs).len() == 2);
    assert(records(attrs)[0] == attrs[0]@);
    assert(records(attrs)[1] == attrs[1]@);
}

/// A launch that submits at once waits for its call and for nothing else.
pub proof fn unbound_launch_waits_for_its_call(launch: Launch, call: CallModel)
    requires
        launch@ == submit(call),
    ensures
        launch is Submit,
        launch->Submit_call@ == call,
{
}

/// A launch on a stream waits for the stream's own context first, and holds its
/// call until then.
pub proof fn stream_launch_waits_for_its_context(
    launch: Launch,
    stream: CudaStream,
    call: CallModel,
)
    requires
        launch@ == bind_then(stream.context, call),
    ensures
        launch is Bind,
        launch->context == stream.context,
        launch->Bind_call@ == call,
{
}

/// A launch that came to a result holds that result and waits for nothing.
pub proof fn finished_launch_holds_its_result(launch: Launch, result: Result<(), DriverError>)
    requires
        launch@ == finished(result),
    ensures
        launch is Finished,
        launch->result == result,
{
}

/// Asking for clusters and for a cooperative launch in one call hands the driver
/// the records of the two separate calls, one after the other, and leaves the
/// rest of the call as it is in either of them.
pub proof fn combined_call_joins_both_calls(
    abi: AttributeAbi,
    func: usize,
    geometry: Geometry,
    cluster_dim: (u32, u32, u32),
    stream: usize,
    kernel_params: usize,
)
    ensures
        ({
            let cluster = cluster_call(abi, func, geometry, cluster_dim, stream, kernel_params);
            let cooperative = cooperative_call(abi, func, geometry, stream, kernel_params);
            let both = cluster_cooperative_call(
                abi,
                func,
                geometry,
                cluster_dim,
                stream,
                kernel_params,
            );
            &&& both->attrs == cluster->attrs + cooperative->attrs
            &&& both->num_attrs == cluster->num_attrs + cooperative->num_attrs
            &&& kernel_run(both) == kernel_run(cluster)
            &&& kernel_run(both) == kernel_run(cooperative)
        }),
{
    attributes_combine(abi, cluster_dim);
}

/// Launching on a stream is making the stream's own context current and then
/// launching with the raw handles, for every kind of launch: once bound, the
/// launch on the stream is the launch with the raw handles.
pub proof fn on_stream_is_bind_then_launch(
    abi: AttributeAbi,
    func: CudaFunction,
    geometry: Geometry,
    cluster_dim: (u32, u32, u32),
    stream: CudaStream,
    kernel_params: usize,
)
    ensures
        binds_then_launches(
            stream,
            plain_call(func.cu_function, geometry, stream.cu_stream, kernel_params),
        ),
        binds_then_launches(
            stream,
            cluster_call(
                abi,
                func.cu_function,
                geometry,
                cluster_dim,
                stream.cu_stream,
                kernel_params,
            ),
        ),
        binds_then_launches(
            stream,
            cooperative_call(abi, func.cu_function, geometry, stream.cu_stream, kernel_params),
        ),
        binds_then_launches(
            stream,
            cluster_cooperative_call(
                abi,
                func.cu_function,
                geometry,
                cluster_dim,
                stream.cu_stream,
                kernel_params,
            ),
        ),
{
}

/// The launch of `call` on `stream` first asks for the stream's context, and is
/// the launch of `call` alone once the context is current.
pub open spec fn binds_then_launches(stream: CudaStream, call: CallModel) -> bool {
    let launch = bind_then(stream.context, call);
    &&& launch == submit(call).bound_to(stream.context)
    &&& launch.request() == Some(DriverRequest::BindContext(stream.context))
    &&& launch.step(Ok(())) == submit(call)
}

} // verus!
