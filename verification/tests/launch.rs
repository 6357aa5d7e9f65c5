//! Launches on concrete values, with outcomes in place of a driver.

use simt_launch::{
    driver_result, launch_kernel, launch_kernel_cooperative, launch_kernel_cooperative_on_stream,
    launch_kernel_ex, launch_kernel_ex_cooperative, launch_kernel_ex_cooperative_on_stream,
    launch_kernel_ex_on_stream, launch_kernel_on_stream, AttributeAbi, CudaContext, CudaFunction,
    CudaStream, DriverError, ExtendedLaunch, Launch, LaunchAttribute, LaunchCall, PlainLaunch,
};

const ABI: AttributeAbi = AttributeAbi { cluster_dimension: 4, cooperative: 2, record_words: 18 };

const GRID: (u32, u32, u32) = (64, 32, 16);
const BLOCK: (u32, u32, u32) = (256, 2, 1);
const SHARED: u32 = 4096;
const CLUSTER: (u32, u32, u32) = (8, 4, 2);
const PARAMS: usize = 0x7008;

const FUNC: CudaFunction = CudaFunction { cu_function: 0xf00 };
const CONTEXT: CudaContext = CudaContext { cu_ctx: 0xc00 };
const STREAM: CudaStream = CudaStream { cu_stream: 0x500, context: CONTEXT };

fn cluster_words() -> Vec<u32> {
    let mut words = vec![4, 0, 8, 4, 2];
    words.resize(18, 0);
    words
}

fn cooperative_words() -> Vec<u32> {
    let mut words = vec![2, 0, 1];
    words.resize(18, 0);
    words
}

fn plain() -> Launch {
    launch_kernel(0xf00, GRID, BLOCK, SHARED, 0x500, PARAMS)
}

fn extended(launch: Launch) -> ExtendedLaunch {
    match launch {
        Launch::Submit { call: LaunchCall::Extended(launch) } => launch,
        _ => panic!("expected an extended launch"),
    }
}

fn check_extended(launch: &ExtendedLaunch, records: &[Vec<u32>]) {
    assert_eq!(launch.func, 0xf00);
    assert_eq!(launch.kernel_params, PARAMS);
    assert_eq!(launch.extra, 0);
    let config = &launch.config;
    assert_eq!((config.grid_dim_x, config.grid_dim_y, config.grid_dim_z), GRID);
    assert_eq!((config.block_dim_x, config.block_dim_y, config.block_dim_z), BLOCK);
    assert_eq!(config.shared_mem_bytes, SHARED);
    assert_eq!(config.stream, 0x500);
    assert_eq!(config.num_attrs as usize, records.len());
    assert_eq!(config.attrs.len(), records.len());
    for (attribute, words) in config.attrs.iter().zip(records) {
        assert_eq!(attribute.words(), words.as_slice());
    }
}

/// Answers each call of a launch with the next outcome. Returns the contexts
/// bound, the calls submitted and the result.
fn run(
    launch: Launch,
    outcomes: &[Result<(), DriverError>],
) -> (Vec<CudaContext>, usize, Option<Result<(), DriverError>>) {
    let mut launch = launch;
    let mut bound = Vec::new();
    let mut submitted = 0;
    for outcome in outcomes {
        match &launch {
            Launch::Bind { context, .. } => bound.push(*context),
            Launch::Submit { .. } => submitted += 1,
            Launch::Finished { .. } => {}
        }
        launch = launch.step(*outcome);
    }
    match launch {
        Launch::Finished { result } => (bound, submitted, Some(result)),
        _ => (bound, submitted, None),
    }
}

#[test]
fn status_zero_is_success() {
    assert_eq!(driver_result(0), Ok(()));
}

#[test]
fn other_status_is_an_error_with_that_code() {
    assert_eq!(driver_result(1), Err(DriverError(1)));
    assert_eq!(driver_result(720), Err(DriverError(720)));
    assert_eq!(driver_result(u32::MAX), Err(DriverError(u32::MAX)));
}

#[test]
fn handles_are_handed_out_unchanged() {
    assert_eq!(FUNC.cu_function(), 0xf00);
    assert_eq!(STREAM.cu_stream(), 0x500);
    assert_eq!(STREAM.context(), CONTEXT);
}

#[test]
fn cluster_record_layout() {
    let attribute = LaunchAttribute::cluster_dimension(ABI, CLUSTER);
    assert_eq!(attribute.words(), cluster_words().as_slice());
}

#[test]
fn cooperative_record_layout() {
    let attribute = LaunchAttribute::cooperative(ABI);
    assert_eq!(attribute.words(), cooperative_words().as_slice());
}

#[test]
fn smallest_records() {
    let abi = AttributeAbi { cluster_dimension: 7, cooperative: 9, record_words: 5 };
    let cluster = LaunchAttribute::cluster_dimension(abi, (u32::MAX, 0, 1));
    assert_eq!(cluster.words(), &[7, 0, u32::MAX, 0, 1]);
    assert_eq!(LaunchAttribute::cooperative(abi).words(), &[9, 0, 1, 0, 0]);
}

#[test]
fn records_tell_requests_apart() {
    let small = LaunchAttribute::cluster_dimension(ABI, (1, 0, 0));
    assert_ne!(small, LaunchAttribute::cooperative(ABI));
    assert_ne!(small, LaunchAttribute::cluster_dimension(ABI, (1, 0, 1)));
    assert_eq!(small, LaunchAttribute::cluster_dimension(ABI, (1, 0, 0)));
}

#[test]
fn plain_launch_arguments() {
    let expected = PlainLaunch {
        func: 0xf00,
        grid_dim_x: 64,
        grid_dim_y: 32,
        grid_dim_z: 16,
        block_dim_x: 256,
        block_dim_y: 2,
        block_dim_z: 1,
        shared_mem_bytes: 4096,
        stream: 0x500,
        kernel_params: 0x7008,
        extra: 0,
    };
    assert_eq!(plain(), Launch::Submit { call: LaunchCall::Plain(expected) });
}

#[test]
fn cluster_launch_arguments() {
    let launch = launch_kernel_ex(ABI, 0xf00, GRID, BLOCK, SHARED, CLUSTER, 0x500, PARAMS);
    check_extended(&extended(launch), &[cluster_words()]);
}

#[test]
fn cooperative_launch_arguments() {
    let launch = launch_kernel_cooperative(ABI, 0xf00, GRID, BLOCK, SHARED, 0x500, PARAMS);
    check_extended(&extended(launch), &[cooperative_words()]);
}

#[test]
fn cluster_attribute_comes_before_cooperative() {
    let launch =
        launch_kernel_ex_cooperative(ABI, 0xf00, GRID, BLOCK, SHARED, CLUSTER, 0x500, PARAMS);
    check_extended(&extended(launch), &[cluster_words(), cooperative_words()]);
}

#[test]
fn array_of_arguments_is_handed_over_in_place() {
    let array: [usize; 3] = [0x1000, 0x2008, 0x3010];
    let address = array.as_ptr() as usize;
    let before = array;
    let plain = launch_kernel(1, (1, 1, 1), (1, 1, 1), 0, 0, address);
    let launches = [
        launch_kernel_ex(ABI, 1, (1, 1, 1), (1, 1, 1), 0, (1, 1, 1), 0, address),
        launch_kernel_cooperative(ABI, 1, (1, 1, 1), (1, 1, 1), 0, 0, address),
        launch_kernel_ex_cooperative(ABI, 1, (1, 1, 1), (1, 1, 1), 0, (1, 1, 1), 0, address),
    ];
    match plain {
        Launch::Submit { call: LaunchCall::Plain(launch) } => {
            assert_eq!(launch.kernel_params, address);
            assert_eq!(launch.extra, 0);
        }
        _ => panic!("expected a plain launch"),
    }
    for launch in launches {
        let launch = extended(launch);
        assert_eq!(launch.kernel_params, address);
        assert_eq!(launch.extra, 0);
    }
    assert_eq!(array, before);
}

#[test]
fn on_stream_binds_then_makes_the_raw_call() {
    let launches = [
        (launch_kernel_on_stream(&FUNC, GRID, BLOCK, SHARED, &STREAM, PARAMS), plain()),
        (
            launch_kernel_ex_on_stream(ABI, &FUNC, GRID, BLOCK, SHARED, CLUSTER, &STREAM, PARAMS),
            launch_kernel_ex(ABI, 0xf00, GRID, BLOCK, SHARED, CLUSTER, 0x500, PARAMS),
        ),
        (
            launch_kernel_cooperative_on_stream(
                ABI, &FUNC, GRID, BLOCK, SHARED, &STREAM, PARAMS,
            ),
            launch_kernel_cooperative(ABI, 0xf00, GRID, BLOCK, SHARED, 0x500, PARAMS),
        ),
        (
            launch_kernel_ex_cooperative_on_stream(
                ABI, &FUNC, GRID, BLOCK, SHARED, CLUSTER, &STREAM, PARAMS,
            ),
            launch_kernel_ex_cooperative(
                ABI, 0xf00, GRID, BLOCK, SHARED, CLUSTER, 0x500, PARAMS,
            ),
        ),
    ];
    for (launch, raw) in launches {
        match &launch {
            Launch::Bind { context, .. } => assert_eq!(*context, CONTEXT),
            _ => panic!("expected the context to be bound first"),
        }
        assert_eq!(launch.step(Ok(())), raw);
    }
}

#[test]
fn failed_bind_submits_nothing() {
    let launch = launch_kernel_on_stream(&FUNC, GRID, BLOCK, SHARED, &STREAM, PARAMS);
    let outcomes = [Err(DriverError(201)), Ok(()), Ok(())];
    assert_eq!(run(launch, &outcomes), (vec![CONTEXT], 0, Some(Err(DriverError(201)))));
}

#[test]
fn refused_submission_is_reported() {
    let launch =
        launch_kernel_cooperative_on_stream(ABI, &FUNC, GRID, BLOCK, SHARED, &STREAM, PARAMS);
    let outcomes = [Ok(()), driver_result(720)];
    assert_eq!(run(launch, &outcomes), (vec![CONTEXT], 1, Some(Err(DriverError(720)))));
}

#[test]
fn accepted_submission_succeeds() {
    let launch =
        launch_kernel_ex_on_stream(ABI, &FUNC, GRID, BLOCK, SHARED, CLUSTER, &STREAM, PARAMS);
    assert_eq!(run(launch, &[Ok(()), Ok(())]), (vec![CONTEXT], 1, Some(Ok(()))));
}

#[test]
fn bound_launch_is_not_finished() {
    let launch = launch_kernel_on_stream(&FUNC, GRID, BLOCK, SHARED, &STREAM, PARAMS);
    assert_eq!(run(launch, &[Ok(())]), (vec![CONTEXT], 0, None));
}

#[test]
fn launch_without_binding_submits_once() {
    let outcomes = [driver_result(1), Ok(()), Ok(())];
    assert_eq!(run(plain(), &outcomes), (vec![], 1, Some(Err(DriverError(1)))));
}

#[test]
fn finished_launch_keeps_its_result() {
    let launch = Launch::Finished { result: Ok(()) };
    assert_eq!(launch.step(Err(DriverError(3))), Launch::Finished { result: Ok(()) });
    let launch = Launch::Finished { result: Err(DriverError(3)) };
    assert_eq!(launch.step(Ok(())), Launch::Finished { result: Err(DriverError(3)) });
}
