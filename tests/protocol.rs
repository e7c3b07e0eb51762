use wapc::abi::HostImport;
use wapc::driver::{engine_failure, guest_call_export, start_result};
use wapc::ids::InstanceIds;
use wapc::memory::{read_region, write_region};
use wapc::wasi::{compute_argv, WasiParams};
use wapc::{ErrorKind, GuestTrap, HostCallStep, LogDelivery, ModuleState, WapcError};

const OP_AT: i32 = 0;
const PAYLOAD_AT: i32 = 64;
const SCRATCH_AT: i32 = 128;
const TEXT_AT: i32 = 256;

/// What the embedder's host callback saw and what the log callback received.
#[derive(Default)]
struct Host {
    host_calls: Vec<(u64, String, String, String, Vec<u8>)>,
    logs: Vec<(u64, String)>,
    sink: Vec<(u64, String)>,
}

fn host_callback(bd: &str, ns: &str, op: &str, payload: &[u8]) -> Result<Vec<u8>, String> {
    if ns == "math" && op == "add" && bd.is_empty() && payload == b"x" {
        Ok(b"y".to_vec())
    } else {
        Err(format!("unknown operation {}", op))
    }
}

fn put(mem: &mut [u8], at: i32, bytes: &[u8]) {
    write_region(mem, at, bytes).unwrap();
}

/// A guest in the manner of the waPC guest SDKs: it pulls its request, dispatches on
/// the operation, and answers through the host imports.
fn conforming_guest(
    state: &mut ModuleState,
    host: &mut Host,
    mem: &mut Vec<u8>,
    op_len: i32,
    payload_len: i32,
) -> i32 {
    state.guest_request(mem, OP_AT, PAYLOAD_AT).unwrap();
    let op = String::from_utf8(read_region(mem, OP_AT, op_len).unwrap()).unwrap();
    let payload = read_region(mem, PAYLOAD_AT, payload_len).unwrap();
    match op.as_str() {
        "echo" => {
            state.guest_response(mem, PAYLOAD_AT, payload_len).unwrap();
            1
        }
        "upper" => {
            put(mem, SCRATCH_AT, &payload.to_ascii_uppercase());
            state.guest_response(mem, SCRATCH_AT, payload_len).unwrap();
            1
        }
        "divide" => {
            if payload.iter().all(|b| *b == 0) {
                let err = tea_codec::serialize("division by zero").unwrap();
                put(mem, SCRATCH_AT, &err);
                state.guest_error(mem, SCRATCH_AT, err.len() as i32).unwrap();
                0
            } else {
                state.guest_response(mem, PAYLOAD_AT, payload_len).unwrap();
                1
            }
        }
        "nested" => {
            put(mem, TEXT_AT, b"mathadd");
            let rc = run_host_call(state, host, mem, (TEXT_AT, 0), (TEXT_AT, 4), (TEXT_AT + 4, 3), (PAYLOAD_AT, payload_len));
            assert_eq!(rc, 1);
            let n = state.host_response_len().unwrap();
            state.host_response(mem, SCRATCH_AT).unwrap();
            state.guest_response(mem, SCRATCH_AT, n).unwrap();
            1
        }
        "lognoise" => {
            put(mem, TEXT_AT, b"hello");
            deliver(host, state.console_log(mem, TEXT_AT, 5).unwrap());
            state.guest_response(mem, SCRATCH_AT, 0).unwrap();
            1
        }
        "silent_failure" => 0,
        "silent_success" => 1,
        _ => 0,
    }
}

/// The same as `conforming_guest`, but its echo reverses the payload.
fn reversing_guest(state: &mut ModuleState, mem: &mut Vec<u8>, op_len: i32, payload_len: i32) -> i32 {
    state.guest_request(mem, OP_AT, PAYLOAD_AT).unwrap();
    let _ = op_len;
    let mut payload = read_region(mem, PAYLOAD_AT, payload_len).unwrap();
    payload.reverse();
    put(mem, SCRATCH_AT, &payload);
    state.guest_response(mem, SCRATCH_AT, payload_len).unwrap();
    1
}

fn deliver(host: &mut Host, d: LogDelivery) {
    match d {
        LogDelivery::Callback { id, message } => host.logs.push((id, message)),
        LogDelivery::Sink { id, message } => host.sink.push((id, message)),
    }
}

/// Performs a `__host_call` as the embedder does: both halves, with the callback
/// invoked between them.
fn run_host_call(
    state: &mut ModuleState,
    host: &mut Host,
    mem: &[u8],
    bd: (i32, i32),
    ns: (i32, i32),
    op: (i32, i32),
    payload: (i32, i32),
) -> i32 {
    match state.host_call(mem, bd.0, bd.1, ns.0, ns.1, op.0, op.1, payload.0, payload.1).unwrap() {
        HostCallStep::Invoke(req) => {
            host.host_calls.push((req.id, req.binding.clone(), req.namespace.clone(), req.operation.clone(), req.payload.clone()));
            let result = host_callback(&req.binding, &req.namespace, &req.operation, &req.payload);
            state.finish_host_call(result)
        }
        HostCallStep::Done(rc) => rc,
    }
}

/// `call` as the host driver performs it, with the guest run in place of the engine.
fn call(
    state: &mut ModuleState,
    host: &mut Host,
    mem: &mut Vec<u8>,
    op: &str,
    payload: &[u8],
) -> Result<Vec<u8>, WapcError> {
    let (op_len, payload_len) = state.begin_call(op, payload)?;
    let rc = conforming_guest(state, host, mem, op_len, payload_len);
    state.call_result(rc)
}

fn guest_failure_message(e: &WapcError) -> String {
    match e.kind() {
        ErrorKind::GuestCallFailure(m) => m.clone(),
        _ => panic!("not a guest call failure"),
    }
}

fn memory() -> Vec<u8> {
    vec![0u8; 1024]
}

#[test]
fn echo_returns_payload() {
    let (mut state, mut host, mut mem) = (ModuleState::new(1), Host::default(), memory());
    assert_eq!(call(&mut state, &mut host, &mut mem, "echo", b"hi").unwrap(), b"hi".to_vec());
}

#[test]
fn upper_returns_upper_case() {
    let (mut state, mut host, mut mem) = (ModuleState::new(1), Host::default(), memory());
    assert_eq!(call(&mut state, &mut host, &mut mem, "upper", b"abc").unwrap(), b"ABC".to_vec());
}

#[test]
fn divide_by_zero_is_guest_failure() {
    let (mut state, mut host, mut mem) = (ModuleState::new(1), Host::default(), memory());
    let e = call(&mut state, &mut host, &mut mem, "divide", b"\x00\x00\x00\x00").unwrap_err();
    assert_eq!(guest_failure_message(&e), "division by zero");
}

#[test]
fn nested_host_call_result_is_echoed() {
    let (mut state, mut host, mut mem) = (ModuleState::new(7), Host::default(), memory());
    assert_eq!(call(&mut state, &mut host, &mut mem, "nested", b"x").unwrap(), b"y".to_vec());
    assert_eq!(
        host.host_calls,
        vec![(7, String::new(), "math".to_string(), "add".to_string(), b"x".to_vec())]
    );
}

#[test]
fn log_reaches_log_callback_once() {
    let (mut state, mut host, mut mem) = (ModuleState::new_with_logger(9), Host::default(), memory());
    assert_eq!(call(&mut state, &mut host, &mut mem, "lognoise", b"").unwrap(), Vec::<u8>::new());
    assert_eq!(host.logs, vec![(9, "hello".to_string())]);
    assert!(host.sink.is_empty());
}

#[test]
fn log_without_callback_goes_to_sink() {
    let (mut state, mut host, mut mem) = (ModuleState::new(4), Host::default(), memory());
    call(&mut state, &mut host, &mut mem, "lognoise", b"").unwrap();
    assert!(host.logs.is_empty());
    assert_eq!(host.sink, vec![(4, "hello".to_string())]);
}

#[test]
fn hot_swap_keeps_state_and_runs_new_module() {
    let (mut state, mut host, mut mem) = (ModuleState::new(3), Host::default(), memory());
    assert_eq!(call(&mut state, &mut host, &mut mem, "echo", b"az").unwrap(), b"az".to_vec());
    // the new module runs against the same state and a fresh memory
    let mut mem2 = memory();
    let (op_len, payload_len) = state.begin_call("echo", b"za").unwrap();
    let rc = reversing_guest(&mut state, &mut mem2, op_len, payload_len);
    assert_eq!(state.call_result(rc).unwrap(), b"az".to_vec());
    assert_eq!(state.id, 3);
    let (op_len, payload_len) = state.begin_call("echo", b"z").unwrap();
    let rc = reversing_guest(&mut state, &mut mem2, op_len, payload_len);
    assert_eq!(state.call_result(rc).unwrap(), b"z".to_vec());
}

#[test]
fn hot_swapped_call_equals_fresh_call() {
    let (mut used, mut host, mut mem) = (ModuleState::new(5), Host::default(), memory());
    call(&mut used, &mut host, &mut mem, "nested", b"x").unwrap();
    call(&mut used, &mut host, &mut mem, "divide", b"\x00").unwrap_err();
    let mut fresh = ModuleState::new(5);
    let a = call(&mut used, &mut host, &mut memory(), "upper", b"qr").unwrap();
    let b = call(&mut fresh, &mut host, &mut memory(), "upper", b"qr").unwrap();
    assert_eq!(a, b);
}

#[test]
fn request_stays_after_call() {
    let (mut state, mut host, mut mem) = (ModuleState::new(1), Host::default(), memory());
    call(&mut state, &mut host, &mut mem, "nested", b"x").unwrap();
    let inv = state.guest_request.as_ref().unwrap();
    assert_eq!(inv.operation, "nested");
    assert_eq!(inv.msg, b"x".to_vec());
}

#[test]
fn failure_without_error_message() {
    let (mut state, mut host, mut mem) = (ModuleState::new(1), Host::default(), memory());
    let e = call(&mut state, &mut host, &mut mem, "silent_failure", b"").unwrap_err();
    assert_eq!(guest_failure_message(&e), "No error message set for call failure");
}

#[test]
fn success_without_response_or_error() {
    let (mut state, mut host, mut mem) = (ModuleState::new(1), Host::default(), memory());
    let e = call(&mut state, &mut host, &mut mem, "silent_success", b"").unwrap_err();
    assert_eq!(guest_failure_message(&e), "No error message OR response set for call success");
}

#[test]
fn success_with_error_only_is_failure() {
    let mut state = ModuleState::new(1);
    state.begin_call("op", b"").unwrap();
    state.guest_error = Some("bad".to_string());
    assert_eq!(guest_failure_message(&state.call_result(1).unwrap_err()), "bad");
}

#[test]
fn response_wins_over_error_on_success() {
    let mut state = ModuleState::new(1);
    state.begin_call("op", b"").unwrap();
    state.guest_error = Some("bad".to_string());
    state.guest_response = Some(b"ok".to_vec());
    assert_eq!(state.call_result(1).unwrap(), b"ok".to_vec());
    assert_eq!(guest_failure_message(&state.call_result(0).unwrap_err()), "bad");
}

#[test]
fn begin_call_clears_previous_response_and_error() {
    let mut state = ModuleState::new(1);
    state.guest_response = Some(b"old".to_vec());
    state.guest_error = Some("old".to_string());
    assert_eq!(state.begin_call("abc", b"12345").unwrap(), (3, 5));
    assert!(state.guest_response.is_none());
    assert!(state.guest_error.is_none());
}

#[test]
fn missing_host_callback_is_reported_to_guest() {
    let mut state = ModuleState::new(2);
    state.host_callback = false;
    let mut host = Host::default();
    let mut mem = memory();
    put(&mut mem, TEXT_AT, b"nsop");
    let rc = run_host_call(&mut state, &mut host, &mem, (TEXT_AT, 0), (TEXT_AT, 2), (TEXT_AT + 2, 2), (0, 0));
    assert_eq!(rc, 0);
    assert!(host.host_calls.is_empty());
    assert_eq!(state.host_error.as_deref(), Some("missing host callback function"));
    assert_eq!(state.host_response_len(), Ok(0));
    let expected = tea_codec::serialize("missing host callback function").unwrap();
    assert_eq!(state.host_error_len(), Ok(expected.len() as i32));
}

#[test]
fn host_call_success_lengths() {
    let mut state = ModuleState::new(2);
    state.host_error = Some("stale".to_string());
    let mut host = Host::default();
    let mut mem = memory();
    put(&mut mem, TEXT_AT, b"mathaddx");
    let rc = run_host_call(&mut state, &mut host, &mem, (TEXT_AT, 0), (TEXT_AT, 4), (TEXT_AT + 4, 3), (TEXT_AT + 7, 1));
    assert_eq!(rc, 1);
    assert_eq!(state.host_response_len(), Ok(1));
    assert_eq!(state.host_error_len(), Ok(0));
}

#[test]
fn host_call_failure_lengths_and_bytes() {
    let mut state = ModuleState::new(2);
    state.host_response = Some(b"stale".to_vec());
    let mut host = Host::default();
    let mut mem = memory();
    put(&mut mem, TEXT_AT, b"bdnsop");
    let rc = run_host_call(&mut state, &mut host, &mem, (TEXT_AT, 2), (TEXT_AT + 2, 2), (TEXT_AT + 4, 2), (0, 3));
    assert_eq!(rc, 0);
    assert_eq!(state.host_response_len(), Ok(0));
    let expected = tea_codec::serialize("unknown operation op").unwrap();
    assert_eq!(state.host_error_len(), Ok(expected.len() as i32));
    state.host_error(&mut mem, SCRATCH_AT).unwrap();
    assert_eq!(read_region(&mem, SCRATCH_AT, expected.len() as i32).unwrap(), expected);
    assert_ne!(expected, b"unknown operation op".to_vec());
}

#[test]
fn host_call_with_invalid_utf8_traps() {
    let mut state = ModuleState::new(2);
    let mut mem = memory();
    put(&mut mem, TEXT_AT, &[0xff, 0xfe]);
    let r = state.host_call(&mem, TEXT_AT, 2, TEXT_AT, 0, TEXT_AT, 0, 0, 0);
    assert!(matches!(r, Err(GuestTrap::InvalidUtf8)));
    let r = state.host_call(&mem, TEXT_AT, 2, 2000, 1, TEXT_AT, 0, 0, 0);
    assert!(matches!(r, Err(GuestTrap::OutOfBounds)));
}

#[test]
fn host_response_without_response_leaves_memory() {
    let state = ModuleState::new(2);
    let mut mem = memory();
    state.host_response(&mut mem, 0).unwrap();
    state.host_error(&mut mem, 0).unwrap();
    assert_eq!(mem, memory());
}

#[test]
fn guest_error_is_decoded() {
    let mut state = ModuleState::new(1);
    let mut mem = memory();
    let bytes = tea_codec::serialize("overflow").unwrap();
    put(&mut mem, 10, &bytes);
    state.guest_error(&mem, 10, bytes.len() as i32).unwrap();
    assert_eq!(state.guest_error.as_deref(), Some("overflow"));
}

#[test]
fn guest_error_that_does_not_decode_traps() {
    let mut state = ModuleState::new(1);
    let mut mem = memory();
    put(&mut mem, 10, &[0xc1]);
    assert_eq!(state.guest_error(&mem, 10, 1), Err(GuestTrap::Codec));
    assert!(state.guest_error.is_none());
}

#[test]
fn guest_request_without_request_is_no_op() {
    let state = ModuleState::new(1);
    let mut mem = memory();
    state.guest_request(&mut mem, 0, 10).unwrap();
    assert_eq!(mem, memory());
}

#[test]
fn guest_request_out_of_bounds_traps_and_writes_nothing() {
    let mut state = ModuleState::new(1);
    state.begin_call("op", b"payload").unwrap();
    let mut mem = vec![0u8; 8];
    assert_eq!(state.guest_request(&mut mem, 7, 0), Err(GuestTrap::OutOfBounds));
    assert_eq!(mem, vec![0u8; 8]);
    state.guest_request(&mut mem, 0, 1).unwrap();
    assert_eq!(mem, b"opayload".to_vec());
}

#[test]
fn console_log_invalid_utf8_traps() {
    let state = ModuleState::new(1);
    let mut mem = memory();
    put(&mut mem, 0, &[0xc3, 0x28]);
    assert!(matches!(state.console_log(&mem, 0, 2), Err(GuestTrap::InvalidUtf8)));
    assert!(matches!(state.console_log(&mem, 1020, 5), Err(GuestTrap::OutOfBounds)));
}

#[test]
fn memory_regions() {
    let mut mem = vec![1u8, 2, 3, 4];
    assert_eq!(read_region(&mem, 1, 2), Ok(vec![2, 3]));
    assert_eq!(read_region(&mem, 4, 0), Ok(vec![]));
    assert_eq!(read_region(&mem, 3, 2), Err(GuestTrap::OutOfBounds));
    assert_eq!(read_region(&mem, 0, -1), Err(GuestTrap::OutOfBounds));
    assert_eq!(read_region(&mem, -1, 1), Err(GuestTrap::OutOfBounds));
    assert_eq!(write_region(&mut mem, 2, &[9, 9]), Ok(()));
    assert_eq!(mem, vec![1, 2, 9, 9]);
    assert_eq!(write_region(&mut mem, 3, &[7, 7]), Err(GuestTrap::OutOfBounds));
    assert_eq!(mem, vec![1, 2, 9, 9]);
}

#[test]
fn ids_are_distinct_and_start_at_one() {
    let mut ids = InstanceIds::new();
    let a = ids.allocate().unwrap();
    let b = ids.allocate().unwrap();
    let c = ids.allocate().unwrap();
    assert_eq!((a, b, c), (1, 2, 3));
}

#[test]
fn missing_guest_call_export() {
    let e = guest_call_export::<u32>(None).unwrap_err();
    assert_eq!(guest_failure_message(&e), "Guest module did not export __guest_call function!");
    assert_eq!(guest_call_export(Some(5u32)).unwrap(), 5);
}

#[test]
fn failing_start_function() {
    let e = start_result::<String>(Some(Err("trap".to_string()))).unwrap_err();
    assert_eq!(guest_failure_message(&e), "Error invoking _start function!");
    assert!(start_result::<String>(None).is_ok());
    assert!(start_result::<String>(Some(Ok(()))).is_ok());
}

#[test]
fn engine_failure_message() {
    match engine_failure("guest call failed", "out of fuel").into_kind() {
        ErrorKind::WasmMisc(m) => assert_eq!(m, "guest call failed: out of fuel"),
        _ => panic!("not an engine failure"),
    }
}

#[test]
fn error_structs_convert_to_their_kind() {
    let e: WapcError = wapc::error::NoSuchFunction("f".to_string()).into();
    assert!(matches!(e.kind(), ErrorKind::NoSuchFunction(s) if s == "f"));
    let e: WapcError = wapc::error::HostCallFailure("h".to_string()).into();
    assert!(matches!(e.kind(), ErrorKind::HostCallFailure(s) if s == "h"));
    let e: WapcError = wapc::error::WasmMisc("w".to_string()).into();
    assert!(matches!(e.kind(), ErrorKind::WasmMisc(s) if s == "w"));
    let e = wapc::errors::new(ErrorKind::GuestCallFailure("g".to_string()));
    assert!(matches!(e.into_kind(), ErrorKind::GuestCallFailure(s) if s == "g"));
}

#[test]
fn imports_registered_in_order() {
    let names: Vec<&str> = HostImport::all().iter().map(|i| i.name()).collect();
    assert_eq!(
        names,
        vec![
            "__console_log",
            "__host_call",
            "__guest_request",
            "__host_response",
            "__host_response_len",
            "__guest_response",
            "__guest_error",
            "__host_error",
            "__host_error_len"
        ]
    );
}

#[test]
fn argv_starts_with_program_name() {
    let argv = compute_argv("hello.wasm".to_string(), vec!["a".to_string(), "b".to_string()]);
    assert_eq!(argv, vec!["hello.wasm", "a", "b"]);
    let p = WasiParams::new(vec![], vec![], vec![("K".to_string(), "V".to_string())], vec![]);
    assert_eq!(p.env_vars.len(), 1);
}

#[test]
fn encoded_error_lengths_follow_string_headers() {
    let mut state = ModuleState::new(1);
    state.host_error = Some("missing host callback function".to_string());
    assert_eq!(state.host_error_len(), Ok(31));
    state.host_error = Some("x".repeat(40));
    assert_eq!(state.host_error_len(), Ok(42));
    let mut mem = memory();
    state.host_error(&mut mem, 0).unwrap();
    assert_eq!(&mem[0..2], &[0xd9, 40]);
    assert_eq!(&mem[2..42], "x".repeat(40).as_bytes());
    state.host_error = Some("y".repeat(300));
    assert_eq!(state.host_error_len(), Ok(303));
    assert_eq!(state.host_error(&mut vec![0u8; 302], 0), Err(GuestTrap::OutOfBounds));
}
