use hostcalls::memory::GuestMemory;
use hostcalls::protocol::{
    console_log, guest_error, guest_request, guest_response, host_call_apply, host_call_read,
    host_error, host_error_len, host_response, host_response_len, GuestInvocation,
    HostCallOutcome, ModuleState,
};
use hostcalls::Fault;

fn snapshot(mem: &GuestMemory) -> Vec<u8> {
    let size = mem.size() as u32;
    mem.read_bytes(0, size).unwrap()
}

#[test]
fn no_host_call_yet_reports_zero_and_writes_nothing() {
    let state = ModuleState::new();
    let mut mem = GuestMemory::from_vec(vec![5u8; 8]);
    let before = snapshot(&mem);
    assert_eq!(host_response_len(&state), 0);
    assert_eq!(host_error_len(&state), 0);
    assert!(host_response(&state, &mut mem, 0).is_ok());
    assert!(host_error(&state, &mut mem, 0).is_ok());
    assert_eq!(snapshot(&mem), before);
}

#[test]
fn successful_host_call_is_fully_observable() {
    let mut state = ModuleState::new();
    let status = host_call_apply(&mut state, HostCallOutcome::Success(1, b"ok".to_vec()));
    assert_eq!(status, 1);
    assert_eq!(host_response_len(&state), 2);
    assert_eq!(host_error_len(&state), 0);
    let mut mem = GuestMemory::new(8);
    assert!(host_response(&state, &mut mem, 3).is_ok());
    assert_eq!(mem.read_bytes(3, 2).unwrap(), b"ok".to_vec());
}

#[test]
fn failing_host_call_is_fully_observable() {
    let mut state = ModuleState::new();
    let status = host_call_apply(&mut state, HostCallOutcome::Failure("boom".to_string()));
    assert_eq!(status, 0);
    assert_eq!(host_error_len(&state), 4);
    assert_eq!(host_response_len(&state), 0);
    let mut mem = GuestMemory::new(8);
    assert!(host_error(&state, &mut mem, 0).is_ok());
    assert_eq!(mem.read_bytes(0, 4).unwrap(), b"boom".to_vec());
}

#[test]
fn host_error_length_counts_bytes_not_characters() {
    let mut state = ModuleState::new();
    let text = "h\u{e9}llo"; // five characters, six UTF-8 bytes
    host_call_apply(&mut state, HostCallOutcome::Failure(text.to_string()));
    assert_eq!(host_error_len(&state), 6);
    let mut mem = GuestMemory::new(8);
    assert!(host_error(&state, &mut mem, 0).is_ok());
    assert_eq!(mem.read_bytes(0, 6).unwrap(), text.as_bytes().to_vec());
}

#[test]
fn new_host_call_overwrites_the_previous_outcome() {
    let mut state = ModuleState::new();
    host_call_apply(&mut state, HostCallOutcome::Success(1, b"first".to_vec()));
    host_call_apply(&mut state, HostCallOutcome::Failure("gone".to_string()));
    assert_eq!(host_response_len(&state), 0);
    assert_eq!(host_error_len(&state), 4);
    host_call_apply(&mut state, HostCallOutcome::Success(1, b"back".to_vec()));
    assert_eq!(host_response_len(&state), 4);
    assert_eq!(host_error_len(&state), 0);
}

#[test]
fn host_response_is_not_cleared_by_reading() {
    let mut state = ModuleState::new();
    host_call_apply(&mut state, HostCallOutcome::Success(1, b"keep".to_vec()));
    let mut mem = GuestMemory::new(8);
    assert!(host_response(&state, &mut mem, 0).is_ok());
    assert!(host_response(&state, &mut mem, 4).is_ok());
    assert_eq!(mem.read_bytes(0, 8).unwrap(), b"keepkeep".to_vec());
}

#[test]
fn guest_response_round_trip_and_field_independence() {
    let mut state = ModuleState::new();
    let mem = GuestMemory::from_vec(b"hi, there".to_vec());
    assert!(guest_response(&mut state, &mem, 0, 2).is_ok());
    assert_eq!(state.get_guest_response().unwrap(), &b"hi".to_vec());
    assert!(guest_error(&mut state, &mem, 4, 5).is_ok());
    assert_eq!(state.get_guest_error().unwrap(), "there");
    assert_eq!(state.get_guest_response().unwrap(), &b"hi".to_vec());
}

#[test]
fn guest_response_overwrites_the_previous_one() {
    let mut state = ModuleState::new();
    let mem = GuestMemory::from_vec(b"onetwo".to_vec());
    assert!(guest_response(&mut state, &mem, 0, 3).is_ok());
    assert!(guest_response(&mut state, &mem, 3, 3).is_ok());
    assert_eq!(state.get_guest_response().unwrap(), &b"two".to_vec());
}

#[test]
fn guest_response_out_of_bounds_stores_nothing() {
    let mut state = ModuleState::new();
    let mem = GuestMemory::new(4);
    assert_eq!(guest_response(&mut state, &mem, 2, 3), Err(Fault::OutOfBounds));
    assert!(state.get_guest_response().is_none());
}

#[test]
fn guest_error_rejects_malformed_utf8() {
    let mut state = ModuleState::new();
    let mem = GuestMemory::from_vec(vec![0xff, 0xfe, 0xfd]);
    assert_eq!(guest_error(&mut state, &mem, 0, 3), Err(Fault::InvalidUtf8));
    assert!(state.get_guest_error().is_none());
}

#[test]
fn console_log_returns_the_decoded_text() {
    let mem = GuestMemory::from_vec("log: h\u{e9}llo".as_bytes().to_vec());
    let text = console_log(&mem, 0, mem.size() as u32).unwrap();
    assert_eq!(text, "log: h\u{e9}llo");
}

#[test]
fn console_log_rejects_bad_input() {
    let mem = GuestMemory::from_vec(vec![b'a', 0xff, b'b']);
    assert_eq!(console_log(&mem, 0, 4), Err(Fault::OutOfBounds));
    assert_eq!(console_log(&mem, 0, 3), Err(Fault::InvalidUtf8));
}

#[test]
fn request_is_a_silent_no_op_without_a_pending_request() {
    let state = ModuleState::new();
    let mut mem = GuestMemory::from_vec(vec![3u8; 8]);
    let before = snapshot(&mem);
    assert!(guest_request(&state, &mut mem, 0, 4).is_ok());
    assert_eq!(snapshot(&mem), before);
}

#[test]
fn request_too_large_for_memory_is_rejected_whole() {
    let mut state = ModuleState::new();
    state.set_guest_request(GuestInvocation {
        operation: "echo".to_string(),
        msg: vec![1u8; 12],
    });
    let mut mem = GuestMemory::new(8);
    let before = snapshot(&mem);
    assert_eq!(guest_request(&state, &mut mem, 0, 0), Err(Fault::OutOfBounds));
    assert_eq!(snapshot(&mem), before);
}

#[test]
fn host_call_read_marshals_all_four_ranges() {
    let mut bytes = Vec::new();
    bytes.extend_from_slice(b"default"); // binding: 0..7
    bytes.extend_from_slice(b"wasmcloud"); // namespace: 7..16
    bytes.extend_from_slice(b"sample:op"); // operation: 16..25
    bytes.extend_from_slice(&[1, 2, 3]); // payload: 25..28
    let mem = GuestMemory::from_vec(bytes);
    let req = host_call_read(&mem, 0, 7, 7, 9, 16, 9, 25, 3).unwrap();
    assert_eq!(req.binding, "default");
    assert_eq!(req.namespace, "wasmcloud");
    assert_eq!(req.operation, "sample:op");
    assert_eq!(req.payload, vec![1, 2, 3]);
}

#[test]
fn host_call_read_rejects_bad_ranges_and_bad_text() {
    let mem = GuestMemory::from_vec(vec![0xff; 8]);
    assert_eq!(
        host_call_read(&mem, 0, 1, 0, 1, 0, 1, 4, 8).map(|_| ()),
        Err(Fault::OutOfBounds)
    );
    assert_eq!(
        host_call_read(&mem, 0, 1, 0, 1, 0, 1, 0, 0).map(|_| ()),
        Err(Fault::InvalidUtf8)
    );
}

#[test]
fn engine_accessors_round_trip() {
    let mut state = ModuleState::new();
    assert!(state.get_guest_request().is_none());
    state.set_guest_request(GuestInvocation {
        operation: "op".to_string(),
        msg: b"m".to_vec(),
    });
    let inv = state.get_guest_request().unwrap();
    assert_eq!(inv.operation, "op");
    assert_eq!(inv.msg, b"m".to_vec());

    state.set_guest_response(b"r".to_vec());
    assert_eq!(state.get_guest_response().unwrap(), &b"r".to_vec());
    state.set_guest_error("e".to_string());
    assert_eq!(state.get_guest_error().unwrap(), "e");

    assert!(state.set_host_response(b"hr".to_vec()));
    assert_eq!(state.get_host_response().unwrap(), &b"hr".to_vec());
    assert!(state.set_host_error("h\u{e9}"));
    assert_eq!(state.get_host_error().unwrap(), &"h\u{e9}".as_bytes().to_vec());
}

#[test]
fn echo_request_scenario() {
    // The engine loads {operation: "echo", msg: b"hi"} and invokes the guest.
    let mut state = ModuleState::new();
    state.set_guest_request(GuestInvocation {
        operation: "echo".to_string(),
        msg: b"hi".to_vec(),
    });
    let mut mem = GuestMemory::new(64);
    // The guest asks for the request: message at 0, operation name at 8.
    assert!(guest_request(&state, &mut mem, 8, 0).is_ok());
    assert_eq!(mem.read_bytes(0, 2).unwrap(), b"hi".to_vec());
    assert_eq!(mem.read_bytes(8, 4).unwrap(), b"echo".to_vec());
    // The guest hands the same two bytes back as its response.
    assert!(guest_response(&mut state, &mem, 0, 2).is_ok());
    assert_eq!(state.get_guest_response().unwrap(), &b"hi".to_vec());
}

#[test]
fn logging_host_call_scenario() {
    let mut bytes = Vec::new();
    bytes.extend_from_slice(b"default"); // binding: 0..7
    bytes.extend_from_slice(b"wasmcloud"); // namespace: 7..16
    bytes.extend_from_slice(b"wasmcloud:logging/writeLog"); // operation: 16..42
    bytes.extend_from_slice(b"hello"); // payload: 42..47
    bytes.extend_from_slice(&[0u8; 17]); // room for the response: 47..64
    let mut mem = GuestMemory::from_vec(bytes);
    let mut state = ModuleState::new();

    // The guest invokes the host call; the engine dispatches it.
    let req = host_call_read(&mem, 0, 7, 7, 9, 16, 26, 42, 5).unwrap();
    assert_eq!(req.operation, "wasmcloud:logging/writeLog");
    assert_eq!(req.payload, b"hello".to_vec());
    // The dispatcher succeeds with response b"ok"; the engine records it.
    let status = host_call_apply(&mut state, HostCallOutcome::Success(1, b"ok".to_vec()));
    assert_eq!(status, 1);
    // The guest sizes its buffer, then fetches the response.
    assert_eq!(host_response_len(&state), 2);
    assert!(host_response(&state, &mut mem, 47).is_ok());
    assert_eq!(mem.read_bytes(47, 2).unwrap(), b"ok".to_vec());
}
