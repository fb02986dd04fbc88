use nulldc::debug_rpc::build_memory_slice;
use nulldc::debugger::{
    create_frame_event_with_id, make_register_key, split_watch_expression, BreakpointCategoryState, EventLogEntry,
    ServerState, EVENT_LOG_LIMIT,
};
use nulldc::device_tree::collect_registers_from_tree;
use nulldc::dreamcast::{init_dreamcast, Dreamcast};
use nulldc::mock_data::{generate_disassembly, mock_instruction, mock_memory, spaced_hex};
use nulldc::rpc::{check_request_fits, handle_request, RpcParams, RpcRequest, RpcResult};
use sha2::{Digest, Sha256};

fn params() -> RpcParams {
    RpcParams {
        target: None,
        address: None,
        length: None,
        count: None,
        max_frames: None,
        expressions: Vec::new(),
        watch_ids: Vec::new(),
        watch_id: None,
        value: None,
        new_expression: None,
        event: None,
        kind: None,
        enabled: None,
        id: None,
        categories: None,
    }
}

fn request(method: &str, params: RpcParams) -> RpcRequest {
    RpcRequest { method: method.to_string(), params }
}

fn first_hash_byte(s: &str) -> u8 {
    Sha256::digest(s.as_bytes())[0]
}

fn empty_answer(r: &Result<(RpcResult, bool), nulldc::rpc::RpcErrorObject>) -> bool {
    matches!(r, Ok((RpcResult::Empty, true)))
}

#[test]
fn a_new_server_has_sample_state() {
    let s = ServerState::new(1234);
    assert_eq!(s.watches.len(), 2);
    assert_eq!(s.watches[0].id, 1);
    assert_eq!(s.watches[0].expression, "dc.sh4.cpu.pc");
    assert_eq!(s.watches[1].expression, "dc.sh4.dmac.dmaor");
    assert_eq!(s.event_log.len(), 6);
    assert_eq!(s.event_log[0].event_id, "1");
    assert_eq!(s.event_log[0].timestamp, 1234);
    assert_eq!(s.event_log[0].subsystem, "core");
    assert_eq!(s.event_log[0].message, "CORE/QUEUE_SUBMISSION");
    assert_eq!(s.event_log[5].subsystem, "ta");
    assert_eq!(s.event_log[5].message, "TA/END_LIST tile 6");
    assert_eq!(s.category_states.len(), 4);
    assert_eq!(s.category_states[1].0, "sh4");
    assert!(s.is_running);
    assert_eq!(s.next_event_id, 7);
    assert_eq!(s.next_watch_id, 3);
    assert_eq!(s.next_breakpoint_id, 1);
    assert!(s.breakpoints.is_empty());
}

#[test]
fn sample_events_rotate_through_the_generators() {
    let e = create_frame_event_with_id(4, 9);
    assert_eq!((e.event_id.as_str(), e.timestamp, e.subsystem.as_str(), e.severity.as_str()), ("4", 9, "sh4", "warn"));
    assert_eq!(e.message, "SH4/INTERRUPT IRQ5 asserted");
    let e = create_frame_event_with_id(8, 9);
    assert_eq!(e.message, "DSP/STEP pipeline advanced (0)");
    let e = create_frame_event_with_id(9, 9);
    assert_eq!(e.message, "AICA/SGC/STEP channel 1");
}

#[test]
fn registers_read_back_what_was_set() {
    let mut s = ServerState::new(0);
    assert_eq!(make_register_key("dc.sh4.cpu", "PC"), "dc.sh4.cpu.pc");
    assert_eq!(s.get_register_value("dc.sh4.cpu", "PC"), "0x8C0000A0");
    assert_eq!(s.get_register_value("dc.sh4.cpu", "nothing"), "0x00000000");
    s.set_register_value("dc.sh4.cpu", "PC", "0x12345678".to_string());
    assert_eq!(s.get_register_value("dc.sh4.cpu", "pc"), "0x12345678");
    assert_eq!(s.get_register_value("dc.sh4.cpu", "PR"), "0x8C0000A2");
    s.set_register_value("dc.new", "X", "7".to_string());
    assert_eq!(s.get_register_value("dc.new", "x"), "7");
}

#[test]
fn watch_expressions_split_at_the_last_dot() {
    assert_eq!(split_watch_expression("dc.sh4.cpu.pc"), ("dc.sh4.cpu".to_string(), "pc".to_string()));
    assert_eq!(split_watch_expression("r3"), ("dc.sh4.cpu".to_string(), "r3".to_string()));
    let s = ServerState::new(0);
    assert_eq!(s.evaluate_watch_expression(None, "dc.sh4.dmac.dmaor"), "0x8201");
    let mut dc = Dreamcast::default();
    init_dreamcast(&mut dc, &vec![0x09, 0x00]);
    assert_eq!(s.evaluate_watch_expression(Some(&dc), "dc.sh4.cpu.pc"), "0x8C010000");
    // A name the machine does not know falls back to the held text.
    assert_eq!(s.evaluate_watch_expression(Some(&dc), "dc.sh4.cpu.fpul_x"), "0x00000000");
}

#[test]
fn the_event_log_keeps_the_newest_entries() {
    let mut s = ServerState::new(0);
    for i in 0..100u64 {
        let e = EventLogEntry {
            event_id: String::new(),
            timestamp: 0,
            subsystem: "sh4".to_string(),
            severity: "info".to_string(),
            message: format!("m{}", i),
        };
        s.push_event(e, i);
    }
    assert_eq!(s.event_log.len(), EVENT_LOG_LIMIT);
    assert_eq!(s.event_log.last().unwrap().message, "m99");
    assert_eq!(s.event_log.last().unwrap().timestamp, 99);
    assert_eq!(s.event_log.last().unwrap().event_id, "106");
    assert_eq!(s.event_log[0].message, "m40");
    assert_eq!(s.next_event_id, 107);
    // An entry that brings its own id keeps it.
    let e = EventLogEntry {
        event_id: "x".to_string(),
        timestamp: 0,
        subsystem: "ta".to_string(),
        severity: "info".to_string(),
        message: "own".to_string(),
    };
    s.push_event(e, 5);
    assert_eq!(s.event_log.last().unwrap().event_id, "x");
    assert_eq!(s.next_event_id, 107);
}

#[test]
fn the_mock_machine_cycles_its_program_counter() {
    let mut s = ServerState::new(0);
    s.increment_program_counter("SH4");
    assert_eq!(s.get_register_value("dc.sh4.cpu", "PC"), "0x8C0000A2");
    for _ in 0..7 {
        s.increment_program_counter("sh4");
    }
    assert_eq!(s.get_register_value("dc.sh4.cpu", "PC"), "0x8C0000A0");
    s.increment_program_counter("arm7");
    assert_eq!(s.get_register_value("dc.aica.arm7", "PC"), "0x00200014");
    s.increment_program_counter("dsp");
    assert_eq!(s.get_register_value("dc.aica.dsp", "STEP"), "0x001");
    let before = s.get_register_value("dc.sh4.cpu", "PC");
    s.increment_program_counter("holly");
    assert_eq!(s.get_register_value("dc.sh4.cpu", "PC"), before);
}

#[test]
fn pseudo_data_comes_from_sha256() {
    let data = mock_memory("arm7", 0x0020_0000, 3);
    assert_eq!(data, vec![first_hash_byte("arm7:200000"), first_hash_byte("arm7:200001"), first_hash_byte("arm7:200002")]);
    let lines = generate_disassembly("sh4", 0x8C00_0000, 2);
    assert_eq!(lines.len(), 2);
    assert_eq!(lines[1].address, 0x8C00_0002);
    assert_eq!(lines[0].disassembly, mock_instruction(false, first_hash_byte("sh4:8c000000")));
    let bytes = vec![first_hash_byte("sh4:8c000002:0"), first_hash_byte("sh4:8c000002:1")];
    assert_eq!(lines[1].bytes, spaced_hex(&bytes));
    let arm = generate_disassembly("arm7", 0x10, 1);
    assert_eq!(arm[0].bytes.len(), 11);
    // The same request gives the same listing.
    let again = generate_disassembly("sh4", 0x8C00_0000, 2);
    assert_eq!(again[0].disassembly, lines[0].disassembly);
}

#[test]
fn pseudo_instruction_texts() {
    // h = 0x00: mov.l @r0+, r0 on the SH4; mov r0, #0 on the ARM7.
    assert_eq!(mock_instruction(false, 0x00), "mov.l @r0+, r0");
    assert_eq!(mock_instruction(true, 0x00), "mov r0, #0");
    // h = 0x07: nop takes no operands.
    assert_eq!(mock_instruction(false, 0x07), "nop");
    // h = 0x15: bf with offset 7 * 0x15 = 0x93.
    assert_eq!(mock_instruction(false, 0x15), "bf 0x93");
    assert_eq!(spaced_hex(&vec![0x0A, 0xFF]), "0A FF");
}

#[test]
fn memory_slices_read_the_machine_when_attached() {
    let mut dc = Dreamcast::default();
    init_dreamcast(&mut dc, &vec![1, 2, 3, 4]);
    let m = build_memory_slice(Some(&dc), "sh4", Some(0x8C01_0000), Some(4)).unwrap();
    assert_eq!(m.data, vec![1, 2, 3, 4]);
    assert_eq!(m.base_address, 0x8C01_0000);
    assert_eq!(m.validity, "ok");
    assert!(build_memory_slice(Some(&dc), "sh4", Some(0x1000_0000), Some(4)).is_none());
    let mock = build_memory_slice(None, "dsp", None, None).unwrap();
    assert_eq!(mock.base_address, 0);
    assert_eq!(mock.data.len(), 64);
    assert_eq!(mock.data[0], first_hash_byte("dsp:0"));
}

#[test]
fn unknown_methods_are_refused() {
    let mut s = ServerState::new(0);
    let mut m: Option<Dreamcast> = None;
    let req = request("foo.bar", params());
    assert!(check_request_fits(&s, &m, &req));
    match handle_request(&mut s, &mut m, &req) {
        Err(e) => {
            assert_eq!(e.code, -32601);
            assert_eq!(e.message, "Method not found: foo.bar");
        },
        Ok(_) => panic!("expected an error"),
    }
}

#[test]
fn describe_gives_one_root_node() {
    let mut s = ServerState::new(0);
    let mut m: Option<Dreamcast> = None;
    match handle_request(&mut s, &mut m, &request("debugger.describe", params())) {
        Ok((RpcResult::Describe(tree), true)) => {
            assert_eq!(tree.len(), 1);
            assert_eq!(tree[0].path, "dc");
            let groups = collect_registers_from_tree(&tree);
            assert!(groups.iter().any(|g| g.0 == "dc.sh4.cpu"));
        },
        _ => panic!("expected a device tree"),
    }
}

#[test]
fn watches_are_added_edited_and_removed() {
    let mut s = ServerState::new(0);
    let mut m: Option<Dreamcast> = None;
    let mut p = params();
    p.expressions = vec!["dc.sh4.sr".to_string(), "dc.nowhere.x".to_string()];
    assert!(empty_answer(&handle_request(&mut s, &mut m, &request("state.watch", p))));
    assert_eq!(s.watches.len(), 4);
    assert_eq!(s.watches[2].id, 3);
    assert_eq!(s.watches[3].id, 4);
    assert_eq!(s.next_watch_id, 5);

    // Editing the watch on dc.sh4.sr sets that register.
    let mut p = params();
    p.watch_id = Some(3);
    p.value = Some("0x1".to_string());
    assert!(empty_answer(&handle_request(&mut s, &mut m, &request("state.editWatch", p))));
    assert_eq!(s.get_register_value("dc.sh4", "sr"), "0x1");

    // A watch on something that is not a held register cannot be edited.
    let mut p = params();
    p.watch_id = Some(4);
    match handle_request(&mut s, &mut m, &request("state.editWatch", p)) {
        Ok((RpcResult::Failure(code, msg), false)) => {
            assert_eq!(code, -32602);
            assert_eq!(msg, "Cannot edit non-register expression \"dc.nowhere.x\"");
        },
        _ => panic!("expected a failure"),
    }
    let mut p = params();
    p.watch_id = Some(99);
    match handle_request(&mut s, &mut m, &request("state.editWatch", p)) {
        Ok((RpcResult::Failure(_, msg), false)) => assert_eq!(msg, "Watch \"99\" not found"),
        _ => panic!("expected a failure"),
    }
    match handle_request(&mut s, &mut m, &request("state.editWatch", params())) {
        Ok((RpcResult::Failure(_, msg), false)) => assert_eq!(msg, "Watch not found or cannot edit"),
        _ => panic!("expected a failure"),
    }

    let mut p = params();
    p.watch_id = Some(4);
    p.new_expression = Some("dc.sh4.vbr".to_string());
    assert!(empty_answer(&handle_request(&mut s, &mut m, &request("state.modifyWatchExpression", p))));
    assert_eq!(s.watches[3].expression, "dc.sh4.vbr");
    let mut p = params();
    p.watch_id = Some(42);
    match handle_request(&mut s, &mut m, &request("state.modifyWatchExpression", p)) {
        Ok((RpcResult::Failure(code, msg), false)) => {
            assert_eq!(code, -32602);
            assert_eq!(msg, "Watch 42 not found");
        },
        _ => panic!("expected a failure"),
    }

    let mut p = params();
    p.watch_ids = vec![1, 3, 77];
    assert!(empty_answer(&handle_request(&mut s, &mut m, &request("state.unwatch", p))));
    let ids: Vec<u32> = s.watches.iter().map(|w| w.id).collect();
    assert_eq!(ids, vec![2, 4]);
}

#[test]
fn breakpoints_are_added_toggled_and_removed() {
    let mut s = ServerState::new(0);
    let mut m: Option<Dreamcast> = None;
    let mut p = params();
    p.address = Some(0x8C01_0000);
    assert!(empty_answer(&handle_request(&mut s, &mut m, &request("breakpoints.add", p))));
    let mut p = params();
    p.event = Some("sh4.interrupt".to_string());
    p.kind = Some("event".to_string());
    p.enabled = Some(false);
    assert!(empty_answer(&handle_request(&mut s, &mut m, &request("breakpoints.add", p))));
    assert_eq!(s.breakpoints.len(), 2);
    assert_eq!(s.breakpoints[0].id, 1);
    assert_eq!(s.breakpoints[0].kind, "code");
    assert_eq!(s.breakpoints[0].event, "");
    assert!(s.breakpoints[0].enabled);
    assert_eq!(s.breakpoints[0].address, Some(0x8C01_0000));
    assert_eq!(s.breakpoints[1].id, 2);
    assert!(!s.breakpoints[1].enabled);

    let mut p = params();
    p.id = Some(2);
    p.enabled = Some(true);
    assert!(empty_answer(&handle_request(&mut s, &mut m, &request("breakpoints.toggle", p))));
    assert!(s.breakpoints[1].enabled);

    let mut p = params();
    p.id = Some(1);
    assert!(empty_answer(&handle_request(&mut s, &mut m, &request("breakpoints.remove", p))));
    assert_eq!(s.breakpoints.len(), 1);
    assert_eq!(s.breakpoints[0].id, 2);

    let mut p = params();
    p.id = Some(1);
    match handle_request(&mut s, &mut m, &request("breakpoints.remove", p)) {
        Ok((RpcResult::Failure(code, msg), false)) => {
            assert_eq!(code, -32000);
            assert_eq!(msg, "Breakpoint 1 not found");
        },
        _ => panic!("expected a failure"),
    }
    assert!(matches!(handle_request(&mut s, &mut m, &request("breakpoints.toggle", params())), Ok((RpcResult::Empty, false))));
    // Ids are not reused.
    assert!(empty_answer(&handle_request(&mut s, &mut m, &request("breakpoints.add", params()))));
    assert_eq!(s.breakpoints[1].id, 3);
}

#[test]
fn category_states_take_complete_entries_only() {
    let mut s = ServerState::new(0);
    let mut m: Option<Dreamcast> = None;
    let mut p = params();
    p.categories = Some(vec![
        ("sh4".to_string(), Some(true), Some(false)),
        ("arm7".to_string(), Some(true), None),
        ("gpu".to_string(), Some(false), Some(true)),
    ]);
    assert!(empty_answer(&handle_request(&mut s, &mut m, &request("breakpoints.setCategoryStates", p))));
    let get = |k: &str| s.category_states.iter().rev().find(|e| e.0 == k).map(|e| e.1);
    assert_eq!(get("sh4"), Some(BreakpointCategoryState { muted: true, soloed: false }));
    assert_eq!(get("arm7"), Some(BreakpointCategoryState { muted: false, soloed: false }));
    assert_eq!(get("gpu"), Some(BreakpointCategoryState { muted: false, soloed: true }));
}

#[test]
fn pause_run_and_step_the_mock_machine() {
    let mut s = ServerState::new(0);
    let mut m: Option<Dreamcast> = None;
    assert!(empty_answer(&handle_request(&mut s, &mut m, &request("control.pause", params()))));
    assert!(!s.is_running);
    assert!(empty_answer(&handle_request(&mut s, &mut m, &request("control.runUntil", params()))));
    assert!(s.is_running);
    assert!(empty_answer(&handle_request(&mut s, &mut m, &request("control.step", params()))));
    assert!(!s.is_running);
    assert_eq!(s.get_register_value("dc.sh4.cpu", "PC"), "0x8C0000A2");
}

#[test]
fn step_runs_one_instruction_of_an_attached_machine() {
    let mut s = ServerState::new(0);
    let mut dc = Dreamcast::default();
    init_dreamcast(&mut dc, &vec![0x05, 0xE1, 0x09, 0x00]);
    let mut m = Some(dc);
    assert!(empty_answer(&handle_request(&mut s, &mut m, &request("control.stepOver", params()))));
    let d = m.as_ref().unwrap();
    assert_eq!(d.ctx.r[1], 5);
    assert!(!d.running);
    assert!(!s.is_running);
    // The mock registers are left alone.
    assert_eq!(s.get_register_value("dc.sh4.cpu", "PC"), "0x8C0000A0");
}

#[test]
fn call_stacks_and_listings() {
    let mut s = ServerState::new(0);
    let mut m: Option<Dreamcast> = None;
    let mut p = params();
    p.target = Some("arm7".to_string());
    p.max_frames = Some(100);
    match handle_request(&mut s, &mut m, &request("state.getCallstack", p)) {
        Ok((RpcResult::Callstack(t, frames), false)) => {
            assert_eq!(t, "arm7");
            assert_eq!(frames.len(), 64);
            assert_eq!(frames[2].pc, 0x8C00_0008);
            assert_eq!(frames[2].sp, Some(0x0CFE_0000 - 32));
            assert_eq!(frames[2].symbol.as_deref(), Some("ARM7_func_2"));
            assert_eq!(frames[2].location.as_deref(), Some("arm7.c:102"));
        },
        _ => panic!("expected a call stack"),
    }
    let mut p = params();
    p.count = Some(3);
    match handle_request(&mut s, &mut m, &request("state.getDisassembly", p)) {
        Ok((RpcResult::Disassembly(lines), false)) => {
            assert_eq!(lines.len(), 3);
            assert_eq!(lines[2].address, 4);
        },
        _ => panic!("expected a listing"),
    }
    let mut dc = Dreamcast::default();
    init_dreamcast(&mut dc, &vec![0x09, 0x00]);
    let mut m = Some(dc);
    let mut p = params();
    p.address = Some(0x8C01_0000);
    p.count = Some(1);
    match handle_request(&mut s, &mut m, &request("state.getDisassembly", p)) {
        Ok((RpcResult::Disassembly(lines), false)) => {
            assert_eq!(lines[0].bytes, "0009");
            assert_eq!(lines[0].disassembly, "nop");
        },
        _ => panic!("expected a listing"),
    }
    let mut p = params();
    p.address = Some(0x1000_0000);
    p.length = Some(8);
    assert!(matches!(handle_request(&mut s, &mut m, &request("state.getMemorySlice", p)), Ok((RpcResult::Unreadable, false))));
}

#[test]
fn oversized_requests_do_not_fit() {
    let s = ServerState::new(0);
    let m: Option<Dreamcast> = None;
    let mut p = params();
    p.address = Some(u64::MAX);
    p.length = Some(2);
    assert!(!check_request_fits(&s, &m, &request("state.getMemorySlice", p)));
    let mut p = params();
    p.address = Some(16);
    assert!(check_request_fits(&s, &m, &request("state.getMemorySlice", p)));
}
