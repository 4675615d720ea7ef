use ppterm::ClipboardOp;
use ppterm::DrainStep;
use ppterm::Emission;
use ppterm::ForwardAction;
use ppterm::HostPlatform;
use ppterm::InputEvent;
use ppterm::KeyPress;
use ppterm::PollOutcome;
use ppterm::ReassemblyBuffer;
use ppterm::SetupFailure;
use ppterm::ShellProgram;
use ppterm::TerminalType;
use ppterm::construction_outcome;
use ppterm::decide_event;
use ppterm::drain_step;
use ppterm::launch_plan;
use ppterm::menu_entries;
use ppterm::menu_path_action;
use ppterm::shell_command_line;
use ppterm::term_variable_value;
use ppterm::utf8_prefix_len;

fn emitted(e: Emission) -> Vec<u8> {
    match e {
        Emission::Text(t) => t,
        Emission::Raw(r) => r,
        Emission::Silent => Vec::new(),
    }
}

#[test]
fn prefix_len_ascii() {
    assert_eq!(utf8_prefix_len(b"hello"), 5);
    assert_eq!(utf8_prefix_len(b""), 0);
}

#[test]
fn prefix_len_split_two_byte_char() {
    // "é" is C3 A9; a dangling C3 is not yet decodable.
    assert_eq!(utf8_prefix_len(&[b'a', 0xC3]), 1);
    assert_eq!(utf8_prefix_len(&[b'a', 0xC3, 0xA9]), 3);
}

#[test]
fn prefix_len_three_and_four_byte_chars() {
    // "€" is E2 82 AC; "𐍈" is F0 90 8D 88.
    assert_eq!(utf8_prefix_len(&[0xE2, 0x82, 0xAC]), 3);
    assert_eq!(utf8_prefix_len(&[0xE2, 0x82]), 0);
    assert_eq!(utf8_prefix_len(&[0xF0, 0x90, 0x8D, 0x88]), 4);
    assert_eq!(utf8_prefix_len(&[0xF0, 0x90, 0x8D]), 0);
}

#[test]
fn prefix_len_rejects_malformed_sequences() {
    // A stray continuation byte, an overlong two-byte form, an overlong
    // three-byte form, a surrogate encoding, and a code point past the
    // maximum are all invalid at offset zero.
    assert_eq!(utf8_prefix_len(&[0x80]), 0);
    assert_eq!(utf8_prefix_len(&[0xC0, 0xAF]), 0);
    assert_eq!(utf8_prefix_len(&[0xE0, 0x80, 0x80]), 0);
    assert_eq!(utf8_prefix_len(&[0xED, 0xA0, 0x80]), 0);
    assert_eq!(utf8_prefix_len(&[0xF4, 0x90, 0x80, 0x80]), 0);
}

#[test]
fn absorb_complete_text() {
    let mut buf = ReassemblyBuffer::new();
    let out = buf.absorb(b"hello");
    match out {
        Emission::Text(t) => assert_eq!(t, b"hello".to_vec()),
        _ => panic!("expected a text emission"),
    }
    assert_eq!(buf.pending_len(), 0);
}

#[test]
fn absorb_holds_back_split_character() {
    let mut buf = ReassemblyBuffer::new();
    // "aé" with the read boundary inside the two-byte character.
    let out = buf.absorb(&[b'a', 0xC3]);
    match out {
        Emission::Raw(r) => assert_eq!(r, vec![b'a']),
        _ => panic!("expected a raw emission of the safe prefix"),
    }
    assert_eq!(buf.pending_len(), 1);
    let out = buf.absorb(&[0xA9, b'b']);
    match out {
        Emission::Text(t) => assert_eq!(t, vec![0xC3, 0xA9, b'b']),
        _ => panic!("expected the completed character"),
    }
    assert_eq!(buf.pending_len(), 0);
}

#[test]
fn absorb_emits_nothing_for_bare_prefix() {
    let mut buf = ReassemblyBuffer::new();
    let out = buf.absorb(&[0xC3]);
    assert!(matches!(out, Emission::Silent));
    assert_eq!(buf.pending_len(), 1);
}

#[test]
fn lone_bell_is_suppressed() {
    let mut buf = ReassemblyBuffer::new();
    let out = buf.absorb(&[0x07]);
    assert!(matches!(out, Emission::Silent));
    assert_eq!(buf.pending_len(), 0);
}

#[test]
fn bell_inside_text_is_kept() {
    let mut buf = ReassemblyBuffer::new();
    let out = buf.absorb(&[b'a', 0x07]);
    match out {
        Emission::Text(t) => assert_eq!(t, vec![b'a', 0x07]),
        _ => panic!("expected the bell to survive inside text"),
    }
}

#[test]
fn chunked_reads_reassemble_to_the_whole() {
    // The decoded output of many arbitrarily split reads equals the
    // decode of the concatenation.
    let whole = "héllo wörld €𐍈!".as_bytes();
    for split in 0..whole.len() {
        for split2 in split..whole.len() {
            let mut buf = ReassemblyBuffer::new();
            let mut transcript: Vec<u8> = Vec::new();
            transcript.extend(emitted(buf.absorb(&whole[..split])));
            transcript.extend(emitted(buf.absorb(&whole[split..split2])));
            transcript.extend(emitted(buf.absorb(&whole[split2..])));
            assert_eq!(transcript, whole.to_vec());
            assert_eq!(buf.pending_len(), 0);
        }
    }
}

#[test]
fn two_reads_never_corrupt_a_character() {
    let whole = "ação → 𐍈 ок".as_bytes();
    for split in 0..=whole.len() {
        let mut buf = ReassemblyBuffer::new();
        let mut transcript: Vec<u8> = Vec::new();
        transcript.extend(emitted(buf.absorb(&whole[..split])));
        transcript.extend(emitted(buf.absorb(&whole[split..])));
        assert_eq!(transcript, whole.to_vec());
        assert_eq!(buf.pending_len(), 0);
    }
}

#[test]
fn up_arrow_writes_history_previous() {
    let r = decide_event(InputEvent::KeyDown {
        key: KeyPress::ArrowUp,
        ctrl: false,
        text: Vec::new(),
    });
    assert!(r.handled);
    match r.action {
        ForwardAction::WriteBytes(b) => assert_eq!(b, vec![0x10]),
        _ => panic!("expected a write"),
    }
}

#[test]
fn down_arrow_writes_history_next() {
    let r = decide_event(InputEvent::KeyDown {
        key: KeyPress::ArrowDown,
        ctrl: false,
        text: Vec::new(),
    });
    assert!(r.handled);
    match r.action {
        ForwardAction::WriteBytes(b) => assert_eq!(b, vec![0x0E]),
        _ => panic!("expected a write"),
    }
}

#[test]
fn control_v_requests_a_paste() {
    let r = decide_event(InputEvent::KeyDown {
        key: KeyPress::Character('v'),
        ctrl: true,
        text: b"v".to_vec(),
    });
    assert!(r.handled);
    assert!(matches!(r.action, ForwardAction::RequestPaste));
}

#[test]
fn plain_key_forwards_its_text() {
    let r = decide_event(InputEvent::KeyDown {
        key: KeyPress::Character('v'),
        ctrl: false,
        text: b"v".to_vec(),
    });
    assert!(r.handled);
    match r.action {
        ForwardAction::WriteBytes(b) => assert_eq!(b, b"v".to_vec()),
        _ => panic!("expected a write"),
    }
}

#[test]
fn paste_delivery_writes_exactly_the_text() {
    let r = decide_event(InputEvent::PasteDelivered { text: b"echo hi\n".to_vec() });
    assert!(r.handled);
    match r.action {
        ForwardAction::WriteBytes(b) => assert_eq!(b, b"echo hi\n".to_vec()),
        _ => panic!("expected a write"),
    }
}

#[test]
fn focus_is_accepted() {
    let r = decide_event(InputEvent::FocusIn);
    assert!(r.handled);
    assert!(matches!(r.action, ForwardAction::NoForward));
}

#[test]
fn key_up_consumes_only_the_up_arrow() {
    let r = decide_event(InputEvent::KeyUp { key: KeyPress::ArrowUp });
    assert!(r.handled);
    assert!(matches!(r.action, ForwardAction::NoForward));
    let r = decide_event(InputEvent::KeyUp { key: KeyPress::ArrowDown });
    assert!(!r.handled);
    let r = decide_event(InputEvent::KeyUp { key: KeyPress::Character('a') });
    assert!(!r.handled);
}

#[test]
fn other_events_pass_through() {
    let r = decide_event(InputEvent::OtherEvent);
    assert!(!r.handled);
    assert!(matches!(r.action, ForwardAction::NoForward));
}

#[test]
fn drain_stops_when_the_child_is_gone() {
    let mut buf = ReassemblyBuffer::new();
    let step = drain_step(&mut buf, PollOutcome::ChildGone);
    assert!(matches!(step, DrainStep::Stop));
    assert_eq!(buf.pending_len(), 0);
}

#[test]
fn drain_appends_what_was_read() {
    let mut buf = ReassemblyBuffer::new();
    let step = drain_step(&mut buf, PollOutcome::BytesRead(b"ok\n".to_vec()));
    match step {
        DrainStep::Append(Emission::Text(t)) => assert_eq!(t, b"ok\n".to_vec()),
        _ => panic!("expected an append"),
    }
    let step = drain_step(&mut buf, PollOutcome::NothingRead);
    assert!(matches!(step, DrainStep::Idle));
}

#[test]
fn posix_launch_plan() {
    let plan = launch_plan(HostPlatform::Posix);
    assert_eq!(plan.geometry.cols, 120);
    assert_eq!(plan.geometry.rows, 16);
    assert_eq!(plan.geometry.pixel_width, 0);
    assert_eq!(plan.geometry.pixel_height, 0);
    assert!(matches!(plan.shell, ShellProgram::PosixShell));
    assert!(matches!(plan.term, TerminalType::FullAnsi));
    assert_eq!(plan.read_buffer_len, 2000);
    assert_eq!(plan.poll_interval_ms, 30);
    assert_eq!(plan.startup_delay_ms, 0);
}

#[test]
fn windows_launch_plan() {
    let plan = launch_plan(HostPlatform::Windows);
    assert!(matches!(plan.shell, ShellProgram::WindowsCmd));
    assert!(matches!(plan.term, TerminalType::Monochrome));
    assert_eq!(plan.read_buffer_len, 1024);
    assert_eq!(plan.startup_delay_ms, 50);
}

#[test]
fn shell_and_term_values() {
    assert_eq!(shell_command_line(ShellProgram::PosixShell), "/bin/bash");
    assert_eq!(shell_command_line(ShellProgram::WindowsCmd), "cmd.exe");
    assert_eq!(term_variable_value(TerminalType::FullAnsi), "vt100");
    assert_eq!(term_variable_value(TerminalType::Monochrome), "xterm-mono");
}

#[test]
fn construction_requires_every_stage() {
    assert!(construction_outcome(true, true, true, true).is_ok());
    assert!(matches!(
        construction_outcome(false, true, true, true),
        Err(SetupFailure::PtyAllocationFailed)
    ));
    assert!(matches!(
        construction_outcome(true, false, true, true),
        Err(SetupFailure::SpawnFailed)
    ));
    assert!(matches!(
        construction_outcome(true, true, false, true),
        Err(SetupFailure::ReaderCloneFailed)
    ));
    assert!(matches!(
        construction_outcome(true, true, true, false),
        Err(SetupFailure::WriterTakeFailed)
    ));
}

#[test]
fn menu_has_copy_and_paste() {
    let entries = menu_entries();
    assert_eq!(entries.len(), 2);
    assert_eq!(entries[0].label, "Copy\t");
    assert!(matches!(entries[0].op, ClipboardOp::CopySelection));
    assert_eq!(entries[1].label, "Paste\t");
    assert!(matches!(entries[1].op, ClipboardOp::PasteIntoTerminal));
}

#[test]
fn menu_path_dispatch() {
    assert!(matches!(
        menu_path_action(&"Copy\t".to_string()),
        Some(ClipboardOp::CopySelection)
    ));
    assert!(matches!(
        menu_path_action(&"Paste\t".to_string()),
        Some(ClipboardOp::PasteIntoTerminal)
    ));
    assert!(menu_path_action(&"Quit\t".to_string()).is_none());
}
