use std::io::Read;
use std::io::Write;

use portable_pty::native_pty_system;
use portable_pty::CommandBuilder;
use portable_pty::PtySize;

use ppterm::drain_step;
use ppterm::DrainStep;
use ppterm::Emission;
use ppterm::PollOutcome;
use ppterm::ReassemblyBuffer;

fn contains(haystack: &[u8], needle: &[u8]) -> bool {
    haystack.windows(needle.len()).any(|w| w == needle)
}

#[test]
fn sent_line_reaches_the_display_text() {
    let pair = native_pty_system()
        .openpty(PtySize { rows: 16, cols: 120, pixel_width: 0, pixel_height: 0 })
        .expect("pty allocation");
    let cmd = CommandBuilder::new("/bin/bash");
    let mut child = pair.slave.spawn_command(cmd).expect("spawn");
    let mut reader = pair.master.try_clone_reader().expect("reader");
    let mut writer = pair.master.take_writer().expect("writer");

    writer.write_all(b"echo -e \"\\033[1;31mHELLO\"\n").expect("send");
    writer.write_all(b"exit\n").expect("send");
    writer.flush().expect("flush");

    let mut buffer = ReassemblyBuffer::new();
    let mut transcript: Vec<u8> = Vec::new();
    let mut reads = 0usize;
    while reads < 4096 {
        reads += 1;
        let mut chunk = [0u8; 2000];
        let n = match reader.read(&mut chunk) {
            Ok(0) => break,
            Ok(n) => n,
            Err(_) => break,
        };
        match drain_step(&mut buffer, PollOutcome::BytesRead(chunk[..n].to_vec())) {
            DrainStep::Append(Emission::Text(t)) => transcript.extend(t),
            DrainStep::Append(Emission::Raw(r)) => transcript.extend(r),
            _ => {}
        }
        if contains(&transcript, b"\x1b[1;31mHELLO") {
            break;
        }
    }
    let _ = child.kill();
    let _ = child.wait();
    assert!(
        contains(&transcript, b"HELLO"),
        "the sent text never appeared in the drained output"
    );
}
