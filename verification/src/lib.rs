//! Verified core of a PTY terminal bridge.
//!
//! The library holds the logic of bridging an interactive shell behind a
//! pseudo-terminal to a display surface: the UTF-8 boundary reassembler
//! that keeps multi-byte characters intact across split reads, the drain
//! loop's per-iteration decision, the mapping from input events to the
//! byte sequences forwarded to the shell, and the launch-time choices
//! (PTY geometry, shell program, terminal type). The I/O itself — opening
//! the PTY, spawning the shell, reading and writing, driving a widget —
//! is left to the embedding program.

mod drain;
mod input;
mod menu;
mod reassembly;

pub use menu::ClipboardOp;
pub use menu::MenuEntry;
pub use menu::MenuShortcut;
pub use menu::menu_entries;
pub use menu::menu_path_action;
mod session;
mod utf8;

pub use session::HostPlatform;
pub use session::LaunchPlan;
pub use session::PtyGeometry;
pub use session::SetupFailure;
pub use session::ShellProgram;
pub use session::TerminalType;
pub use session::construction_outcome;
pub use session::launch_plan;
pub use session::shell_command_line;
pub use session::term_variable_value;

pub use drain::DrainStep;
pub use drain::PollOutcome;
pub use drain::drain_step;
pub use input::EventDecision;
pub use input::ForwardAction;
pub use input::InputEvent;
pub use input::KeyPress;
pub use input::decide_event;
pub use input::paste_shortcut_free;
pub use input::HISTORY_NEXT;
pub use input::HISTORY_PREV;
pub use reassembly::BELL;
pub use reassembly::Emission;
pub use reassembly::concat_all;
pub use reassembly::iteration_content;
pub use reassembly::lemma_absorb_conservation;
pub use reassembly::lemma_absorb_lone_bell;
pub use reassembly::lemma_split_round_trip;
pub use reassembly::lemma_stream_conservation;
pub use reassembly::lemma_stream_emitted_valid;
pub use reassembly::lemma_stream_pending_stuck;
pub use reassembly::lemma_stream_round_trip;
pub use reassembly::no_lone_bell;
pub use reassembly::stream_emitted;
pub use reassembly::stream_pending;
pub use reassembly::ReassemblyBuffer;
pub use reassembly::absorb_emits_spec;
pub use reassembly::absorb_pending_spec;
pub use reassembly::bell_only;
pub use reassembly::emission_for;
pub use reassembly::emitted_bytes;
pub use utf8::first_char_len;
pub use utf8::is_continuation;
pub use utf8::is_four_byte_head;
pub use utf8::is_three_byte_head;
pub use utf8::utf8_prefix_len;
pub use utf8::utf8_valid;
pub use utf8::valid_prefix_len;
