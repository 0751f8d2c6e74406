//! The interactive session: which panel is focused, what is being edited,
//! which operation is selected, and the build session state machine around
//! the virtual terminal and the process channels.

use vstd::prelude::*;

verus! {

use vstd::pervasive::VecAdditionalExecFns;
use vstd::utf8::encode_utf8;
use crate::chan::{try_recv_chunk, try_send_chunk};
use crate::config::Config;
use crate::hosts::{Connection, HostConfig};
use crate::rebuild::{chunk_signals_completion, spec_is_completion, RebuildCommand};
use crate::terminal::{
    spec_clear, spec_feed, spec_resize, TermModel, VirtualTerminal, MAX_DIM,
};
use crate::text::{join_sp, join_spaces, lex_lt, pop_char, push_char, spec_split_ws, split_ws, str_eq};

/// Which panel has keyboard focus.
#[derive(Debug, Clone, Copy, PartialEq, Eq, Structural)]
pub enum FocusedPanel {
    Main,
    Settings,
}

/// What the edit line currently edits, if anything.
#[derive(Debug, Clone, Copy, PartialEq, Eq, Structural)]
pub enum EditMode {
    Inactive,
    FlakePath,
    HostConnection,
    ExtraArgs,
}

/// The rebuild operation handed to the external tool.
#[derive(Debug, Clone, Copy, PartialEq, Eq, Structural)]
pub enum RebuildOperation {
    Switch,
    Boot,
    Test,
    Build,
    DryBuild,
    DryActivate,
}

impl RebuildOperation {
    /// The operation's name on the command line.
    pub open spec fn name_spec(self) -> Seq<char> {
        match self {
            RebuildOperation::Switch => "switch"@,
            RebuildOperation::Boot => "boot"@,
            RebuildOperation::Test => "test"@,
            RebuildOperation::Build => "build"@,
            RebuildOperation::DryBuild => "dry-build"@,
            RebuildOperation::DryActivate => "dry-activate"@,
        }
    }

    /// The operation that follows this one in display order, cyclically.
    pub open spec fn next_spec(self) -> Self {
        match self {
            RebuildOperation::Switch => RebuildOperation::Boot,
            RebuildOperation::Boot => RebuildOperation::Test,
            RebuildOperation::Test => RebuildOperation::Build,
            RebuildOperation::Build => RebuildOperation::DryBuild,
            RebuildOperation::DryBuild => RebuildOperation::DryActivate,
            RebuildOperation::DryActivate => RebuildOperation::Switch,
        }
    }

    /// The operation that precedes this one in display order, cyclically.
    pub open spec fn prev_spec(self) -> Self {
        match self {
            RebuildOperation::Switch => RebuildOperation::DryActivate,
            RebuildOperation::Boot => RebuildOperation::Switch,
            RebuildOperation::Test => RebuildOperation::Boot,
            RebuildOperation::Build => RebuildOperation::Test,
            RebuildOperation::DryBuild => RebuildOperation::Build,
            RebuildOperation::DryActivate => RebuildOperation::DryBuild,
        }
    }

    /// The operation's name on the command line.
    pub fn as_str(&self) -> (r: &str)
        ensures
            r@ == self.name_spec(),
    {
        match self {
            RebuildOperation::Switch => "switch",
            RebuildOperation::Boot => "boot",
            RebuildOperation::Test => "test",
            RebuildOperation::Build => "build",
            RebuildOperation::DryBuild => "dry-build",
            RebuildOperation::DryActivate => "dry-activate",
        }
    }

    /// All operations, in display order.
    pub fn all() -> (r: Vec<RebuildOperation>)
        ensures
            r@ == seq![
                RebuildOperation::Switch,
                RebuildOperation::Boot,
                RebuildOperation::Test,
                RebuildOperation::Build,
                RebuildOperation::DryBuild,
                RebuildOperation::DryActivate,
            ],
    {
        let r = vec![
            RebuildOperation::Switch,
            RebuildOperation::Boot,
            RebuildOperation::Test,
            RebuildOperation::Build,
            RebuildOperation::DryBuild,
            RebuildOperation::DryActivate,
        ];
        proof {
            assert(r@ =~= seq![
                RebuildOperation::Switch,
                RebuildOperation::Boot,
                RebuildOperation::Test,
                RebuildOperation::Build,
                RebuildOperation::DryBuild,
                RebuildOperation::DryActivate,
            ]);
        }
        r
    }

    /// Cycles forward through the operations.
    pub fn next(&self) -> (r: Self)
        ensures
            r == self.next_spec(),
    {
        match self {
            RebuildOperation::Switch => RebuildOperation::Boot,
            RebuildOperation::Boot => RebuildOperation::Test,
            RebuildOperation::Test => RebuildOperation::Build,
            RebuildOperation::Build => RebuildOperation::DryBuild,
            RebuildOperation::DryBuild => RebuildOperation::DryActivate,
            RebuildOperation::DryActivate => RebuildOperation::Switch,
        }
    }

    /// Cycles backward through the operations.
    pub fn prev(&self) -> (r: Self)
        ensures
            r == self.prev_spec(),
    {
        match self {
            RebuildOperation::Switch => RebuildOperation::DryActivate,
            RebuildOperation::Boot => RebuildOperation::Switch,
            RebuildOperation::Test => RebuildOperation::Boot,
            RebuildOperation::Build => RebuildOperation::Test,
            RebuildOperation::DryBuild => RebuildOperation::Build,
            RebuildOperation::DryActivate => RebuildOperation::DryBuild,
        }
    }
}

/// Going forward then backward (or backward then forward) through the
/// operations returns to the start.
pub proof fn lemma_operation_cycle(op: RebuildOperation)
    ensures
        op.next_spec().prev_spec() == op,
        op.prev_spec().next_spec() == op,
{
}

/// What the caller still has to do after an edit was committed.
#[derive(Debug, Clone, Copy, PartialEq, Eq, Structural)]
pub enum CommitAction {
    /// Nothing was changed.
    Nothing,
    /// The configuration changed and should be persisted.
    Save,
    /// The flake path changed: persist, then rediscover configurations.
    SaveAndRefresh,
}

/// Number of output chunks drained in one poll call. The output channel
/// holds at most 100 chunks, so one batch empties everything that was
/// queued when the call began.
pub const POLL_BATCH: usize = 128;

/// The interactive session state.
pub struct App {
    pub config: Config,
    pub focused_panel: FocusedPanel,
    pub selected_host_idx: usize,
    pub selected_operation: RebuildOperation,
    pub terminal: VirtualTerminal,
    pub is_building: bool,
    pub output_receiver: Option<tokio::sync::mpsc::Receiver<Vec<u8>>>,
    pub input_sender: Option<tokio::sync::mpsc::Sender<Vec<u8>>>,
    pub input_mode: bool,
    pub edit_mode: EditMode,
    pub edit_buffer: String,
    pub output_scroll: usize,
    pub use_upgrade: bool,
    pub quit_warned: bool,
    pub terminal_cols: u16,
    pub terminal_rows: u16,
}

/// The notice fed into the terminal when a build is cancelled.
pub open spec fn cancel_notice() -> Seq<u8> {
    encode_utf8("\n\u{2713} Build cancelled by user\n"@)
}

/// The warning fed into the terminal on a first quit request while building.
pub open spec fn quit_warning() -> Seq<u8> {
    encode_utf8("\n\u{26a0} Build in progress! Press 'q' again to cancel and quit, or Esc to cancel build.\n"@)
}

/// The diagnostic fed into the terminal when the target is unconfigured.
pub open spec fn config_error_notice() -> Seq<u8> {
    encode_utf8("Error: Host is not configured\n"@)
}

/// The terminal after feeding the given chunks in arrival order.
pub open spec fn spec_feed_chunks(t: TermModel, chunks: Seq<Seq<u8>>) -> TermModel
    decreases chunks.len(),
{
    if chunks.len() == 0 {
        t
    } else {
        spec_feed(spec_feed_chunks(t, chunks.drop_last()), chunks.last())
    }
}

/// The banner line written when a build starts.
pub open spec fn spec_banner(
    op: RebuildOperation,
    name: Seq<char>,
    conn: Connection,
    upgrade: bool,
) -> Seq<u8> {
    encode_utf8(
        "Starting "@ + op.name_spec() + " for "@ + name + " ("@ + conn.display_spec() + ")"@ + (
        if upgrade {
            " with --upgrade"@
        } else {
            Seq::empty()
        }) + " ...\n"@,
    )
}

impl App {
    /// Both the configuration and the terminal are well-formed.
    pub open spec fn wf(self) -> bool {
        self.config.wf() && self.terminal@.wf()
    }

    /// A fresh session over the given configuration: main panel focused,
    /// first host and the switch operation selected, idle, nothing pending.
    pub fn new(config: Config) -> (r: App)
        requires
            config.wf(),
        ensures
            r.wf(),
            r.config == config,
            r.focused_panel == FocusedPanel::Main,
            r.selected_host_idx == 0,
            r.selected_operation == RebuildOperation::Switch,
            r.terminal@ == TermModel::init(200, 100),
            !r.is_building,
            r.output_receiver is None,
            r.input_sender is None,
            !r.input_mode,
            r.edit_mode == EditMode::Inactive,
            r.edit_buffer@.len() == 0,
            r.output_scroll == 0,
            !r.use_upgrade,
            !r.quit_warned,
            r.terminal_cols == 80,
            r.terminal_rows == 24,
    {
        App {
            config,
            focused_panel: FocusedPanel::Main,
            selected_host_idx: 0,
            selected_operation: RebuildOperation::Switch,
            terminal: VirtualTerminal::new(200, 100),
            is_building: false,
            output_receiver: None,
            input_sender: None,
            input_mode: false,
            edit_mode: EditMode::Inactive,
            edit_buffer: String::new(),
            output_scroll: 0,
            use_upgrade: false,
            quit_warned: false,
            terminal_cols: 80,
            terminal_rows: 24,
        }
    }

    /// Resizes the virtual terminal to match the output area and remembers
    /// the dimensions for future pseudo-terminals.
    pub fn resize_terminal(&mut self, width: usize, height: usize)
        requires
            old(self).wf(),
            1 <= width <= MAX_DIM,
            1 <= height <= MAX_DIM,
        ensures
            final(self).wf(),
            final(self).terminal@ == spec_resize(old(self).terminal@, width as int, height as int),
            final(self).terminal_cols == width as u16,
            final(self).terminal_rows == height as u16,
            *final(self) == (App {
                terminal: final(self).terminal,
                terminal_cols: final(self).terminal_cols,
                terminal_rows: final(self).terminal_rows,
                ..*old(self)
            }),
    {
        self.terminal.resize(width, height);
        self.terminal_cols = width as u16;
        self.terminal_rows = height as u16;
    }

    /// Scrolls the output view up by one line, bounded by the total number
    /// of lines held.
    pub fn scroll_output_up(&mut self)
        requires
            old(self).wf(),
        ensures
            final(self).wf(),
            *final(self) == (App { output_scroll: final(self).output_scroll, ..*old(self) }),
            final(self).output_scroll as int == ({
                let total = old(self).terminal@.scrollback.len() + old(self).terminal@.height;
                let maxs = if total > 0 {
                    total - 1
                } else {
                    0
                };
                if old(self).output_scroll < maxs {
                    old(self).output_scroll + 1
                } else {
                    old(self).output_scroll as int
                }
            }),
    {
        let total = self.terminal.get_scrollback().len() + self.terminal.get_screen().len();
        let max_scroll = if total > 0 {
            total - 1
        } else {
            0
        };
        if self.output_scroll < max_scroll {
            self.output_scroll = self.output_scroll + 1;
        }
    }

    /// Scrolls the output view down by one line, stopping at the bottom.
    pub fn scroll_output_down(&mut self)
        requires
            old(self).wf(),
        ensures
            final(self).wf(),
            *final(self) == (App { output_scroll: final(self).output_scroll, ..*old(self) }),
            final(self).output_scroll as int == (if old(self).output_scroll > 0 {
                old(self).output_scroll - 1
            } else {
                0int
            }),
    {
        if self.output_scroll > 0 {
            self.output_scroll = self.output_scroll - 1;
        }
    }

    /// The hosts as (name, connection) pairs, sorted by name.
    pub fn get_hosts(&self) -> (r: Vec<(String, Connection)>)
        ensures
            r@.len() == self.config.hosts@.len(),
            forall|i: int|
                0 <= i < r@.len() ==> (#[trigger] r@[i]).0@ == self.config.hosts@[i].0@ && r@[i].1
                    == self.config.hosts@[i].1.connection,
    {
        let mut r: Vec<(String, Connection)> = Vec::new();
        let mut i: usize = 0;
        while i < self.config.hosts.len()
            invariant
                i <= self.config.hosts@.len(),
                r@.len() == i,
                forall|k: int|
                    0 <= k < i ==> (#[trigger] r@[k]).0@ == self.config.hosts@[k].0@ && r@[k].1
                        == self.config.hosts@[k].1.connection,
            decreases self.config.hosts@.len() - i,
        {
            let name = self.config.hosts[i].0.clone();
            let conn = self.config.hosts[i].1.connection.clone();
            r.push((name, conn));
            i += 1;
        }
        r
    }

    /// The selected host's name and connection, if the selection is valid.
    pub fn get_selected_host(&self) -> (r: Option<(String, Connection)>)
        ensures
            r is Some <==> self.selected_host_idx < self.config.hosts@.len(),
            r is Some ==> (r->0).0@ == self.config.hosts@[self.selected_host_idx as int].0@ && (
            r->0).1 == self.config.hosts@[self.selected_host_idx as int].1.connection,
    {
        if self.selected_host_idx < self.config.hosts.len() {
            let name = self.config.hosts[self.selected_host_idx].0.clone();
            let conn = self.config.hosts[self.selected_host_idx].1.connection.clone();
            Some((name, conn))
        } else {
            None
        }
    }

    /// Moves the host selection up; clears a pending quit warning.
    pub fn select_prev_host(&mut self)
        requires
            old(self).wf(),
        ensures
            final(self).wf(),
            *final(self) == (App {
                selected_host_idx: final(self).selected_host_idx,
                quit_warned: false,
                ..*old(self)
            }),
            final(self).selected_host_idx as int == (if old(self).selected_host_idx > 0 {
                old(self).selected_host_idx - 1
            } else {
                0int
            }),
    {
        if self.selected_host_idx > 0 {
            self.selected_host_idx = self.selected_host_idx - 1;
        }
        self.quit_warned = false;
    }

    /// Moves the host selection down; clears a pending quit warning.
    pub fn select_next_host(&mut self)
        requires
            old(self).wf(),
        ensures
            final(self).wf(),
            *final(self) == (App {
                selected_host_idx: final(self).selected_host_idx,
                quit_warned: false,
                ..*old(self)
            }),
            final(self).selected_host_idx as int == ({
                let n = old(self).config.hosts@.len() as int;
                if old(self).selected_host_idx + 1 < n {
                    old(self).selected_host_idx + 1
                } else {
                    old(self).selected_host_idx as int
                }
            }),
    {
        let n = self.config.hosts.len();
        if n > 0 && self.selected_host_idx < n - 1 {
            self.selected_host_idx = self.selected_host_idx + 1;
        }
        self.quit_warned = false;
    }

    /// Toggles focus between the main and the settings panel.
    pub fn toggle_panel(&mut self)
        requires
            old(self).wf(),
        ensures
            final(self).wf(),
            *final(self) == (App { focused_panel: final(self).focused_panel, ..*old(self) }),
            final(self).focused_panel == (match old(self).focused_panel {
                FocusedPanel::Main => FocusedPanel::Settings,
                FocusedPanel::Settings => FocusedPanel::Main,
            }),
    {
        self.focused_panel = match self.focused_panel {
            FocusedPanel::Main => FocusedPanel::Settings,
            FocusedPanel::Settings => FocusedPanel::Main,
        };
    }

    /// Selects the next rebuild operation; clears a pending quit warning.
    pub fn next_operation(&mut self)
        requires
            old(self).wf(),
        ensures
            final(self).wf(),
            *final(self) == (App {
                selected_operation: old(self).selected_operation.next_spec(),
                quit_warned: false,
                ..*old(self)
            }),
    {
        self.selected_operation = self.selected_operation.next();
        self.quit_warned = false;
    }

    /// Selects the previous rebuild operation; clears a pending quit warning.
    pub fn prev_operation(&mut self)
        requires
            old(self).wf(),
        ensures
            final(self).wf(),
            *final(self) == (App {
                selected_operation: old(self).selected_operation.prev_spec(),
                quit_warned: false,
                ..*old(self)
            }),
    {
        self.selected_operation = self.selected_operation.prev();
        self.quit_warned = false;
    }

    /// Toggles the upgrade flag; clears a pending quit warning.
    pub fn toggle_upgrade(&mut self)
        requires
            old(self).wf(),
        ensures
            final(self).wf(),
            *final(self) == (App {
                use_upgrade: !old(self).use_upgrade,
                quit_warned: false,
                ..*old(self)
            }),
    {
        self.use_upgrade = !self.use_upgrade;
        self.quit_warned = false;
    }

    /// Toggles whether keystrokes are routed to the running process; only
    /// meaningful while building with a live input channel.
    pub fn toggle_input_mode(&mut self)
        requires
            old(self).wf(),
        ensures
            final(self).wf(),
            *final(self) == (App { input_mode: final(self).input_mode, ..*old(self) }),
            final(self).input_mode == (if old(self).is_building && old(self).input_sender is Some {
                !old(self).input_mode
            } else {
                old(self).input_mode
            }),
    {
        if self.is_building && self.input_sender.is_some() {
            self.input_mode = !self.input_mode;
        }
    }

    /// Best-effort, non-blocking relay of input bytes to the running
    /// process; dropped silently when no channel is live or it is full.
    pub fn send_input(&mut self, data: Vec<u8>)
        requires
            old(self).wf(),
        ensures
            final(self).wf(),
            *final(self) == *old(self),
    {
        match &self.input_sender {
            Some(tx) => {
                try_send_chunk(tx, data);
            },
            None => {},
        }
    }

    /// Stores the channel endpoints of a freshly spawned build.
    pub fn attach_channels(
        &mut self,
        rx: tokio::sync::mpsc::Receiver<Vec<u8>>,
        tx: tokio::sync::mpsc::Sender<Vec<u8>>,
    )
        requires
            old(self).wf(),
        ensures
            final(self).wf(),
            *final(self) == (App {
                output_receiver: final(self).output_receiver,
                input_sender: final(self).input_sender,
                ..*old(self)
            }),
            final(self).output_receiver == Some(rx),
            final(self).input_sender == Some(tx),
    {
        self.output_receiver = Some(rx);
        self.input_sender = Some(tx);
    }

    /// Cancels a running build: discards both channel endpoints (the worker
    /// threads observe the closed channels and wind down; the external
    /// process itself is not signalled), leaves input mode, and appends one
    /// cancellation notice to the terminal. Idle sessions are unaffected.
    pub fn cancel_build(&mut self)
        requires
            old(self).wf(),
        ensures
            final(self).wf(),
            !old(self).is_building ==> *final(self) == *old(self),
            old(self).is_building ==> {
                &&& !final(self).is_building
                &&& final(self).output_receiver is None
                &&& final(self).input_sender is None
                &&& !final(self).input_mode
                &&& !final(self).quit_warned
                &&& final(self).terminal@ == spec_feed(old(self).terminal@, cancel_notice())
                &&& final(self).config == old(self).config
                &&& final(self).focused_panel == old(self).focused_panel
                &&& final(self).selected_host_idx == old(self).selected_host_idx
                &&& final(self).selected_operation == old(self).selected_operation
                &&& final(self).edit_mode == old(self).edit_mode
                &&& final(self).edit_buffer == old(self).edit_buffer
                &&& final(self).output_scroll == old(self).output_scroll
                &&& final(self).use_upgrade == old(self).use_upgrade
                &&& final(self).terminal_cols == old(self).terminal_cols
                &&& final(self).terminal_rows == old(self).terminal_rows
            },
    {
        if self.is_building {
            self.is_building = false;
            self.output_receiver = None;
            self.input_sender = None;
            self.input_mode = false;
            self.terminal.feed_bytes("\n\u{2713} Build cancelled by user\n".as_bytes());
            self.quit_warned = false;
        }
    }

    /// A quit request. The first request while building only warns (and
    /// appends the warning to the terminal); the second cancels the build
    /// and permits quitting. When idle, the first request permits quitting
    /// at once, leaving the session untouched.
    pub fn attempt_quit(&mut self) -> (r: bool)
        requires
            old(self).wf(),
        ensures
            final(self).wf(),
            r == (old(self).quit_warned || !old(self).is_building),
            !old(self).is_building ==> *final(self) == *old(self),
            old(self).quit_warned && old(self).is_building ==> {
                &&& !final(self).is_building
                &&& final(self).output_receiver is None
                &&& final(self).input_sender is None
                &&& !final(self).input_mode
                &&& !final(self).quit_warned
                &&& final(self).terminal@ == spec_feed(old(self).terminal@, cancel_notice())
                &&& final(self).config == old(self).config
                &&& final(self).focused_panel == old(self).focused_panel
                &&& final(self).selected_host_idx == old(self).selected_host_idx
                &&& final(self).selected_operation == old(self).selected_operation
                &&& final(self).edit_mode == old(self).edit_mode
                &&& final(self).edit_buffer == old(self).edit_buffer
                &&& final(self).output_scroll == old(self).output_scroll
                &&& final(self).use_upgrade == old(self).use_upgrade
                &&& final(self).terminal_cols == old(self).terminal_cols
                &&& final(self).terminal_rows == old(self).terminal_rows
            },
            !old(self).quit_warned && old(self).is_building ==> {
                &&& *final(self) == (App {
                    quit_warned: true,
                    terminal: final(self).terminal,
                    ..*old(self)
                })
                &&& final(self).terminal@ == spec_feed(old(self).terminal@, quit_warning())
            },
    {
        if self.quit_warned {
            if self.is_building {
                self.cancel_build();
            }
            true
        } else if self.is_building {
            self.quit_warned = true;
            self.terminal.feed_bytes(
                "\n\u{26a0} Build in progress! Press 'q' again to cancel and quit, or Esc to cancel build.\n".as_bytes(),
            );
            false
        } else {
            true
        }
    }

    /// Drains the output chunks currently queued (one bounded batch), feeding
    /// each into the terminal in arrival order. At the first chunk carrying a
    /// completion sentinel the session discards both channel endpoints,
    /// leaves input mode, and returns to idle without draining further
    /// chunks. Without a live channel this is a no-op.
    pub fn poll_output(&mut self)
        requires
            old(self).wf(),
        ensures
            final(self).wf(),
            old(self).output_receiver is None ==> *final(self) == *old(self),
            final(self).config == old(self).config,
            final(self).focused_panel == old(self).focused_panel,
            final(self).selected_host_idx == old(self).selected_host_idx,
            final(self).selected_operation == old(self).selected_operation,
            final(self).edit_mode == old(self).edit_mode,
            final(self).edit_buffer == old(self).edit_buffer,
            final(self).output_scroll == old(self).output_scroll,
            final(self).use_upgrade == old(self).use_upgrade,
            final(self).terminal_cols == old(self).terminal_cols,
            final(self).terminal_rows == old(self).terminal_rows,
            old(self).output_receiver is Some ==> {
                ||| (exists|chunks: Seq<Seq<u8>>|
                    {
                        // Drained some chunks, none of which signalled completion.
                        &&& final(self).terminal@ == spec_feed_chunks(old(self).terminal@, chunks)
                        &&& (forall|i: int|
                            0 <= i < chunks.len() ==> !spec_is_completion(#[trigger] chunks[i]))
                        &&& final(self).output_receiver is Some
                        &&& final(self).is_building == old(self).is_building
                        &&& final(self).input_sender == old(self).input_sender
                        &&& final(self).input_mode == old(self).input_mode
                        &&& final(self).quit_warned == old(self).quit_warned
                    })
                ||| (exists|chunks: Seq<Seq<u8>>|
                    {
                        // The last drained chunk carried a completion sentinel:
                        // the session is idle and both endpoints are gone.
                        &&& chunks.len() > 0
                        &&& spec_is_completion(chunks.last())
                        &&& (forall|i: int|
                            0 <= i < chunks.len() - 1 ==> !spec_is_completion(
                                #[trigger] chunks[i],
                            ))
                        &&& final(self).terminal@ == spec_feed_chunks(old(self).terminal@, chunks)
                        &&& final(self).output_receiver is None
                        &&& final(self).input_sender is None
                        &&& !final(self).is_building
                        &&& !final(self).input_mode
                        &&& !final(self).quit_warned
                    })
            },
    {
        if self.output_receiver.is_none() {
            return ;
        }
        let mut rx = self.output_receiver.take().unwrap();
        let ghost t0 = self.terminal@;
        let mut finished = false;
        let mut running = true;
        let ghost mut chunks: Seq<Seq<u8>> = Seq::empty();
        let mut n: usize = 0;
        while running && n < POLL_BATCH
            invariant
                self.wf(),
                self.terminal@ == spec_feed_chunks(t0, chunks),
                finished ==> !running,
                !finished ==> (forall|i: int|
                    0 <= i < chunks.len() ==> !spec_is_completion(#[trigger] chunks[i])),
                finished ==> chunks.len() > 0 && spec_is_completion(chunks.last()) && (forall|
                    i: int,
                |
                    0 <= i < chunks.len() - 1 ==> !spec_is_completion(#[trigger] chunks[i])),
                self.output_receiver is None,
                self.config == old(self).config,
                self.focused_panel == old(self).focused_panel,
                self.selected_host_idx == old(self).selected_host_idx,
                self.selected_operation == old(self).selected_operation,
                self.is_building == old(self).is_building,
                self.input_sender == old(self).input_sender,
                self.input_mode == old(self).input_mode,
                self.edit_mode == old(self).edit_mode,
                self.edit_buffer == old(self).edit_buffer,
                self.output_scroll == old(self).output_scroll,
                self.use_upgrade == old(self).use_upgrade,
                self.quit_warned == old(self).quit_warned,
                self.terminal_cols == old(self).terminal_cols,
                self.terminal_rows == old(self).terminal_rows,
            decreases POLL_BATCH - n + (if running { 1int } else { 0int }),
        {
            match try_recv_chunk(&mut rx) {
                None => {
                    running = false;
                },
                Some(bytes) => {
                    let sig = chunk_signals_completion(bytes.as_slice());
                    self.terminal.feed_bytes(bytes.as_slice());
                    proof {
                        let prev = chunks;
                        chunks = chunks.push(bytes@);
                        assert(chunks.drop_last() =~= prev);
                        assert(chunks.last() == bytes@);
                    }
                    if sig {
                        finished = true;
                        running = false;
                    }
                },
            }
            n += 1;
        }
        if finished {
            self.is_building = false;
            self.input_sender = None;
            self.input_mode = false;
            self.quit_warned = false;
        } else {
            self.output_receiver = Some(rx);
        }
        proof {
            assert(self.terminal@ == spec_feed_chunks(old(self).terminal@, chunks));
        }
    }

    /// Validates and opens a build attempt. Does nothing while already
    /// building or without a valid selection; rejects an unconfigured target
    /// with one diagnostic line and no state change. Otherwise clears the
    /// terminal, writes the banner line, enters the building state, resets
    /// the scroll, and hands back the command to spawn; the caller launches
    /// it and attaches the returned channels.
    pub fn start_rebuild(&mut self) -> (r: Option<RebuildCommand>)
        requires
            old(self).wf(),
        ensures
            final(self).wf(),
            !final(self).quit_warned,
            old(self).is_building ==> r is None && *final(self) == (App {
                quit_warned: false,
                ..*old(self)
            }),
            !old(self).is_building && old(self).selected_host_idx >= old(self).config.hosts@.len() ==> r is None && *final(self) == (App {
                quit_warned: false,
                ..*old(self)
            }),
            !old(self).is_building && old(self).selected_host_idx < old(self).config.hosts@.len()
                && old(self).config.hosts@[old(self).selected_host_idx as int].1.connection is Unconfigured ==> {
                &&& r is None
                &&& *final(self) == (App {
                    quit_warned: false,
                    terminal: final(self).terminal,
                    ..*old(self)
                })
                &&& final(self).terminal@ == spec_feed(old(self).terminal@, config_error_notice())
            },
            !old(self).is_building && old(self).selected_host_idx < old(self).config.hosts@.len()
                && !(old(self).config.hosts@[old(self).selected_host_idx as int].1.connection is Unconfigured) ==> {
                let entry = old(self).config.hosts@[old(self).selected_host_idx as int];
                &&& r is Some
                &&& (r->0).operation == old(self).selected_operation
                &&& ((r->0).flake_path is Some <==> old(self).config.flake_path is Some)
                &&& ((r->0).flake_path is Some ==> (r->0).flake_path->0@ == old(self).config.flake_path->0@)
                &&& (r->0).config_name@ == entry.0@
                &&& (r->0).connection == entry.1.connection
                &&& (r->0).extra_args@.map_values(|s: String| s@)
                    == entry.1.extra_args@.map_values(|s: String| s@) + (if old(self).use_upgrade {
                    seq!["--upgrade"@]
                } else {
                    Seq::<Seq<char>>::empty()
                })
                &&& (r->0).pty_cols == old(self).terminal_cols
                &&& (r->0).pty_rows == old(self).terminal_rows
                &&& final(self).is_building
                &&& final(self).output_scroll == 0
                &&& final(self).terminal@ == spec_feed(
                    spec_clear(old(self).terminal@),
                    spec_banner(
                        old(self).selected_operation,
                        entry.0@,
                        entry.1.connection,
                        old(self).use_upgrade,
                    ),
                )
                &&& final(self).config == old(self).config
                &&& final(self).focused_panel == old(self).focused_panel
                &&& final(self).selected_host_idx == old(self).selected_host_idx
                &&& final(self).selected_operation == old(self).selected_operation
                &&& final(self).output_receiver == old(self).output_receiver
                &&& final(self).input_sender == old(self).input_sender
                &&& final(self).input_mode == old(self).input_mode
                &&& final(self).edit_mode == old(self).edit_mode
                &&& final(self).edit_buffer == old(self).edit_buffer
                &&& final(self).use_upgrade == old(self).use_upgrade
                &&& final(self).terminal_cols == old(self).terminal_cols
                &&& final(self).terminal_rows == old(self).terminal_rows
            },
    {
        self.quit_warned = false;
        if self.is_building {
            return None;
        }
        if self.selected_host_idx >= self.config.hosts.len() {
            return None;
        }
        let idx = self.selected_host_idx;
        if !self.config.hosts[idx].1.connection.is_configured() {
            self.terminal.feed_bytes("Error: Host is not configured\n".as_bytes());
            return None;
        }
        self.is_building = true;
        self.output_scroll = 0;
        self.terminal.clear();

        let name = self.config.hosts[idx].0.clone();
        let conn = self.config.hosts[idx].1.connection.clone();
        let mut banner = String::new();
        banner.append("Starting ");
        banner.append(self.selected_operation.as_str());
        banner.append(" for ");
        banner.append(name.as_str());
        banner.append(" (");
        let disp = conn.display();
        banner.append(disp.as_str());
        banner.append(")");
        if self.use_upgrade {
            banner.append(" with --upgrade");
        }
        banner.append(" ...\n");
        proof {
            assert(banner@ =~= "Starting "@ + self.selected_operation.name_spec() + " for "@
                + name@ + " ("@ + conn.display_spec() + ")"@ + (if self.use_upgrade {
                " with --upgrade"@
            } else {
                Seq::empty()
            }) + " ...\n"@);
        }
        self.terminal.feed_bytes(banner.as_str().as_bytes());

        let mut xargs: Vec<String> = Vec::new();
        let mut i: usize = 0;
        while i < self.config.hosts[idx].1.extra_args.len()
            invariant
                idx < self.config.hosts@.len(),
                i <= self.config.hosts@[idx as int].1.extra_args@.len(),
                xargs@.map_values(|s: String| s@) =~= self.config.hosts@[
                    idx as int
                ].1.extra_args@.take(i as int).map_values(|s: String| s@),
            decreases self.config.hosts@[idx as int].1.extra_args@.len() - i,
        {
            let ghost prev = xargs@;
            xargs.push(self.config.hosts[idx].1.extra_args[i].clone());
            proof {
                let f = |s: String| s@;
                assert(xargs@.map_values(f) =~= prev.map_values(f).push(
                    self.config.hosts@[idx as int].1.extra_args@[i as int]@,
                ));
                assert(self.config.hosts@[idx as int].1.extra_args@.take(i as int + 1).map_values(
                    f,
                ) =~= self.config.hosts@[idx as int].1.extra_args@.take(i as int).map_values(
                    f,
                ).push(self.config.hosts@[idx as int].1.extra_args@[i as int]@));
            }
            i += 1;
        }
        proof {
            let ea = self.config.hosts@[idx as int].1.extra_args@;
            assert(ea.take(ea.len() as int) =~= ea);
        }
        if self.use_upgrade {
            let ghost prev = xargs@;
            xargs.push("--upgrade".to_owned());
            proof {
                let f = |s: String| s@;
                assert(xargs@.map_values(f) =~= prev.map_values(f).push("--upgrade"@));
            }
        }
        proof {
            let f = |s: String| s@;
            let entry = old(self).config.hosts@[old(self).selected_host_idx as int];
            assert(xargs@.map_values(f) =~= entry.1.extra_args@.map_values(f) + (
            if old(self).use_upgrade {
                seq!["--upgrade"@]
            } else {
                Seq::<Seq<char>>::empty()
            }));
        }
        let fp = match &self.config.flake_path {
            Some(s) => Some(s.clone()),
            None => None,
        };
        let cmd = RebuildCommand::new(
            self.selected_operation,
            fp,
            name,
            conn,
            xargs,
            self.terminal_cols,
            self.terminal_rows,
        );
        Some(cmd)
    }

    /// True while an edit line is open.
    pub fn is_editing(&self) -> (r: bool)
        ensures
            r == (self.edit_mode != EditMode::Inactive),
    {
        self.edit_mode != EditMode::Inactive
    }

    /// Opens the edit line on the flake path.
    pub fn start_edit_flake_path(&mut self)
        requires
            old(self).wf(),
        ensures
            final(self).wf(),
            *final(self) == (App {
                edit_mode: EditMode::FlakePath,
                edit_buffer: final(self).edit_buffer,
                ..*old(self)
            }),
            final(self).edit_buffer@ == (if old(self).config.flake_path is Some {
                old(self).config.flake_path->0@
            } else {
                Seq::<char>::empty()
            }),
    {
        self.edit_mode = EditMode::FlakePath;
        self.edit_buffer = match &self.config.flake_path {
            Some(s) => s.clone(),
            None => String::new(),
        };
    }

    /// Opens the edit line on the selected host's connection; does nothing
    /// without a valid selection.
    pub fn start_edit_host_connection(&mut self)
        requires
            old(self).wf(),
        ensures
            final(self).wf(),
            old(self).selected_host_idx >= old(self).config.hosts@.len() ==> *final(self) == *old(self),
            old(self).selected_host_idx < old(self).config.hosts@.len() ==> {
                &&& *final(self) == (App {
                    edit_mode: EditMode::HostConnection,
                    edit_buffer: final(self).edit_buffer,
                    ..*old(self)
                })
                &&& final(self).edit_buffer@ == (match old(self).config.hosts@[old(self).selected_host_idx as int].1.connection {
                    Connection::Local => "localhost"@,
                    Connection::Remote(addr) => addr@,
                    Connection::Unconfigured => Seq::<char>::empty(),
                })
            },
    {
        if self.selected_host_idx < self.config.hosts.len() {
            self.edit_mode = EditMode::HostConnection;
            self.edit_buffer = match &self.config.hosts[self.selected_host_idx].1.connection {
                Connection::Local => "localhost".to_owned(),
                Connection::Remote(addr) => addr.clone(),
                Connection::Unconfigured => String::new(),
            };
        }
    }

    /// Opens the edit line on the selected host's extra arguments, joined by
    /// spaces; does nothing without a valid selection.
    pub fn start_edit_extra_args(&mut self)
        requires
            old(self).wf(),
        ensures
            final(self).wf(),
            old(self).selected_host_idx >= old(self).config.hosts@.len() ==> *final(self) == *old(self),
            old(self).selected_host_idx < old(self).config.hosts@.len() ==> {
                &&& *final(self) == (App {
                    edit_mode: EditMode::ExtraArgs,
                    edit_buffer: final(self).edit_buffer,
                    ..*old(self)
                })
                &&& final(self).edit_buffer@ == join_sp(
                    old(self).config.hosts@[old(self).selected_host_idx as int].1.extra_args@.map_values(|s: String| s@),
                )
            },
    {
        if self.selected_host_idx < self.config.hosts.len() {
            self.edit_mode = EditMode::ExtraArgs;
            self.edit_buffer = join_spaces(&self.config.hosts[self.selected_host_idx].1.extra_args);
        }
    }

    /// Appends one character to the edit line.
    pub fn edit_insert_char(&mut self, c: char)
        requires
            old(self).wf(),
        ensures
            final(self).wf(),
            *final(self) == (App { edit_buffer: final(self).edit_buffer, ..*old(self) }),
            final(self).edit_buffer@ == old(self).edit_buffer@.push(c),
    {
        push_char(&mut self.edit_buffer, c);
    }

    /// Removes the last character of the edit line, if any.
    pub fn edit_backspace(&mut self)
        requires
            old(self).wf(),
        ensures
            final(self).wf(),
            *final(self) == (App { edit_buffer: final(self).edit_buffer, ..*old(self) }),
            final(self).edit_buffer@ == (if old(self).edit_buffer@.len() > 0 {
                old(self).edit_buffer@.drop_last()
            } else {
                old(self).edit_buffer@
            }),
    {
        pop_char(&mut self.edit_buffer);
    }

    /// Closes the edit line without applying it.
    pub fn cancel_edit(&mut self)
        requires
            old(self).wf(),
        ensures
            final(self).wf(),
            *final(self) == (App {
                edit_mode: EditMode::Inactive,
                edit_buffer: final(self).edit_buffer,
                ..*old(self)
            }),
            final(self).edit_buffer@.len() == 0,
    {
        self.edit_mode = EditMode::Inactive;
        self.edit_buffer = String::new();
    }

    /// Applies the open edit to the configuration and closes the edit line.
    /// The result tells the caller whether the configuration must be
    /// persisted, and whether the flake path changed so that configurations
    /// should be rediscovered.
    pub fn commit_edit(&mut self) -> (r: CommitAction)
        requires
            old(self).wf(),
        ensures
            final(self).wf(),
            final(self).edit_mode == EditMode::Inactive,
            final(self).edit_buffer@.len() == 0,
            *final(self) == (App {
                config: final(self).config,
                edit_mode: EditMode::Inactive,
                edit_buffer: final(self).edit_buffer,
                ..*old(self)
            }),
            old(self).edit_mode == EditMode::Inactive ==> r == CommitAction::Nothing && final(self).config == old(self).config,
            old(self).edit_mode == EditMode::FlakePath ==> {
                &&& (old(self).edit_buffer@.len() == 0 ==> final(self).config.flake_path is None)
                &&& (old(self).edit_buffer@.len() > 0 ==> final(self).config.flake_path is Some
                    && final(self).config.flake_path->0@ == old(self).edit_buffer@)
                &&& final(self).config.hosts == old(self).config.hosts
                &&& final(self).config.extra_args == old(self).config.extra_args
                &&& r == (if old(self).config.flake_path is Some && old(self).config.flake_path->0@ == old(self).edit_buffer@ {
                    CommitAction::Save
                } else {
                    CommitAction::SaveAndRefresh
                })
            },
            old(self).edit_mode == EditMode::HostConnection ==> {
                if old(self).selected_host_idx < old(self).config.hosts@.len() {
                    let i = old(self).selected_host_idx as int;
                    let nc = if old(self).edit_buffer@.len() == 0 {
                        Connection::Unconfigured
                    } else if old(self).edit_buffer@ == "localhost"@ {
                        Connection::Local
                    } else {
                        Connection::Remote(old(self).edit_buffer)
                    };
                    &&& r == CommitAction::Save
                    &&& final(self).config.flake_path == old(self).config.flake_path
                    &&& final(self).config.extra_args == old(self).config.extra_args
                    &&& final(self).config.hosts@.len() == old(self).config.hosts@.len()
                    &&& final(self).config.hosts@[i].0@ == old(self).config.hosts@[i].0@
                    &&& (final(self).config.hosts@[i].1.connection is Unconfigured <==> nc is Unconfigured)
                    &&& (final(self).config.hosts@[i].1.connection is Local <==> nc is Local)
                    &&& (nc is Remote ==> final(self).config.hosts@[i].1.connection is Remote
                        && final(self).config.hosts@[i].1.connection->0@ == old(self).edit_buffer@)
                    &&& final(self).config.hosts@[i].1.extra_args == old(self).config.hosts@[i].1.extra_args
                    &&& forall|j: int|
                        0 <= j < old(self).config.hosts@.len() && j != i ==> final(self).config.hosts@[j] == old(self).config.hosts@[j]
                } else {
                    r == CommitAction::Nothing && final(self).config == old(self).config
                }
            },
            old(self).edit_mode == EditMode::ExtraArgs ==> {
                if old(self).selected_host_idx < old(self).config.hosts@.len() {
                    let i = old(self).selected_host_idx as int;
                    &&& r == CommitAction::Save
                    &&& final(self).config.flake_path == old(self).config.flake_path
                    &&& final(self).config.extra_args == old(self).config.extra_args
                    &&& final(self).config.hosts@.len() == old(self).config.hosts@.len()
                    &&& final(self).config.hosts@[i].0@ == old(self).config.hosts@[i].0@
                    &&& final(self).config.hosts@[i].1.connection == old(self).config.hosts@[i].1.connection
                    &&& final(self).config.hosts@[i].1.extra_args@.map_values(|s: String| s@)
                        == spec_split_ws(old(self).edit_buffer@)
                    &&& forall|j: int|
                        0 <= j < old(self).config.hosts@.len() && j != i ==> final(self).config.hosts@[j] == old(self).config.hosts@[j]
                } else {
                    r == CommitAction::Nothing && final(self).config == old(self).config
                }
            },
    {
        let mut action = CommitAction::Nothing;
        match self.edit_mode {
            EditMode::FlakePath => {
                let same = match &self.config.flake_path {
                    Some(fp) => str_eq(fp.as_str(), self.edit_buffer.as_str()),
                    None => false,
                };
                if self.edit_buffer.as_str().unicode_len() == 0 {
                    self.config.flake_path = None;
                } else {
                    self.config.flake_path = Some(self.edit_buffer.clone());
                }
                action = if same {
                    CommitAction::Save
                } else {
                    CommitAction::SaveAndRefresh
                };
            },
            EditMode::HostConnection => {
                if self.selected_host_idx < self.config.hosts.len() {
                    let new_conn = if self.edit_buffer.as_str().unicode_len() == 0 {
                        Connection::Unconfigured
                    } else if str_eq(self.edit_buffer.as_str(), "localhost") {
                        Connection::Local
                    } else {
                        Connection::Remote(self.edit_buffer.clone())
                    };
                    let idx = self.selected_host_idx;
                    let ghost pre = self.config.hosts@;
                    let mut entry: (String, HostConfig) = (
                        String::new(),
                        HostConfig::unconfigured(),
                    );
                    self.config.hosts.set_and_swap(idx, &mut entry);
                    entry.1.connection = new_conn;
                    self.config.hosts.set_and_swap(idx, &mut entry);
                    proof {
                        assert forall|a: int, b: int|
                            0 <= a < b < self.config.hosts@.len() implies lex_lt(
                            (#[trigger] self.config.hosts@[a]).0@,
                            (#[trigger] self.config.hosts@[b]).0@,
                        ) by {
                            assert(self.config.hosts@[a].0@ == pre[a].0@);
                            assert(self.config.hosts@[b].0@ == pre[b].0@);
                        }
                    }
                    action = CommitAction::Save;
                }
            },
            EditMode::ExtraArgs => {
                if self.selected_host_idx < self.config.hosts.len() {
                    let new_args = split_ws(self.edit_buffer.as_str());
                    let idx = self.selected_host_idx;
                    let ghost pre = self.config.hosts@;
                    let mut entry: (String, HostConfig) = (
                        String::new(),
                        HostConfig::unconfigured(),
                    );
                    self.config.hosts.set_and_swap(idx, &mut entry);
                    entry.1.extra_args = new_args;
                    self.config.hosts.set_and_swap(idx, &mut entry);
                    proof {
                        assert forall|a: int, b: int|
                            0 <= a < b < self.config.hosts@.len() implies lex_lt(
                            (#[trigger] self.config.hosts@[a]).0@,
                            (#[trigger] self.config.hosts@[b]).0@,
                        ) by {
                            assert(self.config.hosts@[a].0@ == pre[a].0@);
                            assert(self.config.hosts@[b].0@ == pre[b].0@);
                        }
                    }
                    action = CommitAction::Save;
                }
            },
            EditMode::Inactive => {},
        }
        self.edit_mode = EditMode::Inactive;
        self.edit_buffer = String::new();
        action
    }
}

} // verus!
