//! The application state that the dispatch functions read and change.

use vstd::prelude::*;
use vstd::string::StringExecFns;

use crate::config::InstalledSet;

verus! {

/// The mode that decides how a key press is handled.
#[derive(Debug, Clone, Copy, PartialEq, Eq, Structural)]
pub enum AppMode {
    /// Browsing the options.
    Normal,
    /// Choosing between reinstalling and uninstalling an installed option.
    ConfirmAction,
    /// An install or uninstall is running.
    Installing,
    /// An action finished; behaves as `Normal`.
    Completed,
}

/// The choice offered by the confirmation popup.
#[derive(Debug, Clone, Copy, PartialEq, Eq, Structural)]
pub enum ActionChoice {
    Reinstall,
    Uninstall,
}

/// The index that moving up from `index` selects among `total` options.
pub open spec fn wrap_up(index: usize, total: usize) -> usize {
    if total == 0 {
        index
    } else if index > 0 {
        (index - 1) as usize
    } else {
        (total - 1) as usize
    }
}

/// The index that moving down from `index` selects among `total` options.
pub open spec fn wrap_down(index: usize, total: usize) -> usize {
    if total == 0 {
        index
    } else if index + 1 < total {
        (index + 1) as usize
    } else {
        0
    }
}

/// The offset that keeps the last `visible` of `len` lines in view, where
/// they do not all fit; `scroll` otherwise.
pub open spec fn follow_scroll(scroll: usize, len: nat, visible: usize) -> usize {
    if len > visible {
        (len - visible) as usize
    } else {
        scroll
    }
}

/// The text of the status line when the application starts.
pub open spec fn ready_message() -> Seq<char> {
    "Ready - Press Enter to install/uninstall"@
}

/// The whole state of the application.
pub struct AppState {
    /// Current mode.
    pub mode: AppMode,
    /// Index of the selected option.
    pub selected_index: usize,
    /// Ids of the installed options.
    pub installed: InstalledSet,
    /// First output line in view.
    pub output_scroll: usize,
    /// Output of the running or last action.
    pub output_lines: Vec<String>,
    /// Label of the running or last action, such as "Installing X".
    pub current_action: Option<String>,
    /// Exit code of the last action.
    pub last_exit_code: Option<i32>,
    /// Set when the application is to end.
    pub should_quit: bool,
    /// Text of the status line.
    pub status_message: String,
    /// Whether the output panel is shown.
    pub show_output: bool,
    /// Choice highlighted in the confirmation popup.
    pub popup_choice: ActionChoice,
    /// Whether the running or last action is an uninstall.
    pub is_uninstalling: bool,
}

impl AppState {
    pub open spec fn wf(&self) -> bool {
        self.installed.wf()
    }

    /// A fresh state over the installed ids loaded at start.
    pub fn new(installed: InstalledSet) -> (r: AppState)
        requires
            installed.wf(),
        ensures
            r.wf(),
            r.mode == AppMode::Normal,
            r.selected_index == 0,
            r.installed == installed,
            r.output_scroll == 0,
            r.output_lines@.len() == 0,
            r.current_action.is_none(),
            r.last_exit_code.is_none(),
            !r.should_quit,
            r.status_message@ == ready_message(),
            !r.show_output,
            r.popup_choice == ActionChoice::Reinstall,
            !r.is_uninstalling,
    {
        AppState {
            mode: AppMode::Normal,
            selected_index: 0,
            installed,
            output_scroll: 0,
            output_lines: Vec::new(),
            current_action: None,
            last_exit_code: None,
            should_quit: false,
            status_message: String::from_str("Ready - Press Enter to install/uninstall"),
            show_output: false,
            popup_choice: ActionChoice::Reinstall,
            is_uninstalling: false,
        }
    }

    /// Moves the selection up, from the first option to the last.
    pub fn move_up(&mut self, total_options: usize)
        ensures
            *final(self) == (AppState {
                selected_index: wrap_up(old(self).selected_index, total_options),
                ..*old(self)
            }),
            old(self).selected_index < total_options ==> final(self).selected_index < total_options,
    {
        if total_options == 0 {
            return;
        }
        if self.selected_index > 0 {
            self.selected_index -= 1;
        } else {
            self.selected_index = total_options - 1;
        }
    }

    /// Moves the selection down, from the last option to the first.
    pub fn move_down(&mut self, total_options: usize)
        ensures
            *final(self) == (AppState {
                selected_index: wrap_down(old(self).selected_index, total_options),
                ..*old(self)
            }),
            total_options > 0 ==> final(self).selected_index < total_options,
    {
        if total_options == 0 {
            return;
        }
        if self.selected_index < total_options - 1 {
            self.selected_index += 1;
        } else {
            self.selected_index = 0;
        }
    }

    /// Whether the option with id `option_id` is installed.
    pub fn is_installed(&self, option_id: &str) -> (r: bool)
        ensures
            r == self.installed@.contains(option_id@),
    {
        self.installed.contains(option_id)
    }

    /// Empties the output and forgets the last exit code.
    pub fn clear_output(&mut self)
        ensures
            *final(self) == (AppState {
                output_lines: final(self).output_lines,
                output_scroll: 0,
                last_exit_code: None,
                ..*old(self)
            }),
            final(self).output_lines@.len() == 0,
    {
        self.output_lines.clear();
        self.output_scroll = 0;
        self.last_exit_code = None;
    }

    /// Appends a line to the output.
    pub fn add_output_line(&mut self, line: String)
        ensures
            *final(self) == (AppState {
                output_lines: final(self).output_lines,
                ..*old(self)
            }),
            final(self).output_lines@ == old(self).output_lines@.push(line),
    {
        self.output_lines.push(line);
    }

    /// Appends a line to the output and, where the output no longer fits in
    /// `visible_lines` rows, scrolls so that its last lines are in view.
    pub fn follow_output_line(&mut self, line: String, visible_lines: usize)
        ensures
            *final(self) == (AppState {
                output_lines: final(self).output_lines,
                output_scroll: final(self).output_scroll,
                ..*old(self)
            }),
            final(self).output_lines@ == old(self).output_lines@.push(line),
            final(self).output_scroll == follow_scroll(
                old(self).output_scroll,
                final(self).output_lines@.len(),
                visible_lines,
            ),
    {
        self.add_output_line(line);
        let lines = self.output_lines.len();
        if lines > visible_lines {
            self.output_scroll = lines - visible_lines;
        }
    }

    /// Scrolls the output up by one line, if it is not at the top.
    pub fn scroll_output_up(&mut self)
        ensures
            *final(self) == (AppState {
                output_scroll: if old(self).output_scroll > 0 {
                    (old(self).output_scroll - 1) as usize
                } else {
                    0
                },
                ..*old(self)
            }),
    {
        if self.output_scroll > 0 {
            self.output_scroll -= 1;
        }
    }

    /// Scrolls the output down by one line, while lines below stay hidden
    /// beyond the `visible_lines` rows.
    pub fn scroll_output_down(&mut self, visible_lines: usize)
        ensures
            *final(self) == (AppState {
                output_scroll: if old(self).output_scroll + visible_lines < old(
                    self,
                ).output_lines@.len() {
                    (old(self).output_scroll + 1) as usize
                } else {
                    old(self).output_scroll
                },
                ..*old(self)
            }),
    {
        let len = self.output_lines.len();
        let max_scroll = if len > visible_lines {
            len - visible_lines
        } else {
            0
        };
        if self.output_scroll < max_scroll {
            self.output_scroll += 1;
        }
    }
}

/// The selected index after a sequence of moves, each up (`true`) or down
/// (`false`), over `total` options.
pub open spec fn selection_after(index: usize, total: usize, moves: Seq<bool>) -> usize
    decreases moves.len(),
{
    if moves.len() == 0 {
        index
    } else {
        let next = if moves[0] {
            wrap_up(index, total)
        } else {
            wrap_down(index, total)
        };
        selection_after(next, total, moves.drop_first())
    }
}

/// Whatever moves up and down are made over `total > 0` options, the
/// selection stays among them, starting from any valid index.
pub proof fn lemma_selection_in_range(index: usize, total: usize, moves: Seq<bool>)
    requires
        total > 0,
        index < total,
    ensures
        selection_after(index, total, moves) < total,
    decreases moves.len(),
{
    if moves.len() > 0 {
        let next = if moves[0] {
            wrap_up(index, total)
        } else {
            wrap_down(index, total)
        };
        lemma_selection_in_range(next, total, moves.drop_first());
    }
}

/// The output offset after `m` lines are appended, one at a time, to `len`
/// lines, each time as `follow_output_line` sets it.
pub open spec fn scroll_after_lines(scroll: usize, len: nat, visible: usize, m: nat) -> usize
    decreases m,
{
    if m == 0 {
        scroll
    } else {
        scroll_after_lines(follow_scroll(scroll, len + 1, visible), len + 1, visible, (m - 1) as nat)
    }
}

/// Once `m` lines have arrived in an empty output with `visible` rows in
/// view, the offset is `m - visible` where they do not fit, and unchanged
/// where they do.
pub proof fn lemma_scroll_follows_output(scroll: usize, visible: usize, m: nat)
    requires
        m <= usize::MAX,
    ensures
        scroll_after_lines(scroll, 0, visible, m) == if m > visible {
            (m - visible) as usize
        } else {
            scroll
        },
{
    lemma_scroll_after_lines(scroll, 0, visible, m);
}

proof fn lemma_scroll_after_lines(scroll: usize, len: nat, visible: usize, m: nat)
    requires
        len + m <= usize::MAX,
    ensures
        scroll_after_lines(scroll, len, visible, m) == if m > 0 && len + m > visible {
            (len + m - visible) as usize
        } else {
            scroll
        },
    decreases m,
{
    if m > 0 {
        lemma_scroll_after_lines(follow_scroll(scroll, len + 1, visible), len + 1, visible, (m - 1) as nat);
    }
}

} // verus!
