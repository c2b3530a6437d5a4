//! The decisions of the event loop: what each key press and each event of a
//! running install does to the application state, and which outside work
//! (starting a command, storing the installed ids) follows from it.

use vstd::prelude::*;
use vstd::string::StringExecFns;

use crate::catalog::InstallOption;
use crate::installer::InstallerEvent;
use crate::state::{ActionChoice, AppMode, AppState, follow_scroll, wrap_down, wrap_up};
use crate::text::{decimal, decimal_text};

verus! {

/// Number of output rows kept in view while output arrives.
pub const OUTPUT_WINDOW: usize = 20;

/// The key of a key press.
#[derive(Debug, Clone, Copy, PartialEq, Eq, Structural)]
pub enum Key {
    Up,
    Down,
    Enter,
    Esc,
    Char(char),
    Other,
}

/// A key press, with whether the control modifier was held.
#[derive(Debug, Clone, Copy, PartialEq, Eq, Structural)]
pub struct KeyPress {
    pub key: Key,
    pub ctrl: bool,
}

/// An install or uninstall that is to be started.
pub struct ActionRequest {
    pub option_id: String,
    pub uninstall: bool,
}

/// A change of the installed ids that is to be stored.
pub enum StoreChange {
    Installed(String),
    Uninstalled(String),
}

/// Ctrl+C, which quits in every mode.
pub open spec fn is_interrupt(k: KeyPress) -> bool {
    k.ctrl && k.key == Key::Char('c')
}

pub open spec fn is_up(k: KeyPress) -> bool {
    k.key == Key::Up || k.key == Key::Char('k')
}

pub open spec fn is_down(k: KeyPress) -> bool {
    k.key == Key::Down || k.key == Key::Char('j')
}

/// The label of an action on the option named `name`.
pub open spec fn action_label(uninstall: bool, name: Seq<char>) -> Seq<char> {
    if uninstall {
        "Uninstalling "@ + name
    } else {
        "Installing "@ + name
    }
}

/// The status line that invites an action on the option at `index`, or
/// `fallback` where there is no such option.
pub open spec fn selection_status(
    s: AppState,
    catalog: Seq<InstallOption>,
    index: usize,
    fallback: Seq<char>,
) -> Seq<char> {
    if index < catalog.len() {
        "Press Enter to "@ + (if s.installed@.contains(catalog[index as int].id@) {
            "uninstall"@
        } else {
            "install"@
        }) + " "@ + catalog[index as int].name@
    } else {
        fallback
    }
}

/// The status line while the popup for the option named `name` is open.
pub open spec fn choose_status(name: Seq<char>) -> Seq<char> {
    name + " is installed - choose action"@
}

pub open spec fn installed_status(name: Seq<char>) -> Seq<char> {
    "Installed "@ + name + " - Press Enter on another option"@
}

pub open spec fn uninstalled_status(name: Seq<char>) -> Seq<char> {
    "Uninstalled "@ + name + " - Press Enter on another option"@
}

pub open spec fn failed_status(code: i32) -> Seq<char> {
    "Failed with exit code "@ + decimal_text(code as int) + " - Esc to close output"@
}

pub open spec fn error_status() -> Seq<char> {
    "Error occurred - Esc to close output"@
}

/// The output line that reports an error of the install command.
pub open spec fn error_line(message: Seq<char>) -> Seq<char> {
    "Error: "@ + message
}

/// The state that starting an action from `before` leads to, where the
/// selected option exists (nothing changes otherwise): `new` and `r` are
/// what `run_action` gives.
pub open spec fn action_started(
    before: AppState,
    catalog: Seq<InstallOption>,
    channel_before: bool,
    uninstall: bool,
    new: Controller,
    r: Option<ActionRequest>,
) -> bool {
    let index = before.selected_index;
    if index < catalog.len() {
        let option = catalog[index as int];
        &&& new.state == (AppState {
            output_lines: new.state.output_lines,
            current_action: new.state.current_action,
            status_message: new.state.status_message,
            output_scroll: 0,
            last_exit_code: None,
            mode: AppMode::Installing,
            show_output: true,
            is_uninstalling: uninstall,
            ..before
        })
        &&& new.state.output_lines@.len() == 0
        &&& new.state.current_action is Some
        &&& new.state.current_action.unwrap()@ == action_label(uninstall, option.name@)
        &&& new.state.status_message@ == action_label(uninstall, option.name@)
        &&& new.channel_open
        &&& r is Some
        &&& r.unwrap().option_id@ == option.id@
        &&& r.unwrap().uninstall == uninstall
    } else {
        new.state == before && new.channel_open == channel_before && r is None
    }
}

/// The state in which the application waits for input and events: the
/// application state, the fixed catalog of options, and whether events of a
/// running command are still awaited.
pub struct Controller {
    pub state: AppState,
    pub catalog: Vec<InstallOption>,
    pub channel_open: bool,
}

impl Controller {
    pub open spec fn wf(&self) -> bool {
        &&& self.state.wf()
        &&& (self.catalog@.len() == 0 || self.state.selected_index < self.catalog@.len())
        &&& (self.channel_open ==> self.state.mode == AppMode::Installing)
    }

    /// A controller over `state` and `catalog`, with no command running.
    pub fn new(state: AppState, catalog: Vec<InstallOption>) -> (r: Controller)
        requires
            state.wf(),
            catalog@.len() == 0 || state.selected_index < catalog@.len(),
            state.mode != AppMode::Installing,
        ensures
            r.wf(),
            r.state == state,
            r.catalog == catalog,
            !r.channel_open,
    {
        Controller { state, catalog, channel_open: false }
    }

    /// Handles one key press. Ctrl+C quits in every mode; otherwise the
    /// mode decides. The result is the action to start, if any.
    pub fn handle_key_event(&mut self, key: KeyPress) -> (r: Option<ActionRequest>)
        requires
            old(self).wf(),
        ensures
            final(self).wf(),
            final(self).catalog == old(self).catalog,
            is_interrupt(key) ==> r is None && final(self).channel_open == old(self).channel_open
                && final(self).state == (AppState { should_quit: true, ..old(self).state }),
            !is_interrupt(key) && old(self).state.mode == AppMode::Installing ==> r is None
                && *final(self) == *old(self),
            !is_interrupt(key) && (old(self).state.mode == AppMode::Normal
                || old(self).state.mode == AppMode::Completed) ==> Self::normal_key_done(
                *old(self),
                key,
                *final(self),
                r,
            ),
            !is_interrupt(key) && old(self).state.mode == AppMode::ConfirmAction
                ==> Self::popup_key_done(*old(self), key, *final(self), r),
    {
        if key.ctrl && key.key == Key::Char('c') {
            self.state.should_quit = true;
            return None;
        }
        match self.state.mode {
            AppMode::Normal => self.handle_normal_mode_key(key),
            AppMode::ConfirmAction => self.handle_popup_key(key),
            AppMode::Installing => None,
            AppMode::Completed => self.handle_completed_mode_key(key),
        }
    }

    /// What a key press in `Normal` or `Completed` mode does.
    pub open spec fn normal_key_done(
        old: Controller,
        key: KeyPress,
        new: Controller,
        r: Option<ActionRequest>,
    ) -> bool {
        let len = old.catalog@.len() as usize;
        if key.key == Key::Char('q') {
            r is None && new == (Controller {
                state: AppState { should_quit: true, ..old.state },
                ..old
            })
        } else if is_up(key) || is_down(key) {
            let index = if is_up(key) {
                wrap_up(old.state.selected_index, len)
            } else {
                wrap_down(old.state.selected_index, len)
            };
            &&& r is None
            &&& new == (Controller {
                state: AppState {
                    selected_index: index,
                    status_message: new.state.status_message,
                    ..old.state
                },
                ..old
            })
            &&& new.state.status_message@ == selection_status(
                old.state,
                old.catalog@,
                index,
                old.state.status_message@,
            )
        } else if key.key == Key::Enter {
            Self::trigger_done(old, new, r)
        } else if key.key == Key::Esc {
            &&& r is None
            &&& new == (Controller {
                state: AppState {
                    output_lines: new.state.output_lines,
                    output_scroll: 0,
                    last_exit_code: None,
                    show_output: false,
                    ..old.state
                },
                ..old
            })
            &&& new.state.output_lines@.len() == 0
        } else {
            r is None && new == old
        }
    }

    /// What a key press in `ConfirmAction` mode does.
    pub open spec fn popup_key_done(
        old: Controller,
        key: KeyPress,
        new: Controller,
        r: Option<ActionRequest>,
    ) -> bool {
        if is_up(key) {
            r is None && new == (Controller {
                state: AppState { popup_choice: ActionChoice::Reinstall, ..old.state },
                ..old
            })
        } else if is_down(key) {
            r is None && new == (Controller {
                state: AppState { popup_choice: ActionChoice::Uninstall, ..old.state },
                ..old
            })
        } else if key.key == Key::Enter {
            let before = AppState { mode: AppMode::Normal, ..old.state };
            let uninstall = old.state.popup_choice == ActionChoice::Uninstall;
            &&& new.catalog == old.catalog
            &&& action_started(before, old.catalog@, old.channel_open, uninstall, new, r)
        } else if key.key == Key::Esc {
            &&& r is None
            &&& new == (Controller {
                state: AppState {
                    mode: AppMode::Normal,
                    status_message: new.state.status_message,
                    ..old.state
                },
                ..old
            })
            &&& new.state.status_message@ == selection_status(
                old.state,
                old.catalog@,
                old.state.selected_index,
                old.state.status_message@,
            )
        } else {
            r is None && new == old
        }
    }

    /// What Enter on the selected option does in `Normal` mode: a popup for
    /// an installed option, an install otherwise.
    pub open spec fn trigger_done(old: Controller, new: Controller, r: Option<ActionRequest>) -> bool {
        let index = old.state.selected_index;
        if index >= old.catalog@.len() {
            r is None && new == old
        } else if old.state.installed@.contains(old.catalog@[index as int].id@) {
            &&& r is None
            &&& new == (Controller {
                state: AppState {
                    popup_choice: ActionChoice::Reinstall,
                    mode: AppMode::ConfirmAction,
                    status_message: new.state.status_message,
                    ..old.state
                },
                ..old
            })
            &&& new.state.status_message@ == choose_status(old.catalog@[index as int].name@)
        } else {
            new.catalog == old.catalog && action_started(old.state, old.catalog@, old.channel_open, false, new, r)
        }
    }

    fn handle_normal_mode_key(&mut self, key: KeyPress) -> (r: Option<ActionRequest>)
        requires
            old(self).wf(),
            old(self).state.mode != AppMode::Installing,
        ensures
            final(self).wf(),
            Self::normal_key_done(*old(self), key, *final(self), r),
    {
        match key.key {
            Key::Char('q') => {
                self.state.should_quit = true;
                None
            },
            Key::Up | Key::Char('k') => {
                self.state.move_up(self.catalog.len());
                self.update_status_for_selection();
                None
            },
            Key::Down | Key::Char('j') => {
                self.state.move_down(self.catalog.len());
                self.update_status_for_selection();
                None
            },
            Key::Enter => self.trigger_action(),
            Key::Esc => {
                self.state.clear_output();
                self.state.show_output = false;
                None
            },
            _ => None,
        }
    }

    /// `Completed` mode takes keys as `Normal` mode does.
    fn handle_completed_mode_key(&mut self, key: KeyPress) -> (r: Option<ActionRequest>)
        requires
            old(self).wf(),
            old(self).state.mode != AppMode::Installing,
        ensures
            final(self).wf(),
            Self::normal_key_done(*old(self), key, *final(self), r),
    {
        self.handle_normal_mode_key(key)
    }

    fn handle_popup_key(&mut self, key: KeyPress) -> (r: Option<ActionRequest>)
        requires
            old(self).wf(),
            old(self).state.mode == AppMode::ConfirmAction,
        ensures
            final(self).wf(),
            Self::popup_key_done(*old(self), key, *final(self), r),
    {
        match key.key {
            Key::Up | Key::Char('k') => {
                self.state.popup_choice = ActionChoice::Reinstall;
                None
            },
            Key::Down | Key::Char('j') => {
                self.state.popup_choice = ActionChoice::Uninstall;
                None
            },
            Key::Enter => {
                let uninstall = self.state.popup_choice == ActionChoice::Uninstall;
                self.state.mode = AppMode::Normal;
                self.run_action(uninstall)
            },
            Key::Esc => {
                self.state.mode = AppMode::Normal;
                self.update_status_for_selection();
                None
            },
            _ => None,
        }
    }

    /// Enter on the selected option: opens the popup where it is installed,
    /// starts its install otherwise.
    fn trigger_action(&mut self) -> (r: Option<ActionRequest>)
        requires
            old(self).wf(),
            old(self).state.mode != AppMode::Installing,
        ensures
            final(self).wf(),
            Self::trigger_done(*old(self), *final(self), r),
    {
        if self.state.selected_index >= self.catalog.len() {
            return None;
        }
        let index = self.state.selected_index;
        if self.state.is_installed(self.catalog[index].id.as_str()) {
            self.state.popup_choice = ActionChoice::Reinstall;
            self.state.mode = AppMode::ConfirmAction;
            let mut message = self.catalog[index].name.clone();
            message.append(" is installed - choose action");
            self.state.status_message = message;
            None
        } else {
            self.run_action(false)
        }
    }

    /// Starts an action on the selected option: clears the output, enters
    /// `Installing` mode and asks for the command to be run.
    fn run_action(&mut self, uninstall: bool) -> (r: Option<ActionRequest>)
        requires
            old(self).wf(),
            old(self).state.mode != AppMode::Installing,
        ensures
            final(self).wf(),
            final(self).catalog == old(self).catalog,
            action_started(
                old(self).state,
                old(self).catalog@,
                old(self).channel_open,
                uninstall,
                *final(self),
                r,
            ),
    {
        if self.state.selected_index >= self.catalog.len() {
            return None;
        }
        let index = self.state.selected_index;
        let mut action = if uninstall {
            String::from_str("Uninstalling ")
        } else {
            String::from_str("Installing ")
        };
        action.append(self.catalog[index].name.as_str());
        self.state.clear_output();
        self.state.current_action = Some(action.clone());
        self.state.status_message = action;
        self.state.mode = AppMode::Installing;
        self.state.show_output = true;
        self.state.is_uninstalling = uninstall;
        self.channel_open = true;
        Some(ActionRequest { option_id: self.catalog[index].id.clone(), uninstall })
    }

    /// What an event of the running command does. Output is appended and
    /// kept in view; a terminal event returns to `Normal` mode and closes the
    /// channel; a success changes the installed ids of the selected option,
    /// and the change to store is the result.
    pub open spec fn event_done(
        old: Controller,
        event: InstallerEvent,
        new: Controller,
        r: Option<StoreChange>,
    ) -> bool {
        match event {
            InstallerEvent::OutputLine(line) => {
                &&& r is None
                &&& new == (Controller {
                    state: AppState {
                        output_lines: new.state.output_lines,
                        output_scroll: new.state.output_scroll,
                        ..old.state
                    },
                    ..old
                })
                &&& new.state.output_lines@ == old.state.output_lines@.push(line)
                &&& new.state.output_scroll == follow_scroll(
                    old.state.output_scroll,
                    new.state.output_lines@.len(),
                    OUTPUT_WINDOW,
                )
            },
            InstallerEvent::Completed(code) => {
                let index = old.state.selected_index;
                let after = AppState {
                    last_exit_code: Some(code),
                    mode: AppMode::Normal,
                    ..old.state
                };
                &&& new.catalog == old.catalog
                &&& !new.channel_open
                &&& if index >= old.catalog@.len() {
                    r is None && new.state == after
                } else {
                    let option = old.catalog@[index as int];
                    &&& new.state == (AppState {
                        installed: new.state.installed,
                        status_message: new.state.status_message,
                        ..after
                    })
                    &&& new.state.installed.wf()
                    &&& if code != 0 {
                        &&& r is None
                        &&& new.state.installed == old.state.installed
                        &&& new.state.status_message@ == failed_status(code)
                    } else if old.state.is_uninstalling {
                        &&& new.state.installed@ == old.state.installed@.remove(option.id@)
                        &&& new.state.status_message@ == uninstalled_status(option.name@)
                        &&& r is Some
                        &&& r.unwrap() matches StoreChange::Uninstalled(id) && id@ == option.id@
                    } else {
                        &&& new.state.installed@ == old.state.installed@.insert(option.id@)
                        &&& new.state.status_message@ == installed_status(option.name@)
                        &&& r is Some
                        &&& r.unwrap() matches StoreChange::Installed(id) && id@ == option.id@
                    }
                }
            },
            InstallerEvent::Error(message) => {
                &&& r is None
                &&& new == (Controller {
                    state: AppState {
                        output_lines: new.state.output_lines,
                        status_message: new.state.status_message,
                        last_exit_code: Some(-1i32),
                        mode: AppMode::Normal,
                        ..old.state
                    },
                    channel_open: false,
                    ..old
                })
                &&& new.state.output_lines@.len() == old.state.output_lines@.len() + 1
                &&& new.state.output_lines@.drop_last() == old.state.output_lines@
                &&& new.state.output_lines@.last()@ == error_line(message@)
                &&& new.state.status_message@ == error_status()
            },
        }
    }

    /// Handles one event drained from the channel of the running command.
    /// The result is the change of the installed ids to store, if any.
    pub fn handle_installer_event(&mut self, event: InstallerEvent) -> (r: Option<StoreChange>)
        requires
            old(self).wf(),
            old(self).channel_open,
        ensures
            final(self).wf(),
            Self::event_done(*old(self), event, *final(self), r),
    {
        match event {
            InstallerEvent::OutputLine(line) => {
                self.state.follow_output_line(line, OUTPUT_WINDOW);
                None
            },
            InstallerEvent::Completed(exit_code) => {
                self.state.last_exit_code = Some(exit_code);
                self.state.mode = AppMode::Normal;
                let index = self.state.selected_index;
                let mut change: Option<StoreChange> = None;
                if index < self.catalog.len() {
                    if exit_code == 0 {
                        if self.state.is_uninstalling {
                            self.state.installed.remove(self.catalog[index].id.as_str());
                            let mut message = String::from_str("Uninstalled ");
                            message.append(self.catalog[index].name.as_str());
                            message.append(" - Press Enter on another option");
                            self.state.status_message = message;
                            change = Some(StoreChange::Uninstalled(self.catalog[index].id.clone()));
                        } else {
                            self.state.installed.insert(self.catalog[index].id.as_str());
                            let mut message = String::from_str("Installed ");
                            message.append(self.catalog[index].name.as_str());
                            message.append(" - Press Enter on another option");
                            self.state.status_message = message;
                            change = Some(StoreChange::Installed(self.catalog[index].id.clone()));
                        }
                    } else {
                        let mut message = String::from_str("Failed with exit code ");
                        let code = decimal(exit_code);
                        message.append(code.as_str());
                        message.append(" - Esc to close output");
                        self.state.status_message = message;
                    }
                }
                self.channel_open = false;
                change
            },
            InstallerEvent::Error(err) => {
                let mut line = String::from_str("Error: ");
                line.append(err.as_str());
                self.state.add_output_line(line);
                assert(self.state.output_lines@.drop_last() =~= old(self).state.output_lines@);
                self.state.last_exit_code = Some(-1);
                self.state.mode = AppMode::Normal;
                self.state.status_message = String::from_str("Error occurred - Esc to close output");
                self.channel_open = false;
                None
            },
        }
    }

    /// The channel closed without a terminal event: no more events are
    /// awaited.
    pub fn channel_disconnected(&mut self)
        requires
            old(self).wf(),
        ensures
            final(self).wf(),
            *final(self) == (Controller { channel_open: false, ..*old(self) }),
    {
        self.channel_open = false;
    }

    /// Sets the status line to invite an action on the selected option.
    fn update_status_for_selection(&mut self)
        requires
            old(self).wf(),
        ensures
            final(self).wf(),
            *final(self) == (Controller {
                state: AppState { status_message: final(self).state.status_message, ..old(self).state },
                ..*old(self)
            }),
            final(self).state.status_message@ == selection_status(
                old(self).state,
                old(self).catalog@,
                old(self).state.selected_index,
                old(self).state.status_message@,
            ),
    {
        let index = self.state.selected_index;
        if index < self.catalog.len() {
            let installed = self.state.is_installed(self.catalog[index].id.as_str());
            let mut message = String::from_str("Press Enter to ");
            if installed {
                message.append("uninstall");
            } else {
                message.append("install");
            }
            message.append(" ");
            message.append(self.catalog[index].name.as_str());
            self.state.status_message = message;
        }
    }
}

/// A successful end of an action changes the installed ids as the action
/// asked: starting an uninstall and then draining `Completed(0)` removes the
/// selected option's id; starting an install and then draining it adds the id.
pub proof fn lemma_success_applies_action(
    start: Controller,
    uninstall: bool,
    running: Controller,
    request: Option<ActionRequest>,
    done: Controller,
    change: Option<StoreChange>,
)
    requires
        start.wf(),
        start.state.selected_index < start.catalog@.len(),
        running.catalog == start.catalog,
        action_started(start.state, start.catalog@, start.channel_open, uninstall, running, request),
        Controller::event_done(running, InstallerEvent::Completed(0), done, change),
    ensures
        uninstall ==> done.state.installed@ == start.state.installed@.remove(
            start.catalog@[start.state.selected_index as int].id@,
        ),
        !uninstall ==> done.state.installed@ == start.state.installed@.insert(
            start.catalog@[start.state.selected_index as int].id@,
        ),
{
}

/// A failed action leaves the installed ids as they were.
pub proof fn lemma_failure_keeps_installed(
    before: Controller,
    code: i32,
    after: Controller,
    change: Option<StoreChange>,
)
    requires
        code != 0,
        Controller::event_done(before, InstallerEvent::Completed(code), after, change),
    ensures
        after.state.installed == before.state.installed,
        change is None,
{
}

/// After a terminal event the channel is closed, so that no further event
/// is drained (`handle_installer_event` asks for an open channel).
pub proof fn lemma_terminal_event_closes_channel(
    before: Controller,
    event: InstallerEvent,
    after: Controller,
    change: Option<StoreChange>,
)
    requires
        event.is_terminal(),
        Controller::event_done(before, event, after, change),
    ensures
        !after.channel_open,
{
}

} // verus!
