//! The interactive session: the selection state and the two-step input flow
//! (choosing a target and a package manager, then entering the output path).

use vstd::arithmetic::div_mod::{lemma_mod_self_0, lemma_small_mod};
use vstd::prelude::*;

use crate::catalog::{package_manager_name, pkg_managers, PKG_MANAGER_COUNT};
use crate::path_check::{error_message, file_name_of, path_file_name, validate, validation};
use crate::profile::{
    generate_initial_filename, initial_filename, map_raw_de_to_profile, resolve_spec, upper_of,
};
use crate::script::{generate, replace_all, replaced, script_text, SCRIPT_NAME_PLACEHOLDER};

verus! {

/// A key press, as the session sees it.
#[derive(Debug, Clone, Copy, PartialEq, Eq, Structural)]
pub enum Key {
    Char(char),
    Ctrl(char),
    Up,
    Down,
    Left,
    Right,
    Tab,
    Enter,
    Esc,
    Backspace,
    Delete,
    Other,
}

/// What the session asks of its driver after a key press.
#[derive(Debug, Clone, Copy, PartialEq, Eq, Structural)]
pub enum Flow {
    /// Keep reading keys.
    Continue,
    /// The user left without choosing; nothing is written.
    Cancelled,
    /// A valid path was confirmed; the script is to be written.
    Done,
}

/// Relies on `ToString` for `char`: a string holding exactly that character.
#[verifier::external_body]
fn char_text(c: char) -> (r: String)
    ensures
        r@ == seq![c],
{
    c.to_string()
}

/// Which of the two input steps the session is in.
#[derive(Debug, Clone, Copy, PartialEq, Eq, Structural)]
pub enum AppStep {
    SelectDE,
    InputPath,
}

/// State of one switching session.
pub struct App {
    pub current_de_raw: String,
    pub current_de_profile: String,
    pub available_des: Vec<String>,
    pub selected_de_index: usize,
    pub selected_pkg_manager_index: usize,
    pub should_quit: bool,
    pub current_step: AppStep,
    pub input_buffer: String,
    pub input_cursor_position: usize,
    pub input_error: Option<String>,
}

/// Name used in the script for a path without a file name.
pub const FALLBACK_SCRIPT_NAME: &'static str = "de_switcher.sh";

/// The file name that the saved script refers to itself by.
pub open spec fn script_file_name(path: Seq<char>) -> Seq<char> {
    match path_file_name(path) {
        Some(f) => f,
        None => FALLBACK_SCRIPT_NAME@,
    }
}

/// The index after `i` in a cycle of length `n`.
pub open spec fn next_index(i: int, n: int) -> int {
    (i + 1) % n
}

/// The index before `i` in a cycle of length `n`.
pub open spec fn prev_index(i: int, n: int) -> int {
    if i > 0 {
        i - 1
    } else {
        n - 1
    }
}

/// Stepping forward then back, or back then forward, in a non-empty cycle
/// returns to the index started from.
pub proof fn lemma_next_prev_inverse(i: int, n: int)
    requires
        0 <= i < n,
    ensures
        prev_index(next_index(i, n), n) == i,
        next_index(prev_index(i, n), n) == i,
{
    if i + 1 < n {
        lemma_small_mod((i + 1) as nat, n as nat);
    } else {
        lemma_mod_self_0(n);
    }
    if i > 0 {
        lemma_small_mod(i as nat, n as nat);
    } else {
        lemma_mod_self_0(n);
    }
}

/// Cycling the package manager three times returns to the one started from.
pub proof fn lemma_cycle_package_manager_three_times(i: int)
    requires
        0 <= i < PKG_MANAGER_COUNT,
    ensures
        next_index(
            next_index(next_index(i, PKG_MANAGER_COUNT as int), PKG_MANAGER_COUNT as int),
            PKG_MANAGER_COUNT as int,
        ) == i,
{
}

/// The path text offered for a switch from `from` to `to`.
pub open spec fn default_path(from: Seq<char>, to: Seq<char>) -> Seq<char> {
    "./"@ + initial_filename(from, to)
}

/// `b` holds the same profiles, selections and flags as `a`.
pub open spec fn same_choices(a: App, b: App) -> bool {
    &&& b.current_de_raw == a.current_de_raw
    &&& b.current_de_profile == a.current_de_profile
    &&& b.available_des == a.available_des
    &&& b.selected_de_index == a.selected_de_index
    &&& b.selected_pkg_manager_index == a.selected_pkg_manager_index
    &&& b.should_quit == a.should_quit
}

/// `b` is `a` with the path text set to `text` and the cursor to `cursor`.
pub open spec fn edited(a: App, b: App, text: Seq<char>, cursor: int) -> bool {
    &&& same_choices(a, b)
    &&& b.current_step == a.current_step
    &&& b.input_error == a.input_error
    &&& b.input_buffer@ == text
    &&& b.input_cursor_position == cursor
}

/// `b` is `a` with the path text re-derived from the current choices where
/// `a` is still selecting, and `a` itself otherwise.
pub open spec fn path_refreshed(a: App, b: App) -> bool {
    if a.current_step == AppStep::SelectDE {
        edited(a, b, a.default_path_spec(), a.default_path_spec().len() as int)
    } else {
        b == a
    }
}

/// `b` is `a` with target index `i`, and the path text refreshed.
pub open spec fn retargeted(a: App, b: App, i: int) -> bool {
    &&& b.selected_de_index == i
    &&& path_refreshed(
        App { selected_de_index: i as usize, ..a },
        b,
    )
}

/// The effect of key `key` on session `a`, giving session `b` and answer `r`;
/// `is_dir` and `parent_exists` describe the path text on the file system.
pub open spec fn transition(a: App, b: App, key: Key, is_dir: bool, parent_exists: bool, r: Flow) -> bool {
    let n = a.available_des.len() as int;
    let cur = a.input_cursor_position as int;
    let text = a.input_buffer@;
    if a.current_step == AppStep::SelectDE {
        if key == Key::Char('q') || key == Key::Esc {
            r == Flow::Cancelled && b == a
        } else if key == Key::Char('j') || key == Key::Down {
            r == Flow::Continue && retargeted(a, b, next_index(a.selected_de_index as int, n))
        } else if key == Key::Char('k') || key == Key::Up {
            r == Flow::Continue && retargeted(a, b, prev_index(a.selected_de_index as int, n))
        } else if key == Key::Ctrl('p') || key == Key::Tab {
            r == Flow::Continue && b == (App {
                selected_pkg_manager_index: next_index(
                    a.selected_pkg_manager_index as int,
                    PKG_MANAGER_COUNT as int,
                ) as usize,
                ..a
            })
        } else if key == Key::Enter {
            r == Flow::Continue && b == (App {
                current_step: AppStep::InputPath,
                input_error: None,
                ..a
            })
        } else {
            r == Flow::Continue && b == a
        }
    } else {
        match key {
            Key::Char(c) => r == Flow::Continue && edited(a, b, text.insert(cur, c), cur + 1),
            Key::Ctrl(c) => r == Flow::Continue && edited(a, b, text.insert(cur, c), cur + 1),
            Key::Backspace => r == Flow::Continue && if cur > 0 {
                edited(a, b, text.remove(cur - 1), cur - 1)
            } else {
                b == a
            },
            Key::Delete => r == Flow::Continue && if cur < text.len() {
                edited(a, b, text.remove(cur), cur)
            } else {
                b == a
            },
            Key::Left => r == Flow::Continue && if cur > 0 {
                edited(a, b, text, cur - 1)
            } else {
                b == a
            },
            Key::Right => r == Flow::Continue && if cur < text.len() {
                edited(a, b, text, cur + 1)
            } else {
                b == a
            },
            Key::Enter => match validation(text, is_dir, parent_exists) {
                Ok(()) => r == Flow::Done && b == (App {
                    should_quit: true,
                    input_error: None,
                    ..a
                }),
                Err(e) => r == Flow::Continue && b.input_error is Some && b.input_error->0@
                    == error_message(e) && b == (App { input_error: b.input_error, ..a }),
            },
            Key::Esc => r == Flow::Continue && path_refreshed(
                App { current_step: AppStep::SelectDE, input_error: None, ..a },
                b,
            ),
            _ => r == Flow::Continue && b == a,
        }
    }
}

impl App {
    /// The session's invariant: a non-empty list of targets, both selections
    /// in range and the cursor inside the path text.
    pub open spec fn wf(&self) -> bool {
        &&& self.available_des.len() > 0
        &&& self.selected_de_index < self.available_des.len()
        &&& self.selected_pkg_manager_index < PKG_MANAGER_COUNT
        &&& self.input_cursor_position <= self.input_buffer@.len()
    }

    /// The selected target profile.
    pub open spec fn target_spec(&self) -> Seq<char> {
        self.available_des[self.selected_de_index as int]@
    }

    /// The selected package manager.
    pub open spec fn pkg_manager_spec(&self) -> Seq<char> {
        pkg_managers()[self.selected_pkg_manager_index as int]
    }

    /// The path text offered for the current choices.
    pub open spec fn default_path_spec(&self) -> Seq<char> {
        default_path(self.current_de_profile@, self.target_spec())
    }

    /// A session for the desktop identifier `current_de_raw`, choosing among
    /// `available_des`, with the first target and package manager selected.
    pub fn new(current_de_raw: String, available_des: Vec<String>) -> (r: App)
        requires
            available_des.len() > 0,
        ensures
            r.wf(),
            r.current_de_raw == current_de_raw,
            r.current_de_profile@ == resolve_spec(upper_of(current_de_raw@)),
            r.available_des == available_des,
            r.selected_de_index == 0,
            r.selected_pkg_manager_index == 0,
            !r.should_quit,
            r.current_step == AppStep::SelectDE,
            r.input_buffer@ == r.default_path_spec(),
            r.input_cursor_position == r.input_buffer@.len(),
            r.input_error is None,
    {
        let current_de_profile = map_raw_de_to_profile(current_de_raw.as_str());
        let name = generate_initial_filename(
            current_de_profile.as_str(),
            available_des[0].as_str(),
        );
        let mut path = String::from_str("./");
        path.append(name.as_str());
        let cursor = path.as_str().unicode_len();
        App {
            current_de_raw,
            current_de_profile,
            available_des,
            selected_de_index: 0,
            selected_pkg_manager_index: 0,
            should_quit: false,
            current_step: AppStep::SelectDE,
            input_buffer: path,
            input_cursor_position: cursor,
            input_error: None,
        }
    }

    /// Re-derives the path text from the current choices while the session
    /// is still selecting; leaves it alone during path entry.
    pub fn update_filename_on_de_change(&mut self)
        requires
            old(self).wf(),
        ensures
            final(self).wf(),
            path_refreshed(*old(self), *final(self)),
    {
        let name = generate_initial_filename(
            self.current_de_profile.as_str(),
            self.available_des[self.selected_de_index].as_str(),
        );
        if self.current_step == AppStep::SelectDE {
            let mut path = String::from_str("./");
            path.append(name.as_str());
            self.input_cursor_position = path.as_str().unicode_len();
            self.input_buffer = path;
        }
    }

    /// Selects the next target, wrapping after the last.
    pub fn next_de(&mut self)
        requires
            old(self).wf(),
        ensures
            final(self).wf(),
            retargeted(
                *old(self),
                *final(self),
                next_index(old(self).selected_de_index as int, old(self).available_des.len() as int),
            ),
    {
        self.selected_de_index = (self.selected_de_index + 1) % self.available_des.len();
        self.update_filename_on_de_change();
    }

    /// Selects the previous target, wrapping before the first.
    pub fn previous_de(&mut self)
        requires
            old(self).wf(),
        ensures
            final(self).wf(),
            retargeted(
                *old(self),
                *final(self),
                prev_index(old(self).selected_de_index as int, old(self).available_des.len() as int),
            ),
    {
        if self.selected_de_index > 0 {
            self.selected_de_index = self.selected_de_index - 1;
        } else {
            self.selected_de_index = self.available_des.len() - 1;
        }
        self.update_filename_on_de_change();
    }

    /// Selects the next package manager, wrapping after the last.
    pub fn cycle_pkg_manager(&mut self)
        requires
            old(self).wf(),
        ensures
            final(self).wf(),
            *final(self) == (App {
                selected_pkg_manager_index: next_index(
                    old(self).selected_pkg_manager_index as int,
                    PKG_MANAGER_COUNT as int,
                ) as usize,
                ..*old(self)
            }),
    {
        self.selected_pkg_manager_index = (self.selected_pkg_manager_index + 1) % PKG_MANAGER_COUNT;
    }

    /// The selected target profile.
    pub fn current_target(&self) -> (r: String)
        requires
            self.wf(),
        ensures
            r@ == self.target_spec(),
    {
        self.available_des[self.selected_de_index].clone()
    }

    /// The selected package manager.
    pub fn current_package_manager(&self) -> (r: &'static str)
        requires
            self.wf(),
        ensures
            r@ == self.pkg_manager_spec(),
    {
        package_manager_name(self.selected_pkg_manager_index)
    }

    /// The output path as entered.
    pub fn generate_filename(&self) -> (r: String)
        ensures
            r == self.input_buffer,
    {
        self.input_buffer.clone()
    }

    /// The script for the current profile, target and package manager.
    pub fn generate_script(&self) -> (r: String)
        requires
            self.wf(),
        ensures
            r@ == script_text(
                self.current_de_profile@,
                self.target_spec(),
                self.pkg_manager_spec(),
            ),
    {
        let target = &self.available_des[self.selected_de_index];
        let pm = package_manager_name(self.selected_pkg_manager_index);
        generate(self.current_de_profile.as_str(), target.as_str(), pm)
    }

    /// Inserts `c` at the cursor and moves the cursor past it.
    pub fn insert_char(&mut self, c: char)
        requires
            old(self).wf(),
            old(self).input_buffer@.len() < usize::MAX,
        ensures
            final(self).wf(),
            edited(
                *old(self),
                *final(self),
                old(self).input_buffer@.insert(old(self).input_cursor_position as int, c),
                old(self).input_cursor_position + 1,
            ),
    {
        let cur = self.input_cursor_position;
        let n = self.input_buffer.as_str().unicode_len();
        let mut t = String::from_str(self.input_buffer.as_str().substring_char(0, cur));
        let ct = char_text(c);
        t.append(ct.as_str());
        t.append(self.input_buffer.as_str().substring_char(cur, n));
        assert(t@ =~= old(self).input_buffer@.insert(cur as int, c));
        self.input_buffer = t;
        self.input_cursor_position = cur + 1;
    }

    /// Removes the character before the cursor, if any, and moves the cursor
    /// back over it.
    pub fn delete_before_cursor(&mut self)
        requires
            old(self).wf(),
        ensures
            final(self).wf(),
            old(self).input_cursor_position > 0 ==> edited(
                *old(self),
                *final(self),
                old(self).input_buffer@.remove(old(self).input_cursor_position - 1),
                old(self).input_cursor_position - 1,
            ),
            old(self).input_cursor_position == 0 ==> *final(self) == *old(self),
    {
        let cur = self.input_cursor_position;
        if cur > 0 {
            let n = self.input_buffer.as_str().unicode_len();
            let mut t = String::from_str(self.input_buffer.as_str().substring_char(0, cur - 1));
            t.append(self.input_buffer.as_str().substring_char(cur, n));
            assert(t@ =~= old(self).input_buffer@.remove(cur - 1));
            self.input_buffer = t;
            self.input_cursor_position = cur - 1;
        }
    }

    /// Removes the character at the cursor, if any.
    pub fn delete_at_cursor(&mut self)
        requires
            old(self).wf(),
        ensures
            final(self).wf(),
            old(self).input_cursor_position < old(self).input_buffer@.len() ==> edited(
                *old(self),
                *final(self),
                old(self).input_buffer@.remove(old(self).input_cursor_position as int),
                old(self).input_cursor_position as int,
            ),
            old(self).input_cursor_position == old(self).input_buffer@.len() ==> *final(self)
                == *old(self),
    {
        let cur = self.input_cursor_position;
        let n = self.input_buffer.as_str().unicode_len();
        if cur < n {
            let mut t = String::from_str(self.input_buffer.as_str().substring_char(0, cur));
            t.append(self.input_buffer.as_str().substring_char(cur + 1, n));
            assert(t@ =~= old(self).input_buffer@.remove(cur as int));
            self.input_buffer = t;
        }
    }

    /// Moves the cursor one character to the left, if it can.
    pub fn move_cursor_left(&mut self)
        requires
            old(self).wf(),
        ensures
            final(self).wf(),
            *final(self) == (App {
                input_cursor_position: if old(self).input_cursor_position > 0 {
                    (old(self).input_cursor_position - 1) as usize
                } else {
                    old(self).input_cursor_position
                },
                ..*old(self)
            }),
    {
        if self.input_cursor_position > 0 {
            self.input_cursor_position = self.input_cursor_position - 1;
        }
    }

    /// Moves the cursor one character to the right, if it can.
    pub fn move_cursor_right(&mut self)
        requires
            old(self).wf(),
        ensures
            final(self).wf(),
            *final(self) == (App {
                input_cursor_position: if old(self).input_cursor_position
                    < old(self).input_buffer@.len() {
                    (old(self).input_cursor_position + 1) as usize
                } else {
                    old(self).input_cursor_position
                },
                ..*old(self)
            }),
    {
        if self.input_cursor_position < self.input_buffer.as_str().unicode_len() {
            self.input_cursor_position = self.input_cursor_position + 1;
        }
    }

    /// Reacts to one key press: navigation and confirmation while selecting,
    /// text editing, confirmation and cancellation while entering the path.
    /// `is_dir` and `parent_exists` describe the current path text as
    /// `validate` takes them; they are read only when a path is confirmed.
    pub fn handle_key(&mut self, key: Key, is_dir: bool, parent_exists: bool) -> (r: Flow)
        requires
            old(self).wf(),
            old(self).input_buffer@.len() < usize::MAX,
        ensures
            final(self).wf(),
            transition(*old(self), *final(self), key, is_dir, parent_exists, r),
    {
        match self.current_step {
            AppStep::SelectDE => match key {
                Key::Char('q') | Key::Esc => Flow::Cancelled,
                Key::Char('j') | Key::Down => {
                    self.next_de();
                    Flow::Continue
                },
                Key::Char('k') | Key::Up => {
                    self.previous_de();
                    Flow::Continue
                },
                Key::Ctrl('p') | Key::Tab => {
                    self.cycle_pkg_manager();
                    Flow::Continue
                },
                Key::Enter => {
                    self.current_step = AppStep::InputPath;
                    self.input_error = None;
                    Flow::Continue
                },
                _ => Flow::Continue,
            },
            AppStep::InputPath => match key {
                Key::Char(c) | Key::Ctrl(c) => {
                    self.insert_char(c);
                    Flow::Continue
                },
                Key::Backspace => {
                    self.delete_before_cursor();
                    Flow::Continue
                },
                Key::Delete => {
                    self.delete_at_cursor();
                    Flow::Continue
                },
                Key::Left => {
                    self.move_cursor_left();
                    Flow::Continue
                },
                Key::Right => {
                    self.move_cursor_right();
                    Flow::Continue
                },
                Key::Enter => {
                    if self.validate_and_finalize_path(is_dir, parent_exists) {
                        Flow::Done
                    } else {
                        Flow::Continue
                    }
                },
                Key::Esc => {
                    self.current_step = AppStep::SelectDE;
                    self.input_error = None;
                    self.update_filename_on_de_change();
                    Flow::Continue
                },
                _ => Flow::Continue,
            },
        }
    }

    /// The script to save at the entered path: the generated script with the
    /// placeholder file name replaced by the path's file name.
    pub fn final_script(&self) -> (r: String)
        requires
            self.wf(),
        ensures
            r@ == replaced(
                script_text(self.current_de_profile@, self.target_spec(), self.pkg_manager_spec()),
                SCRIPT_NAME_PLACEHOLDER@,
                script_file_name(self.input_buffer@),
            ),
    {
        let script = self.generate_script();
        let name = match file_name_of(self.input_buffer.as_str()) {
            Some(f) => f,
            None => String::from_str(FALLBACK_SCRIPT_NAME),
        };
        replace_all(script.as_str(), SCRIPT_NAME_PLACEHOLDER, name.as_str())
    }

    /// Validates the entered path (see `validate` for `is_dir` and
    /// `parent_exists`). On success the session is finished; otherwise the
    /// error's message is kept for display.
    pub fn validate_and_finalize_path(&mut self, is_dir: bool, parent_exists: bool) -> (r: bool)
        requires
            old(self).wf(),
        ensures
            final(self).wf(),
            r == validation(old(self).input_buffer@, is_dir, parent_exists) is Ok,
            final(self).current_de_raw == old(self).current_de_raw,
            final(self).current_de_profile == old(self).current_de_profile,
            final(self).available_des == old(self).available_des,
            final(self).selected_de_index == old(self).selected_de_index,
            final(self).selected_pkg_manager_index == old(self).selected_pkg_manager_index,
            final(self).current_step == old(self).current_step,
            final(self).input_buffer == old(self).input_buffer,
            final(self).input_cursor_position == old(self).input_cursor_position,
            match validation(old(self).input_buffer@, is_dir, parent_exists) {
                Ok(()) => final(self).should_quit && final(self).input_error is None,
                Err(e) => final(self).should_quit == old(self).should_quit
                    && final(self).input_error is Some
                    && final(self).input_error->0@ == error_message(e),
            },
    {
        match validate(self.input_buffer.as_str(), is_dir, parent_exists) {
            Ok(_) => {
                self.input_error = None;
                self.should_quit = true;
                true
            },
            Err(e) => {
                self.input_error = Some(e.message());
                false
            },
        }
    }
}

} // verus!
