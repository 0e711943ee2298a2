//! Application state: the screen selector, the project collection, the
//! running flag, and the input handling that decides when the event loop
//! stops.
//!
//! Terminal input is modelled as plain values (`KeyInput`, `InputEvent`)
//! so that the dispatch logic can be stated and checked for every event;
//! the surrounding program reads real events and converts them.

use crate::todo::{Project, ValidationError};
use vstd::prelude::*;

verus! {

/// The key that was pressed: escape, a character, or anything else.
#[derive(Debug, PartialEq, Eq, Structural, Clone, Copy)]
pub enum KeyCode {
    Esc,
    Char(char),
    Other,
}

/// A key press: the key itself and the modifiers held with it.
#[derive(Debug, PartialEq, Eq, Structural, Clone, Copy)]
pub struct KeyInput {
    pub code: KeyCode,
    pub ctrl: bool,
    pub shift: bool,
    pub alt: bool,
}

/// An input event, already reduced to what the dispatch logic reads:
/// a key press, or an event that is deliberately ignored.
#[derive(Debug, PartialEq, Eq, Structural, Clone, Copy)]
pub enum InputEvent {
    Key(KeyInput),
    Mouse,
    Resize,
    Other,
}

/// Whether a key press asks the application to quit: `Esc` or `q` under
/// any modifiers, or `Ctrl+C` / `Ctrl+Shift+C`.
pub open spec fn is_quit_key(key: KeyInput) -> bool {
    ||| key.code == KeyCode::Esc
    ||| key.code == KeyCode::Char('q')
    ||| (key.ctrl && !key.alt && (key.code == KeyCode::Char('c') || key.code == KeyCode::Char(
        'C',
    )))
}

/// Whether an event asks the application to quit; only a quit key press
/// does.
pub open spec fn event_quits(ev: InputEvent) -> bool {
    match ev {
        InputEvent::Key(key) => is_quit_key(key),
        _ => false,
    }
}

/// The active screen of the terminal interface.
#[derive(Debug, PartialEq, Eq, Structural, Clone, Copy)]
pub enum AppState {
    ProjectSelectionPage,
    ProjectCreationPage,
    SelectedProjectTodoList,
    TaskCreationPage,
}

impl Default for AppState {
    /// The application starts on the project selection screen.
    fn default() -> (s: Self)
        ensures
            s == AppState::ProjectSelectionPage,
    {
        AppState::ProjectSelectionPage
    }
}

/// The whole application state: the running flag, the active screen and
/// the owned projects.
#[derive(Debug)]
pub struct App {
    pub is_running: bool,
    pub state: AppState,
    pub projects: Vec<Project>,
}

impl App {
    /// A fresh application: not yet running, on the project selection
    /// screen, with no projects.
    pub fn new() -> (app: Self)
        ensures
            !app.is_running,
            app.state == AppState::ProjectSelectionPage,
            app.projects@.len() == 0,
    {
        Self { is_running: false, state: AppState::default(), projects: Vec::new() }
    }

    /// Marks the application as running, as the event loop does before
    /// its first iteration; nothing else changes.
    pub fn start(&mut self)
        ensures
            final(self).is_running,
            final(self).state == old(self).state,
            final(self).projects@ == old(self).projects@,
    {
        self.is_running = true;
    }

    /// Stops the application: the event loop exits on its next check.
    pub fn quit(&mut self)
        ensures
            !final(self).is_running,
            final(self).state == old(self).state,
            final(self).projects@ == old(self).projects@,
    {
        self.is_running = false;
    }

    /// Dispatches one key press: a quit key stops the application from
    /// any screen; every other key is a no-op.
    pub fn on_key_event(&mut self, key: KeyInput)
        ensures
            final(self).is_running == (old(self).is_running && !is_quit_key(key)),
            final(self).state == old(self).state,
            final(self).projects@ == old(self).projects@,
    {
        let quit_requested: bool = match key.code {
            KeyCode::Esc => true,
            KeyCode::Char(c) => c == 'q' || (key.ctrl && !key.alt && (c == 'c' || c == 'C')),
            KeyCode::Other => false,
        };
        if quit_requested {
            self.quit();
        }
    }

    /// Dispatches one input event: a key press goes to `on_key_event`;
    /// mouse, resize and unknown events are ignored.
    pub fn handle_event(&mut self, ev: InputEvent)
        ensures
            final(self).is_running == (old(self).is_running && !event_quits(ev)),
            final(self).state == old(self).state,
            final(self).projects@ == old(self).projects@,
    {
        match ev {
            InputEvent::Key(key) => self.on_key_event(key),
            InputEvent::Mouse => (),
            InputEvent::Resize => (),
            InputEvent::Other => (),
        }
    }

    /// Switches to another screen; the projects and the running flag are
    /// untouched.
    pub fn set_state(&mut self, state: AppState)
        ensures
            final(self).state == state,
            final(self).is_running == old(self).is_running,
            final(self).projects@ == old(self).projects@,
    {
        self.state = state;
    }

    /// Appends a project with the given fields and an empty to-do list.
    /// An empty name or an empty description is rejected and the
    /// collection is left unchanged; the file location is unconstrained.
    pub fn add_project(&mut self, name: String, description: String, file_location: String) -> (r:
        Result<(), ValidationError>)
        ensures
            final(self).is_running == old(self).is_running,
            final(self).state == old(self).state,
            name@.len() == 0 ==> r == Err::<(), ValidationError>(ValidationError::EmptyName)
                && final(self).projects@ == old(self).projects@,
            name@.len() > 0 && description@.len() == 0 ==> r == Err::<(), ValidationError>(
                ValidationError::EmptyDescription,
            ) && final(self).projects@ == old(self).projects@,
            name@.len() > 0 && description@.len() > 0 ==> r == Ok::<(), ValidationError>(())
                && final(self).projects@.len() == old(self).projects@.len() + 1
                && final(self).projects@.drop_last() == old(self).projects@ && ({
                let p = final(self).projects@.last();
                &&& p.name == name
                &&& p.description == description
                &&& p.file_location == file_location
                &&& p.todo_list.tasks@.len() == 0
            }),
    {
        if name.as_str().is_empty() {
            Err(ValidationError::EmptyName)
        } else if description.as_str().is_empty() {
            Err(ValidationError::EmptyDescription)
        } else {
            self.projects.push(Project::new(name, description, file_location));
            proof {
                assert(self.projects@.drop_last() =~= old(self).projects@);
            }
            Ok(())
        }
    }
}

impl Default for App {
    /// The default application equals a fresh one.
    fn default() -> (app: Self)
        ensures
            !app.is_running,
            app.state == AppState::ProjectSelectionPage,
            app.projects@.len() == 0,
    {
        Self::new()
    }
}

} // verus!
