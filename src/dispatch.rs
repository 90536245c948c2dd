//! The protocol dispatcher and the command router: what each event on a
//! window does to the registry and owes the observer, and which request each
//! command sends.
use crate::registry::{set_app_id, set_title, Registry, RegistryModel, ToplevelKey};
use vstd::prelude::*;

verus! {

/// An event that the compositor sends about one window.
pub enum ToplevelEvent {
    Title(String),
    AppId(String),
    Done,
    Closed,
}

/// What the observer is owed after an event.
pub enum Notice {
    Nothing,
    Updated { title: String, app_id: String },
    Closed,
}

/// A notice as the contracts see it.
pub enum NoticeView {
    Nothing,
    Updated(Seq<char>, Seq<char>),
    Closed,
}

impl View for Notice {
    type V = NoticeView;

    open spec fn view(&self) -> NoticeView {
        match self {
            Notice::Nothing => NoticeView::Nothing,
            Notice::Updated { title, app_id } => NoticeView::Updated(title@, app_id@),
            Notice::Closed => NoticeView::Closed,
        }
    }
}

/// A command that the observer issues for one window.
#[derive(Clone, Copy, PartialEq, Eq, Structural, Debug)]
pub enum Command {
    Focus,
    Maximize,
    Close,
}

/// A request sent to the compositor's object for one window.
#[derive(Clone, Copy, PartialEq, Eq, Structural, Debug)]
pub enum Request {
    Activate,
    SetMaximized,
    Close,
}

pub open spec fn request_for(c: Command) -> Request {
    match c {
        Command::Focus => Request::Activate,
        Command::Maximize => Request::SetMaximized,
        Command::Close => Request::Close,
    }
}

/// The request a command sends: one for a live window, none for a dead key.
pub open spec fn routed(m: RegistryModel, key: ToplevelKey, c: Command) -> Option<Request> {
    if m.windows.contains_key(key) {
        Some(request_for(c))
    } else {
        None
    }
}

/// Whether the window is live with its listener in place.
pub open spec fn listening(m: RegistryModel, key: ToplevelKey) -> bool {
    m.windows.contains_key(key) && m.windows[key].attached
}

/// One event on one window: the registry after it, and the notice owed.
/// Attributes are staged, a commit hands the staged pair to a listener that
/// is in place, a close removes the record; events on a dead key do nothing.
pub open spec fn step(m: RegistryModel, key: ToplevelKey, e: ToplevelEvent) -> (RegistryModel, NoticeView) {
    match e {
        ToplevelEvent::Title(t) => (set_title(m, key, t@), NoticeView::Nothing),
        ToplevelEvent::AppId(a) => (set_app_id(m, key, a@), NoticeView::Nothing),
        ToplevelEvent::Done => (
            m,
            if listening(m, key) {
                NoticeView::Updated(m.windows[key].title, m.windows[key].app_id)
            } else {
                NoticeView::Nothing
            },
        ),
        ToplevelEvent::Closed => (
            RegistryModel { windows: m.windows.remove(key), ..m },
            if listening(m, key) {
                NoticeView::Closed
            } else {
                NoticeView::Nothing
            },
        ),
    }
}

impl Registry {
    /// Handles one event that the compositor sent about the window of `key`.
    pub fn dispatch(&mut self, key: ToplevelKey, event: ToplevelEvent) -> (r: Notice)
        requires
            old(self).wf(),
        ensures
            final(self).wf(),
            (final(self)@, r@) == step(old(self)@, key, event),
    {
        match event {
            ToplevelEvent::Title(t) => {
                self.stage_title(key, t);
                Notice::Nothing
            },
            ToplevelEvent::AppId(a) => {
                self.stage_app_id(key, a);
                Notice::Nothing
            },
            ToplevelEvent::Done => match self.commit(key) {
                Some((title, app_id)) => Notice::Updated { title, app_id },
                None => Notice::Nothing,
            },
            ToplevelEvent::Closed => {
                if self.remove(key) {
                    Notice::Closed
                } else {
                    Notice::Nothing
                }
            },
        }
    }

    /// The request that a command for the window of `key` sends, if the
    /// window is still live; a command on a closed window sends nothing.
    pub fn route(&self, key: ToplevelKey, command: Command) -> (r: Option<Request>)
        requires
            self.wf(),
        ensures
            r == routed(self@, key, command),
    {
        if self.is_live(key) {
            Some(
                match command {
                    Command::Focus => Request::Activate,
                    Command::Maximize => Request::SetMaximized,
                    Command::Close => Request::Close,
                },
            )
        } else {
            None
        }
    }
}

} // verus!
