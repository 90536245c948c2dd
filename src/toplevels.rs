use vstd::prelude::*;

verus! {

/// Receives the committed state of one window.
pub trait ToplevelListener {
    /// Called once per commit with the full current title and application id.
    fn updated(&mut self, title: &str, app_id: &str);

    /// Called once, after the last update, when the window goes away.
    fn closed(&mut self);
}

/// Sends commands back to the compositor for one window.
pub trait ToplevelController {
    fn focus(&mut self);

    fn maximize(&mut self);

    fn close(&mut self);
}

/// Told of each new window; hands back the listener for that window.
pub trait ToplevelListListener {
    /// The listener handed back for each window.
    type Listener: ToplevelListener;

    fn created(&mut self, controller: Box<dyn ToplevelController>) -> Self::Listener;
}

} // verus!
