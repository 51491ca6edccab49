//! The hand-over of a file the operating system launched the player with: it
//! is stashed until the frontend takes it, exactly once.
use vstd::prelude::*;
use crate::remote::opt_string_view;

verus! {

/// The pending launch file, its optional display name, and how many times a
/// launch has been announced to subscribers.
pub struct LaunchBroker {
    path: Option<String>,
    display_name: Option<String>,
    announcements: u64,
}

/// The broker's state as plain values.
pub struct LaunchBrokerView {
    pub path: Option<Seq<char>>,
    pub display_name: Option<Seq<char>>,
    pub announcements: nat,
}

impl View for LaunchBroker {
    type V = LaunchBrokerView;

    closed spec fn view(&self) -> LaunchBrokerView {
        LaunchBrokerView {
            path: opt_string_view(self.path),
            display_name: opt_string_view(self.display_name),
            announcements: self.announcements as nat,
        }
    }
}

impl LaunchBroker {
    /// A broker with nothing pending.
    pub fn new() -> (r: LaunchBroker)
        ensures
            r@.path is None,
            r@.display_name is None,
            r@.announcements == 0,
    {
        LaunchBroker { path: None, display_name: None, announcements: 0 }
    }

    /// Stashes a launch path (replacing any pending one) with its display name,
    /// and announces it to subscribers.
    pub fn set_path(&mut self, path: String, display_name: Option<String>)
        ensures
            final(self)@ == launch_set(old(self)@, path@, opt_string_view(display_name)),
    {
        self.path = Some(path);
        self.display_name = display_name;
        self.announcements = self.announcements.saturating_add(1);
    }

    /// Takes the pending path, leaving none behind.
    pub fn take_path(&mut self) -> (r: Option<String>)
        ensures
            opt_string_view(r) == old(self)@.path,
            final(self)@.path is None,
            final(self)@.display_name == old(self)@.display_name,
            final(self)@.announcements == old(self)@.announcements,
    {
        self.path.take()
    }

    /// Takes the pending display name, leaving none behind.
    pub fn take_display_name(&mut self) -> (r: Option<String>)
        ensures
            opt_string_view(r) == old(self)@.display_name,
            final(self)@.display_name is None,
            final(self)@.path == old(self)@.path,
            final(self)@.announcements == old(self)@.announcements,
    {
        self.display_name.take()
    }

    /// How many launches have been announced so far.
    pub fn announcements(&self) -> (r: u64)
        ensures
            r as nat == self@.announcements,
    {
        self.announcements
    }
}

/// Stashes a launch path without a display name (a desktop path already ends
/// in its file name).
pub fn set_pending_launch_file(broker: &mut LaunchBroker, path: String)
    ensures
        final(broker)@ == launch_set(old(broker)@, path@, None),
{
    broker.set_path(path, None);
}

/// Stashes a launch path with a friendly display name (Android hands over
/// `content://` URIs whose last segment is a number).
pub fn set_pending_launch_file_with_name(broker: &mut LaunchBroker, path: String, display_name: Option<String>)
    ensures
        final(broker)@ == launch_set(old(broker)@, path@, opt_string_view(display_name)),
{
    broker.set_path(path, display_name);
}

/// The broker once a launch is stashed.
pub open spec fn launch_set(v: LaunchBrokerView, path: Seq<char>, name: Option<Seq<char>>) -> LaunchBrokerView {
    LaunchBrokerView {
        path: Some(path),
        display_name: name,
        announcements: if v.announcements >= u64::MAX as nat {
            v.announcements
        } else {
            v.announcements + 1
        },
    }
}

/// The broker once the pending launch is taken.
pub open spec fn launch_taken(v: LaunchBrokerView) -> LaunchBrokerView {
    LaunchBrokerView { path: None, display_name: None, announcements: v.announcements }
}

/// Answers the frontend's request for the pending launch: the path and display
/// name, both cleared by the taking.
pub fn take_pending_launch(broker: &mut LaunchBroker) -> (r: (Option<String>, Option<String>))
    ensures
        opt_string_view(r.0) == old(broker)@.path,
        opt_string_view(r.1) == old(broker)@.display_name,
        final(broker)@ == launch_taken(old(broker)@),
{
    let path = broker.take_path();
    let name = broker.take_display_name();
    (path, name)
}

/// A stashed launch is handed over exactly once: the taking that follows the
/// stash gets the path and name just stashed, and a second taking gets nothing.
pub proof fn law_launch_handed_over_once(v: LaunchBrokerView, path: Seq<char>, name: Option<Seq<char>>)
    ensures
        launch_set(v, path, name).path == Some(path),
        launch_set(v, path, name).display_name == name,
        launch_taken(launch_set(v, path, name)).path is None,
        launch_taken(launch_set(v, path, name)).display_name is None,
        launch_taken(launch_taken(launch_set(v, path, name))) == launch_taken(launch_set(v, path, name)),
{
}

/// The first event of the launch event stream, sent on connection.
pub const LAUNCH_STREAM_GREETING: &'static str = ": connected\n\n";

/// The event sent each time a launch file is stashed.
pub const LAUNCH_EVENT: &'static str = "data: {}\n\n";

} // verus!
