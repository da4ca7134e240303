//! The status line: a transient message stays for its window, then the line falls
//! back to the framework's hover text, else to the current path with the selection
//! count.
use vstd::prelude::*;
use crate::text::{decimal, decimal_text};

verus! {

/// How long a transient message stays, in milliseconds.
pub const MESSAGE_WINDOW_MS: u64 = 3000;

/// The default text: the path, with the number of selected items when there are any.
pub open spec fn navigation_status(path: Seq<char>, selected: nat) -> Seq<char> {
    if selected > 0 {
        path + " - "@ + decimal_text(selected) + " item(s) selected"@
    } else {
        path
    }
}

/// A message shown at `since` is still active at `now`.
pub open spec fn message_active(since: Option<u64>, now: u64) -> bool {
    since matches Some(t) && now as int - t as int <= MESSAGE_WINDOW_MS as int
}

/// The status text for a path and a selection count.
pub fn navigation_status_text(path: &String, selected: usize) -> (r: String)
    ensures
        r@ == navigation_status(path@, selected as nat),
{
    if selected > 0 {
        let mut s = path.clone();
        s.append(" - ");
        let count = decimal(selected as u64);
        s.append(count.as_str());
        s.append(" item(s) selected");
        s
    } else {
        path.clone()
    }
}

/// A snapshot of what the status bar reports.
#[derive(Clone, Debug, PartialEq, Eq)]
pub struct StatusUpdate {
    /// A transient message: an operation's result or an error.
    pub message: Option<String>,
    pub path: Option<String>,
    pub file_count: Option<usize>,
    pub selection_count: Option<usize>,
}

pub struct StatusModel {
    pub text: Seq<char>,
    /// When the transient message on show was posted, in milliseconds.
    pub message_since: Option<u64>,
}

impl StatusModel {
    /// One tick at `now`: an active message stays; otherwise an expired message is
    /// forgotten and the line shows the hover text, or the navigation status.
    pub open spec fn ticked(self, now: u64, hover: Seq<char>, path: Seq<char>, selected: nat) -> StatusModel {
        if message_active(self.message_since, now) {
            self
        } else {
            StatusModel {
                text: if hover.len() > 0 {
                    hover
                } else {
                    navigation_status(path, selected)
                },
                message_since: None,
            }
        }
    }
}

pub struct StatusLine {
    text: String,
    message_since: Option<u64>,
}

impl View for StatusLine {
    type V = StatusModel;

    closed spec fn view(&self) -> StatusModel {
        StatusModel { text: self.text@, message_since: self.message_since }
    }
}

impl StatusLine {
    pub fn new() -> (r: StatusLine)
        ensures
            r@ == (StatusModel { text: "Ready"@, message_since: None }),
    {
        StatusLine { text: String::from_str("Ready"), message_since: None }
    }

    pub fn text(&self) -> (r: &String)
        ensures
            r@ == self@.text,
    {
        &self.text
    }

    /// Shows a transient message posted at `now`; a newer message replaces an older
    /// one still within its window.
    pub fn post_message(&mut self, message: String, now: u64)
        ensures
            final(self)@ == (StatusModel { text: message@, message_since: Some(now) }),
    {
        self.text = message;
        self.message_since = Some(now);
    }

    /// One tick at `now`, given the framework's hover text (empty when there is
    /// none), the current path and the number of selected items.
    pub fn tick(&mut self, now: u64, hover: &String, path: &String, selected: usize)
        ensures
            final(self)@ == old(self)@.ticked(now, hover@, path@, selected as nat),
    {
        let active = match self.message_since {
            Some(t) => now < t || now - t <= MESSAGE_WINDOW_MS,
            None => false,
        };
        if !active {
            self.message_since = None;
            if hover.as_str().unicode_len() > 0 {
                self.text = hover.clone();
            } else {
                self.text = navigation_status_text(path, selected);
            }
        }
    }
}

} // verus!
