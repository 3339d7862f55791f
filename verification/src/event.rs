//! Focus notifications and their classification.

use vstd::prelude::*;
use vstd::string::StringExecFns;

verus! {

/// Window class of the target application: while it holds the focus, the
/// monitored process runs unthrottled.
pub const TARGET_CLASS: &'static str = "roon.exe";

/// What happened to the window a notification is about.
#[derive(Clone, Copy, Debug, PartialEq, Eq, Structural)]
pub enum ChangeKind {
    /// The window gained the input focus.
    Focus,
    /// Any other change the window manager reports for a window.
    Other,
}

/// A window notification, reduced to what the governor reads.
#[derive(Clone, Debug)]
pub struct FocusEvent {
    pub change_kind: ChangeKind,
    /// Class of the window's application, where the window manager knows it.
    pub window_class: Option<String>,
}

/// How the governor reads a notification.
#[derive(Clone, Copy, Debug, PartialEq, Eq, Structural)]
pub enum Focus {
    /// Not a focus gain, or no class to tell the application by.
    Ignored,
    /// The target application gained the focus.
    Target,
    /// Some other application gained the focus.
    Elsewhere,
}

/// Reading of a notification with the given change and window class.
///
/// Only a focus gain that names a class counts, and the class is compared
/// with [`TARGET_CLASS`] character by character.
pub open spec fn classification(change_kind: ChangeKind, window_class: Option<Seq<char>>) -> Focus {
    match (change_kind, window_class) {
        (ChangeKind::Focus, Some(class)) => if class == TARGET_CLASS@ {
            Focus::Target
        } else {
            Focus::Elsewhere
        },
        _ => Focus::Ignored,
    }
}

impl FocusEvent {
    /// The window class as a sequence of characters.
    pub open spec fn class(&self) -> Option<Seq<char>> {
        match self.window_class {
            Some(class) => Some(class@),
            None => None,
        }
    }

    /// The reading of this notification.
    pub open spec fn focus(&self) -> Focus {
        classification(self.change_kind, self.class())
    }
}

/// Classifies a notification.
pub fn classify(event: &FocusEvent) -> (focus: Focus)
    ensures
        focus == event.focus(),
        event.change_kind == ChangeKind::Other ==> focus == Focus::Ignored,
        event.window_class is None ==> focus == Focus::Ignored,
{
    match event.change_kind {
        ChangeKind::Other => Focus::Ignored,
        ChangeKind::Focus => match &event.window_class {
            None => Focus::Ignored,
            Some(class) => {
                let target = String::from_str(TARGET_CLASS);
                if *class == target {
                    Focus::Target
                } else {
                    Focus::Elsewhere
                }
            },
        },
    }
}

} // verus!
