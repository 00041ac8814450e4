//! The messages carried by the event bus, and their names.

use vstd::prelude::*;
use crate::text::same_text;

verus! {

/// A key that the terminal's key bindings name.
#[derive(Debug, Clone, Copy, PartialEq, Eq, Structural)]
pub enum Key {
    Up,
    Down,
    Left,
    Right,
    Home,
    End,
    Enter,
    PageUp,
    PageDown,
    Space,
    F2,
}

/// A message broadcast on the event bus to every component.
#[derive(Debug, Clone, Copy, PartialEq, Eq, Structural)]
pub enum Message {
    /// Move the wizard to the next step.
    BuilderNext,
    /// Move the wizard to the previous step.
    BuilderPrev,
    /// Move the wizard back to its first step, keeping what was entered.
    BuilderRestart,
    /// The draft is confirmed: make the commit.
    BuilderDone,
    /// The commit was made and read back.
    CommittingCommitted,
    /// Making the commit, or reading it back, failed.
    CommittingFailed,
    /// The committing phase is over.
    CommittingDone,
    /// A key was pressed.
    Key(Key),
}

/// The name by which a message travels.
pub open spec fn message_name(m: Message) -> Seq<char> {
    match m {
        Message::BuilderNext => "builder:next"@,
        Message::BuilderPrev => "builder:prev"@,
        Message::BuilderRestart => "builder:restart"@,
        Message::BuilderDone => "builder:done"@,
        Message::CommittingCommitted => "committing:committed"@,
        Message::CommittingFailed => "committing:failed"@,
        Message::CommittingDone => "committing:done"@,
        Message::Key(Key::Up) => "kb:up"@,
        Message::Key(Key::Down) => "kb:down"@,
        Message::Key(Key::Left) => "kb:left"@,
        Message::Key(Key::Right) => "kb:right"@,
        Message::Key(Key::Home) => "kb:home"@,
        Message::Key(Key::End) => "kb:end"@,
        Message::Key(Key::Enter) => "kb:enter"@,
        Message::Key(Key::PageUp) => "kb:pageup"@,
        Message::Key(Key::PageDown) => "kb:pagedown"@,
        Message::Key(Key::Space) => "kb:space"@,
        Message::Key(Key::F2) => "kb:f2"@,
    }
}

/// The message of a name, if the name is one.
pub open spec fn message_named(s: Seq<char>) -> Option<Message> {
    if s == "builder:next"@ {
        Some(Message::BuilderNext)
    }     else if s == "builder:prev"@ {
        Some(Message::BuilderPrev)
    }     else if s == "builder:restart"@ {
        Some(Message::BuilderRestart)
    }     else if s == "builder:done"@ {
        Some(Message::BuilderDone)
    }     else if s == "committing:committed"@ {
        Some(Message::CommittingCommitted)
    }     else if s == "committing:failed"@ {
        Some(Message::CommittingFailed)
    }     else if s == "committing:done"@ {
        Some(Message::CommittingDone)
    }     else if s == "kb:up"@ {
        Some(Message::Key(Key::Up))
    }     else if s == "kb:down"@ {
        Some(Message::Key(Key::Down))
    }     else if s == "kb:left"@ {
        Some(Message::Key(Key::Left))
    }     else if s == "kb:right"@ {
        Some(Message::Key(Key::Right))
    }     else if s == "kb:home"@ {
        Some(Message::Key(Key::Home))
    }     else if s == "kb:end"@ {
        Some(Message::Key(Key::End))
    }     else if s == "kb:enter"@ {
        Some(Message::Key(Key::Enter))
    }     else if s == "kb:pageup"@ {
        Some(Message::Key(Key::PageUp))
    }     else if s == "kb:pagedown"@ {
        Some(Message::Key(Key::PageDown))
    }     else if s == "kb:space"@ {
        Some(Message::Key(Key::Space))
    }     else if s == "kb:f2"@ {
        Some(Message::Key(Key::F2))
    } else {
        None
    }
}

impl Message {
    /// The name by which the message travels, such as `builder:next` or
    /// `kb:enter`.
    pub fn name(&self) -> (r: String)
        ensures
            r@ == message_name(*self),
    {
        match self {
            Message::BuilderNext => String::from_str("builder:next"),
            Message::BuilderPrev => String::from_str("builder:prev"),
            Message::BuilderRestart => String::from_str("builder:restart"),
            Message::BuilderDone => String::from_str("builder:done"),
            Message::CommittingCommitted => String::from_str("committing:committed"),
            Message::CommittingFailed => String::from_str("committing:failed"),
            Message::CommittingDone => String::from_str("committing:done"),
            Message::Key(Key::Up) => String::from_str("kb:up"),
            Message::Key(Key::Down) => String::from_str("kb:down"),
            Message::Key(Key::Left) => String::from_str("kb:left"),
            Message::Key(Key::Right) => String::from_str("kb:right"),
            Message::Key(Key::Home) => String::from_str("kb:home"),
            Message::Key(Key::End) => String::from_str("kb:end"),
            Message::Key(Key::Enter) => String::from_str("kb:enter"),
            Message::Key(Key::PageUp) => String::from_str("kb:pageup"),
            Message::Key(Key::PageDown) => String::from_str("kb:pagedown"),
            Message::Key(Key::Space) => String::from_str("kb:space"),
            Message::Key(Key::F2) => String::from_str("kb:f2"),
        }
    }

    /// The message of a name, or `None` for a name that is no message.
    pub fn from_name(s: &str) -> (r: Option<Message>)
        ensures
            r == message_named(s@),
    {
        if same_text(s, "builder:next") {
            return Some(Message::BuilderNext);
        }
        if same_text(s, "builder:prev") {
            return Some(Message::BuilderPrev);
        }
        if same_text(s, "builder:restart") {
            return Some(Message::BuilderRestart);
        }
        if same_text(s, "builder:done") {
            return Some(Message::BuilderDone);
        }
        if same_text(s, "committing:committed") {
            return Some(Message::CommittingCommitted);
        }
        if same_text(s, "committing:failed") {
            return Some(Message::CommittingFailed);
        }
        if same_text(s, "committing:done") {
            return Some(Message::CommittingDone);
        }
        if same_text(s, "kb:up") {
            return Some(Message::Key(Key::Up));
        }
        if same_text(s, "kb:down") {
            return Some(Message::Key(Key::Down));
        }
        if same_text(s, "kb:left") {
            return Some(Message::Key(Key::Left));
        }
        if same_text(s, "kb:right") {
            return Some(Message::Key(Key::Right));
        }
        if same_text(s, "kb:home") {
            return Some(Message::Key(Key::Home));
        }
        if same_text(s, "kb:end") {
            return Some(Message::Key(Key::End));
        }
        if same_text(s, "kb:enter") {
            return Some(Message::Key(Key::Enter));
        }
        if same_text(s, "kb:pageup") {
            return Some(Message::Key(Key::PageUp));
        }
        if same_text(s, "kb:pagedown") {
            return Some(Message::Key(Key::PageDown));
        }
        if same_text(s, "kb:space") {
            return Some(Message::Key(Key::Space));
        }
        if same_text(s, "kb:f2") {
            return Some(Message::Key(Key::F2));
        }
        None
    }
}

} // verus!
