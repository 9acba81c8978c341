//! Toast notifications: the commands that drive them and the entries shown.
use std::time::Duration;
use vstd::prelude::*;

verus! {

/// How urgent a toast is; it picks the toast's colour.
#[derive(Clone, Copy, Debug, PartialEq, Eq, Structural)]
pub enum ToastLevel {
    Info,
    Warning,
    Error,
}

impl Default for ToastLevel {
    fn default() -> (level: Self)
        ensures
            level == ToastLevel::Info,
    {
        ToastLevel::Info
    }
}

/// The style class of a toast level.
pub open spec fn level_class(level: ToastLevel) -> Seq<char> {
    match level {
        ToastLevel::Info => "info"@,
        ToastLevel::Warning => "warn"@,
        ToastLevel::Error => "error"@,
    }
}

impl ToastLevel {
    /// The style class that a toast of this level carries.
    pub fn as_class(&self) -> (class: String)
        ensures
            class@ == level_class(*self),
    {
        match self {
            ToastLevel::Info => String::from_str("info"),
            ToastLevel::Warning => String::from_str("warn"),
            ToastLevel::Error => String::from_str("error"),
        }
    }
}

/// A request to the toast display.
#[derive(Debug, PartialEq)]
pub enum ToastCommand {
    /// Show a new toast; with a duration it dismisses itself after that time.
    Push { title: String, message: Option<String>, level: ToastLevel, duration: Option<Duration> },
    /// Start the slide-out of the toast with this id.
    Dismiss(usize),
    /// Take the toast with this id off the display.
    Remove(usize),
}

/// A push command with these parts and no self-dismissal time.
pub open spec fn push_command(title: String, message: Option<String>, level: ToastLevel) -> ToastCommand {
    ToastCommand::Push { title, message, level, duration: None }
}

/// The command with a self-dismissal time, if it is a push; any other command as it is.
pub open spec fn with_duration_of(cmd: ToastCommand, duration: Duration) -> ToastCommand {
    match cmd {
        ToastCommand::Push { title, message, level, duration: _ } => ToastCommand::Push {
            title,
            message,
            level,
            duration: Some(duration),
        },
        other => other,
    }
}

/// The command with a message, if it is a push; any other command as it is.
pub open spec fn with_message_of(cmd: ToastCommand, message: String) -> ToastCommand {
    match cmd {
        ToastCommand::Push { title, message: _, level, duration } => ToastCommand::Push {
            title,
            message: Some(message),
            level,
            duration,
        },
        other => other,
    }
}

impl ToastCommand {
    /// An information toast with a title only.
    pub fn push_info(title: String) -> (cmd: ToastCommand)
        ensures
            cmd == push_command(title, None, ToastLevel::Info),
    {
        ToastCommand::Push { title, message: None, level: ToastLevel::Info, duration: None }
    }

    /// An information toast with a title and a message.
    pub fn push_info_with_message(title: String, message: String) -> (cmd: ToastCommand)
        ensures
            cmd == push_command(title, Some(message), ToastLevel::Info),
    {
        ToastCommand::Push { title, message: Some(message), level: ToastLevel::Info, duration: None }
    }

    /// A warning toast with a title only.
    pub fn push_warning(title: String) -> (cmd: ToastCommand)
        ensures
            cmd == push_command(title, None, ToastLevel::Warning),
    {
        ToastCommand::Push { title, message: None, level: ToastLevel::Warning, duration: None }
    }

    /// A warning toast with a title and a message.
    pub fn push_warning_with_message(title: String, message: String) -> (cmd: ToastCommand)
        ensures
            cmd == push_command(title, Some(message), ToastLevel::Warning),
    {
        ToastCommand::Push { title, message: Some(message), level: ToastLevel::Warning, duration: None }
    }

    /// An error toast with a title only.
    pub fn push_error(title: String) -> (cmd: ToastCommand)
        ensures
            cmd == push_command(title, None, ToastLevel::Error),
    {
        ToastCommand::Push { title, message: None, level: ToastLevel::Error, duration: None }
    }

    /// An error toast with a title and a message.
    pub fn push_error_with_message(title: String, message: String) -> (cmd: ToastCommand)
        ensures
            cmd == push_command(title, Some(message), ToastLevel::Error),
    {
        ToastCommand::Push { title, message: Some(message), level: ToastLevel::Error, duration: None }
    }

    /// The same command with a self-dismissal time; other commands are unchanged.
    pub fn with_duration(self, duration: Duration) -> (cmd: Self)
        ensures
            cmd == with_duration_of(self, duration),
    {
        match self {
            ToastCommand::Push { title, message, level, duration: _ } => ToastCommand::Push {
                title,
                message,
                level,
                duration: Some(duration),
            },
            other => other,
        }
    }

    /// The same command with a message; other commands are unchanged.
    pub fn with_message(self, message: String) -> (cmd: Self)
        ensures
            cmd == with_message_of(self, message),
    {
        match self {
            ToastCommand::Push { title, message: _, level, duration } => ToastCommand::Push {
                title,
                message: Some(message),
                level,
                duration,
            },
            other => other,
        }
    }
}

/// Adding a message to a title-only toast gives the toast built with that message, at every
/// level; dismiss and remove commands take no message and stay as they are.
pub proof fn lemma_with_message_matches_builder(
    title: String,
    message: String,
    level: ToastLevel,
    id: usize,
)
    ensures
        with_message_of(push_command(title, None, level), message) == push_command(
            title,
            Some(message),
            level,
        ),
        with_message_of(ToastCommand::Dismiss(id), message) == ToastCommand::Dismiss(id),
        with_message_of(ToastCommand::Remove(id), message) == ToastCommand::Remove(id),
{
}

/// A self-dismissal time changes only the duration of a push, and leaves other commands alone.
pub proof fn lemma_with_duration_sets_only_duration(cmd: ToastCommand, duration: Duration)
    ensures
        with_duration_of(cmd, duration) is Push <==> cmd is Push,
        cmd is Push ==> with_duration_of(cmd, duration)->title == cmd->title
            && with_duration_of(cmd, duration)->message == cmd->message
            && with_duration_of(cmd, duration)->level == cmd->level
            && with_duration_of(cmd, duration)->duration == Some(duration),
        !(cmd is Push) ==> with_duration_of(cmd, duration) == cmd,
{
}

/// A toast on display.
#[derive(Debug, PartialEq)]
pub struct ToastEntry {
    pub id: usize,
    pub title: String,
    pub message: Option<String>,
    pub level: ToastLevel,
    pub is_dismissing: bool,
    pub duration: Option<Duration>,
}

impl Default for ToastEntry {
    fn default() -> (entry: Self)
        ensures
            entry.id == 0,
            entry.title@ == Seq::<char>::empty(),
            entry.message is None,
            entry.level == ToastLevel::Info,
            !entry.is_dismissing,
            entry.duration is None,
    {
        ToastEntry {
            id: 0,
            title: String::new(),
            message: None,
            level: ToastLevel::Info,
            is_dismissing: false,
            duration: None,
        }
    }
}

fn clone_message(m: &Option<String>) -> (c: Option<String>)
    ensures
        c == *m,
{
    match m {
        Some(s) => Some(s.clone()),
        None => None,
    }
}

impl Clone for ToastCommand {
    fn clone(&self) -> (c: Self)
        ensures
            c == *self,
    {
        match self {
            ToastCommand::Push { title, message, level, duration } => ToastCommand::Push {
                title: title.clone(),
                message: clone_message(message),
                level: *level,
                duration: *duration,
            },
            ToastCommand::Dismiss(id) => ToastCommand::Dismiss(*id),
            ToastCommand::Remove(id) => ToastCommand::Remove(*id),
        }
    }
}

impl Clone for ToastEntry {
    fn clone(&self) -> (c: Self)
        ensures
            c == *self,
    {
        ToastEntry {
            id: self.id,
            title: self.title.clone(),
            message: clone_message(&self.message),
            level: self.level,
            is_dismissing: self.is_dismissing,
            duration: self.duration,
        }
    }
}

} // verus!
