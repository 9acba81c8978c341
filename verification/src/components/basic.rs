//! The look of the basic controls.
use vstd::prelude::*;

verus! {

/// The look of a button.
#[derive(Clone, Copy, Debug, PartialEq, Eq, Structural)]
pub enum ButtonVariant {
    Base,
    Muted,
    Accented,
    Cancel,
}

impl Default for ButtonVariant {
    fn default() -> (v: Self)
        ensures
            v == ButtonVariant::Base,
    {
        ButtonVariant::Base
    }
}

/// The style class of a button variant.
pub open spec fn variant_class_of(v: ButtonVariant) -> Seq<char> {
    match v {
        ButtonVariant::Base => ""@,
        ButtonVariant::Muted => "muted"@,
        ButtonVariant::Accented => "accented"@,
        ButtonVariant::Cancel => "cancel"@,
    }
}

/// The style class of a button, the base look when none is given.
pub fn button_class(variant: Option<ButtonVariant>) -> (class: &'static str)
    ensures
        class@ == variant_class_of(
            match variant {
                Some(v) => v,
                None => ButtonVariant::Base,
            },
        ),
{
    match variant {
        Some(ButtonVariant::Muted) => "muted",
        Some(ButtonVariant::Accented) => "accented",
        Some(ButtonVariant::Cancel) => "cancel",
        _ => "",
    }
}

/// The kind of an inline notification.
#[derive(Clone, Copy, Debug, PartialEq, Eq, Structural)]
pub enum NotifType {
    Notice,
    Error,
    Warning,
}

/// The style class of a notification kind.
pub open spec fn notif_class_of(t: NotifType) -> Seq<char> {
    match t {
        NotifType::Notice => "notice"@,
        NotifType::Error => "error"@,
        NotifType::Warning => "warning"@,
    }
}

/// The kind of a notification, a notice when none is given.
pub fn notif_type_or_default(t: Option<NotifType>) -> (kind: NotifType)
    ensures
        kind == (match t {
            Some(k) => k,
            None => NotifType::Notice,
        }),
{
    match t {
        Some(k) => k,
        None => NotifType::Notice,
    }
}

/// The style class of a notification.
pub fn notif_class(t: NotifType) -> (class: &'static str)
    ensures
        class@ == notif_class_of(t),
{
    match t {
        NotifType::Notice => "notice",
        NotifType::Error => "error",
        NotifType::Warning => "warning",
    }
}

/// The texts of a labelled input: its label, its placeholder and its type. The label is empty
/// when none is given, the placeholder repeats the label, and the type is `text`.
pub fn input_texts(label: Option<String>, placeholder: Option<String>, input_type: Option<String>) -> (texts: (
    String,
    String,
    String,
))
    ensures
        match label {
            Some(l) => texts.0 == l,
            None => texts.0@ == ""@,
        },
        match placeholder {
            Some(p) => texts.1 == p,
            None => texts.1 == texts.0,
        },
        match input_type {
            Some(t) => texts.2 == t,
            None => texts.2@ == "text"@,
        },
{
    let label = match label {
        Some(l) => l,
        None => String::from_str(""),
    };
    let placeholder = match placeholder {
        Some(p) => p,
        None => label.clone(),
    };
    let input_type = match input_type {
        Some(t) => t,
        None => String::from_str("text"),
    };
    (label, placeholder, input_type)
}

} // verus!
