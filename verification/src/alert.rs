//! Alerts: their kinds, with the icon, name and colours of each, and the
//! message they carry.
use vstd::prelude::*;
use std::time::Duration;

use crate::theme::{Interaction, ThemeSlot};

verus! {

/// The kind of an alert.
#[derive(Clone, Copy, Debug, PartialEq, Eq, Structural)]
pub enum AlertVariant {
    Success,
    Error,
    Warning,
    Info,
    Status,
}

impl AlertVariant {
    /// The name of the kind's icon in the feather set.
    pub fn feather_name(&self) -> (r: &'static str)
        ensures
            r@ == match *self {
                AlertVariant::Success => "check-circle"@,
                AlertVariant::Error => "x-circle"@,
                AlertVariant::Warning => "alert-triangle"@,
                AlertVariant::Info => "info"@,
                AlertVariant::Status => "wifi"@,
            },
    {
        match self {
            AlertVariant::Success => "check-circle",
            AlertVariant::Error => "x-circle",
            AlertVariant::Warning => "alert-triangle",
            AlertVariant::Info => "info",
            AlertVariant::Status => "wifi",
        }
    }

    /// The kind's name.
    pub fn label(&self) -> (r: &'static str)
        ensures
            r@ == match *self {
                AlertVariant::Success => "Success"@,
                AlertVariant::Error => "Error"@,
                AlertVariant::Warning => "Warning"@,
                AlertVariant::Info => "Info"@,
                AlertVariant::Status => "Status"@,
            },
    {
        match self {
            AlertVariant::Success => "Success",
            AlertVariant::Error => "Error",
            AlertVariant::Warning => "Warning",
            AlertVariant::Info => "Info",
            AlertVariant::Status => "Status",
        }
    }

    /// The theme colour that tints the alert's background.
    pub fn background_slot(&self) -> (slot: ThemeSlot)
        ensures
            slot == match *self {
                AlertVariant::Success => ThemeSlot::Success,
                AlertVariant::Error => ThemeSlot::Error,
                AlertVariant::Warning => ThemeSlot::Warning,
                AlertVariant::Info => ThemeSlot::Info,
                AlertVariant::Status => ThemeSlot::Secondary,
            },
    {
        match self {
            AlertVariant::Success => ThemeSlot::Success,
            AlertVariant::Error => ThemeSlot::Error,
            AlertVariant::Warning => ThemeSlot::Warning,
            AlertVariant::Info => ThemeSlot::Info,
            AlertVariant::Status => ThemeSlot::Secondary,
        }
    }

    /// The theme colour of the alert's icon and accents.
    pub fn accent_slot(&self) -> (slot: ThemeSlot)
        ensures
            slot == match *self {
                AlertVariant::Success => ThemeSlot::Success,
                AlertVariant::Error => ThemeSlot::Error,
                AlertVariant::Warning => ThemeSlot::Warning,
                AlertVariant::Info => ThemeSlot::Info,
                AlertVariant::Status => ThemeSlot::Primary,
            },
    {
        match self {
            AlertVariant::Success => ThemeSlot::Success,
            AlertVariant::Error => ThemeSlot::Error,
            AlertVariant::Warning => ThemeSlot::Warning,
            AlertVariant::Info => ThemeSlot::Info,
            AlertVariant::Status => ThemeSlot::Primary,
        }
    }
}

/// An alert: its kind, optional title, message, whether the user may
/// dismiss it, and how long it stays, if not until dismissed.
pub struct Alert {
    pub variant: AlertVariant,
    pub title: Option<String>,
    pub message: String,
    pub dismissible: bool,
    pub duration: Option<Duration>,
}

impl Alert {
    /// A dismissible alert of kind `variant` saying `message`, without
    /// title, that stays until dismissed.
    pub fn new(variant: AlertVariant, message: String) -> (a: Self)
        ensures
            a == (Alert { variant, title: None, message, dismissible: true, duration: None }),
    {
        Alert { variant, title: None, message, dismissible: true, duration: None }
    }

    /// A success alert.
    pub fn success(message: String) -> (a: Self)
        ensures
            a == Alert::new_spec(AlertVariant::Success, message),
    {
        Self::new(AlertVariant::Success, message)
    }

    /// An error alert.
    pub fn error(message: String) -> (a: Self)
        ensures
            a == Alert::new_spec(AlertVariant::Error, message),
    {
        Self::new(AlertVariant::Error, message)
    }

    /// A warning alert.
    pub fn warning(message: String) -> (a: Self)
        ensures
            a == Alert::new_spec(AlertVariant::Warning, message),
    {
        Self::new(AlertVariant::Warning, message)
    }

    /// An informational alert.
    pub fn info(message: String) -> (a: Self)
        ensures
            a == Alert::new_spec(AlertVariant::Info, message),
    {
        Self::new(AlertVariant::Info, message)
    }

    /// A status alert.
    pub fn status(message: String) -> (a: Self)
        ensures
            a == Alert::new_spec(AlertVariant::Status, message),
    {
        Self::new(AlertVariant::Status, message)
    }

    /// The alert `new` makes.
    pub open spec fn new_spec(variant: AlertVariant, message: String) -> Alert {
        Alert { variant, title: None, message, dismissible: true, duration: None }
    }

    /// Sets the title.
    pub fn title(self, title: String) -> (a: Self)
        ensures
            a == (Alert { title: Some(title), ..self }),
    {
        Alert { title: Some(title), ..self }
    }

    /// Whether the user may dismiss the alert.
    pub fn dismissible(self, value: bool) -> (a: Self)
        ensures
            a == (Alert { dismissible: value, ..self }),
    {
        Alert { dismissible: value, ..self }
    }

    /// The alert goes away after `duration`.
    pub fn duration(self, duration: Duration) -> (a: Self)
        ensures
            a == (Alert { duration: Some(duration), ..self }),
    {
        Alert { duration: Some(duration), ..self }
    }
}

/// A press on an alert's dismiss button removes the alert.
pub fn dismiss_pressed(interaction: Interaction) -> (dismiss: bool)
    ensures
        dismiss == (interaction == Interaction::Pressed),
{
    match interaction {
        Interaction::Pressed => true,
        _ => false,
    }
}

} // verus!
