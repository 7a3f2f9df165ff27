//! The structured notification payload, as callers assemble it.
//!
//! The wire protocol carries the payload as opaque bytes; serializing
//! these structures to that compact text form is the I/O shell's work,
//! and the frame encoder only enforces the byte-size ceiling.
use vstd::prelude::*;

verus! {

/// The alert of a payload: a plain text, a localization key with its
/// arguments, or the full dictionary form.
#[derive(Clone, Debug)]
pub enum PayloadAPSAlert {
    /// A plain alert text.
    Plain(String),
    /// A localization key and its format arguments.
    Localized(String, Vec<String>),
    /// The dictionary form with every optional field.
    Dictionary(PayloadAPSAlertDictionary),
}

/// The dictionary form of an alert; every field is optional.
#[derive(Clone, Debug)]
pub struct PayloadAPSAlertDictionary {
    /// Short title of the alert.
    pub title: Option<String>,
    /// Body text of the alert.
    pub body: Option<String>,
    /// Localization key for the title.
    pub title_loc_key: Option<String>,
    /// Format arguments for the title localization key.
    pub title_loc_args: Option<Vec<String>>,
    /// Localization key for the action button.
    pub action_loc_key: Option<String>,
    /// Localization key for the body.
    pub loc_key: Option<String>,
    /// Format arguments for the body localization key.
    pub loc_args: Option<Vec<String>>,
    /// Image to show while the receiving application launches.
    pub launch_image: Option<String>,
}

/// The device-facing part of a payload; every field is optional.
#[derive(Clone, Debug)]
pub struct PayloadAPS {
    /// The alert to show.
    pub alert: Option<PayloadAPSAlert>,
    /// The badge count to set on the application's icon.
    pub badge: Option<i32>,
    /// The sound to play.
    pub sound: Option<String>,
    /// Set to signal content waiting to be fetched.
    pub content_available: Option<i32>,
    /// The category of actions offered with the alert.
    pub category: Option<String>,
}

} // verus!
