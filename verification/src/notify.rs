//! Notification builder: the title, body and timing of a notification,
//! gathered before the host is asked to show it.
//!
//! A delay is carried either as milliseconds from now or as an absolute
//! time in milliseconds since the epoch; the host glue turns calendar
//! dates into the latter before they enter the library.

use vstd::prelude::*;

verus! {

/// When a scheduled notification action happens.
#[derive(Debug, Clone, Copy, PartialEq, Eq)]
pub enum Delay {
    /// This many milliseconds after the notification is spawned.
    Duration(u64),
    /// At this absolute time, in milliseconds since the epoch.
    Date(i64),
}

/// Mathematical state of a notification builder.
pub ghost struct NotificationModel {
    /// The title of the notification.
    pub title: Seq<char>,
    /// The body of the notification, if one was appended.
    pub body: Option<Seq<char>>,
    /// When the notification fires, if a delay was set.
    pub open: Option<Delay>,
    /// When the notification closes itself, if a delay was set.
    pub close: Option<Delay>,
}

/// Notification builder.
pub struct Notification {
    title: String,
    body: Option<String>,
    open: Option<Delay>,
    close: Option<Delay>,
}

impl View for Notification {
    type V = NotificationModel;

    closed spec fn view(&self) -> NotificationModel {
        NotificationModel {
            title: self.title@,
            body: match self.body {
                Some(b) => Some(b@),
                None => None,
            },
            open: self.open,
            close: self.close,
        }
    }
}

impl Notification {
    /// Creates a new notification builder: only the title is set.
    pub fn new(title: String) -> (r: Self)
        ensures
            r@.title == title@,
            r@.body is None,
            r@.open is None,
            r@.close is None,
    {
        Notification { title, body: None, open: None, close: None }
    }

    /// Appends a body to the notification; by default a notification
    /// has none.
    pub fn body(self, body: String) -> (r: Self)
        ensures
            r@ == (NotificationModel { body: Some(body@), ..self@ }),
    {
        Notification { body: Some(body), ..self }
    }

    /// Makes the notification fire this many milliseconds after it is
    /// spawned; by default it fires at once.
    pub fn fire_after(self, millis: u64) -> (r: Self)
        ensures
            r@ == (NotificationModel { open: Some(Delay::Duration(millis)), ..self@ }),
    {
        Notification { open: Some(Delay::Duration(millis)), ..self }
    }

    /// Makes the notification fire at an absolute time, in milliseconds
    /// since the epoch.
    pub fn fire_date(self, at_epoch_millis: i64) -> (r: Self)
        ensures
            r@ == (NotificationModel { open: Some(Delay::Date(at_epoch_millis)), ..self@ }),
    {
        Notification { open: Some(Delay::Date(at_epoch_millis)), ..self }
    }

    /// Makes the notification close itself this many milliseconds after
    /// it fired; by default it stays until dismissed.
    pub fn close_after(self, millis: u64) -> (r: Self)
        ensures
            r@ == (NotificationModel { close: Some(Delay::Duration(millis)), ..self@ }),
    {
        Notification { close: Some(Delay::Duration(millis)), ..self }
    }

    /// The title the notification will carry.
    pub fn title(&self) -> (r: &String)
        ensures
            r@ == self@.title,
    {
        &self.title
    }
}

} // verus!
