//! Notifications from peers.

use vstd::prelude::*;
use crate::device::DeviceId;
use crate::message::{Message, MessageView};

verus! {

/// How long a notification stays on the screen, in milliseconds.
pub const NOTIFICATION_TIMEOUT_MS: u32 = 5000;

/// A notification to show on the desktop.
#[derive(Debug, Clone, PartialEq)]
pub struct NotificationRequest {
    /// The headline.
    pub summary: String,
    /// The text.
    pub body: String,
    /// The application that the notification is shown for, if it is named.
    pub app_name: Option<String>,
    /// How long the notification stays, in milliseconds.
    pub timeout_ms: u32,
}

/// A notification, as plain values.
pub struct NotificationView {
    pub summary: Seq<char>,
    pub body: Seq<char>,
    pub app_name: Option<Seq<char>>,
    pub timeout_ms: u32,
}

impl View for NotificationRequest {
    type V = NotificationView;

    open spec fn view(&self) -> NotificationView {
        NotificationView {
            summary: self.summary@,
            body: self.body@,
            app_name: match self.app_name {
                Some(name) => Some(name@),
                None => None,
            },
            timeout_ms: self.timeout_ms,
        }
    }
}

/// The notification to show for a message: that of a notification message,
/// with title, text and application as they came; none for other messages.
pub open spec fn notification_for(message: MessageView) -> Option<NotificationView> {
    match message {
        MessageView::Notification { title, body, app_name } => Some(
            NotificationView {
                summary: title,
                body,
                app_name,
                timeout_ms: NOTIFICATION_TIMEOUT_MS,
            },
        ),
        _ => None,
    }
}

/// The view of an optional notification.
pub open spec fn shown(request: Option<NotificationRequest>) -> Option<NotificationView> {
    match request {
        Some(notification) => Some(notification@),
        None => None,
    }
}

/// Shows the notifications of peers on the desktop.
pub struct NotificationSyncPlugin;

impl NotificationSyncPlugin {
    /// The handler's name.
    pub fn name(&self) -> (name: &'static str)
        ensures
            name@ == "notification-sync"@,
    {
        "notification-sync"
    }

    /// The notification to show for a message, if any.
    pub fn handle_message(&self, message: &Message, sender_id: &DeviceId) -> (request: Option<
        NotificationRequest,
    >)
        ensures
            shown(request) == notification_for(message@),
    {
        match message {
            Message::Notification { title, body, app_name } => {
                let app = match app_name {
                    Some(app) => Some(app.clone()),
                    None => None,
                };
                Some(
                    NotificationRequest {
                        summary: title.clone(),
                        body: body.clone(),
                        app_name: app,
                        timeout_ms: NOTIFICATION_TIMEOUT_MS,
                    },
                )
            },
            _ => None,
        }
    }
}

} // verus!
