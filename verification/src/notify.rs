//! Push notifications. Supports ntfy-style topic URLs and generic webhooks.

use vstd::prelude::*;
use crate::text;
use crate::text::{cat2, contains_str};

verus! {

/// A notification as it is sent.
#[derive(Debug)]
pub enum Notification {
    /// The body is POSTed directly, with `Title` and `Tags` headers.
    Ntfy { title: String, tags: String, body: String },
    /// A JSON object with a `title` and a `message` is POSTed.
    Webhook { title: String, message: String },
}

/// A notification as mathematical values.
pub enum NotificationModel {
    Ntfy { title: Seq<char>, tags: Seq<char>, body: Seq<char> },
    Webhook { title: Seq<char>, message: Seq<char> },
}

impl View for Notification {
    type V = NotificationModel;

    open spec fn view(&self) -> NotificationModel {
        match self {
            Notification::Ntfy { title, tags, body } => NotificationModel::Ntfy {
                title: title@,
                tags: tags@,
                body: body@,
            },
            Notification::Webhook { title, message } => NotificationModel::Webhook {
                title: title@,
                message: message@,
            },
        }
    }
}

/// What is sent to an address: an address that names ntfy gets its form, any other a webhook's.
pub open spec fn addressed_to(url: Seq<char>, title: Seq<char>, body: Seq<char>)
    -> NotificationModel {
    if text::occurs(url, "ntfy"@) {
        NotificationModel::Ntfy { title, tags: "whale"@, body }
    } else {
        NotificationModel::Webhook { title, message: body }
    }
}

/// The notification with `title` and `body` for the configured URL.
pub fn prepare(url: &str, title: &str, body: &str) -> (r: Notification)
    ensures
        r@ == addressed_to(url@, title@, body@),
{
    if contains_str(url, "ntfy") {
        Notification::Ntfy {
            title: title.to_string(),
            tags: "whale".to_string(),
            body: body.to_string(),
        }
    } else {
        Notification::Webhook { title: title.to_string(), message: body.to_string() }
    }
}

/// What an answer amounts to: whether it stands for success, and its status as text.
pub fn accept_reply(success: bool, status: &str) -> (r: Result<(), String>)
    ensures
        success ==> r is Ok,
        !success ==> r is Err && r->Err_0@ == "notification endpoint returned "@ + status@,
{
    if success {
        Ok(())
    } else {
        Err(cat2("notification endpoint returned ", status))
    }
}

/// An address in which `ntfy` stands anywhere gets the title, the text and a tag in ntfy's own
/// form; every other address gets the title and the text as a webhook.
pub proof fn law_form_follows_the_address(
    url: Seq<char>,
    before: Seq<char>,
    behind: Seq<char>,
    title: Seq<char>,
    body: Seq<char>,
)
    ensures
        url == before + "ntfy"@ + behind ==> addressed_to(url, title, body) == (
        NotificationModel::Ntfy { title, tags: "whale"@, body }),
        (forall|a: Seq<char>, b: Seq<char>| url != #[trigger] (a + "ntfy"@ + b)) ==> addressed_to(
            url,
            title,
            body,
        ) == (NotificationModel::Webhook { title, message: body }),
{
    text::law_occurs_in_the_middle(url, "ntfy"@);
}

} // verus!
