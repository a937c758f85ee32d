//! Delivery strategies: what is posted to a workspace's webhook, by the
//! workspace's type, and what the webhook's answer means.

use crate::entity::WorkspaceType;
use crate::text::{decimal, decimal_string};
use vstd::prelude::*;
use vstd::string::*;

verus! {

/// The name under which messages appear on Discord.
pub const DISCORD_USERNAME: &'static str = "pollenJP Webhook";

/// The picture under which messages appear on Discord.
pub const DISCORD_AVATAR_URL: &'static str =
    "https://i.gyazo.com/e5b2988a9f6f05cafa4ec384fae1a3dd.png";

/// A delivery that did not go through.
#[derive(Debug, PartialEq, Eq)]
pub enum MessageError {
    Unexpected(String),
}

impl Clone for MessageError {
    fn clone(&self) -> (r: Self)
        ensures
            r.detail() == self.detail(),
    {
        match self {
            MessageError::Unexpected(detail) => MessageError::Unexpected(detail.clone()),
        }
    }
}

impl MessageError {
    /// What went wrong, in words.
    pub open spec fn detail(self) -> Seq<char> {
        match self {
            MessageError::Unexpected(detail) => detail@,
        }
    }

    /// The text of the error as it is logged.
    pub open spec fn message(self) -> Seq<char> {
        "Unexpected Error: "@ + self.detail()
    }

    pub fn to_string(&self) -> (r: String)
        ensures
            r@ == self.message(),
    {
        match self {
            MessageError::Unexpected(detail) => {
                let mut out = String::from_str("Unexpected Error: ");
                out.append(detail.as_str());
                out
            },
        }
    }
}

/// The body that Slack's webhook takes.
#[derive(Debug, PartialEq, Eq)]
pub struct SlackMessagePayload {
    pub text: String,
}

impl Clone for SlackMessagePayload {
    fn clone(&self) -> (r: Self)
        ensures
            r.text@ == self.text@,
    {
        SlackMessagePayload { text: self.text.clone() }
    }
}

/// The body that Discord's webhook takes.
#[derive(Debug, PartialEq, Eq)]
pub struct DiscordMessagePayload {
    pub content: String,
    pub username: String,
    pub avatar_url: String,
}

impl Clone for DiscordMessagePayload {
    fn clone(&self) -> (r: Self)
        ensures
            r.content@ == self.content@,
            r.username@ == self.username@,
            r.avatar_url@ == self.avatar_url@,
    {
        DiscordMessagePayload {
            content: self.content.clone(),
            username: self.username.clone(),
            avatar_url: self.avatar_url.clone(),
        }
    }
}

impl DiscordMessagePayload {
    pub fn new(text: &str) -> (r: Self)
        ensures
            r.content@ == text@,
            r.username@ == DISCORD_USERNAME@,
            r.avatar_url@ == DISCORD_AVATAR_URL@,
    {
        Self {
            content: String::from_str(text),
            username: String::from_str(DISCORD_USERNAME),
            avatar_url: String::from_str(DISCORD_AVATAR_URL),
        }
    }
}

/// A webhook body, in the shape of the destination's type.
#[derive(Debug, PartialEq, Eq)]
pub enum MessageBody {
    Slack(SlackMessagePayload),
    Discord(DiscordMessagePayload),
}

/// A webhook body as contracts see it.
pub enum MessageBodyView {
    Slack { text: Seq<char> },
    Discord { content: Seq<char>, username: Seq<char>, avatar_url: Seq<char> },
}

impl View for MessageBody {
    type V = MessageBodyView;

    open spec fn view(&self) -> MessageBodyView {
        match self {
            MessageBody::Slack(p) => MessageBodyView::Slack { text: p.text@ },
            MessageBody::Discord(p) => MessageBodyView::Discord {
                content: p.content@,
                username: p.username@,
                avatar_url: p.avatar_url@,
            },
        }
    }
}

impl Clone for MessageBody {
    fn clone(&self) -> (r: Self)
        ensures
            r@ == self@,
    {
        match self {
            MessageBody::Slack(p) => MessageBody::Slack(p.clone()),
            MessageBody::Discord(p) => MessageBody::Discord(p.clone()),
        }
    }
}

/// One delivery: the body, and the webhook it is posted to as JSON.
#[derive(Debug, PartialEq, Eq)]
pub struct WebhookRequest {
    pub url: String,
    pub body: MessageBody,
}

/// A delivery as contracts see it.
pub struct WebhookRequestView {
    pub url: Seq<char>,
    pub body: MessageBodyView,
}

impl View for WebhookRequest {
    type V = WebhookRequestView;

    open spec fn view(&self) -> WebhookRequestView {
        WebhookRequestView { url: self.url@, body: self.body@ }
    }
}

impl Clone for WebhookRequest {
    fn clone(&self) -> (r: Self)
        ensures
            r@ == self@,
    {
        WebhookRequest { url: self.url.clone(), body: self.body.clone() }
    }
}

/// The body for a text, by the destination's type: Slack takes the text
/// alone, Discord the text with the fixed name and picture.
pub open spec fn body_for(ws_type: WorkspaceType, text: Seq<char>) -> MessageBodyView {
    match ws_type {
        WorkspaceType::Slack => MessageBodyView::Slack { text },
        WorkspaceType::Discord => MessageBodyView::Discord {
            content: text,
            username: DISCORD_USERNAME@,
            avatar_url: DISCORD_AVATAR_URL@,
        },
    }
}

/// The delivery of a text to a webhook of the given type.
pub open spec fn request_for(
    ws_type: WorkspaceType,
    webhook_url: Seq<char>,
    text: Seq<char>,
) -> WebhookRequestView {
    WebhookRequestView { url: webhook_url, body: body_for(ws_type, text) }
}

/// What came back from posting to a webhook: the status of the response, or
/// the reason no response came.
#[derive(Debug, PartialEq, Eq)]
pub enum WebhookReply {
    Status(u16),
    Failed(String),
}

/// A webhook's answer as contracts see it.
pub enum WebhookReplyView {
    Status(int),
    Failed(Seq<char>),
}

impl View for WebhookReply {
    type V = WebhookReplyView;

    open spec fn view(&self) -> WebhookReplyView {
        match self {
            WebhookReply::Status(code) => WebhookReplyView::Status(*code as int),
            WebhookReply::Failed(reason) => WebhookReplyView::Failed(reason@),
        }
    }
}

impl Clone for WebhookReply {
    fn clone(&self) -> (r: Self)
        ensures
            r@ == self@,
    {
        match self {
            WebhookReply::Status(code) => WebhookReply::Status(*code),
            WebhookReply::Failed(reason) => WebhookReply::Failed(reason.clone()),
        }
    }
}

impl WebhookReplyView {
    /// The webhook took the message: it answered, and with a status from 200 to 299.
    pub open spec fn accepted(self) -> bool {
        self matches WebhookReplyView::Status(code) && 200 <= code < 300
    }

    /// What is reported of an answer that is no acceptance.
    pub open spec fn failure_detail(self) -> Seq<char> {
        match self {
            WebhookReplyView::Status(code) => "Failed to send message to webhook: status "@
                + decimal(code),
            WebhookReplyView::Failed(reason) => "Failed to send message to webhook: "@ + reason,
        }
    }
}

/// Judges a webhook's answer: success on a status from 200 to 299, else the
/// failure with its detail.
pub fn delivery_result(reply: &WebhookReply) -> (r: Result<(), MessageError>)
    ensures
        r is Ok <==> reply@.accepted(),
        r matches Err(e) ==> e.detail() == reply@.failure_detail(),
{
    match reply {
        WebhookReply::Status(code) => {
            if 200 <= *code && *code < 300 {
                Ok(())
            } else {
                let mut detail = String::from_str("Failed to send message to webhook: status ");
                detail.append(decimal_string(*code as i64).as_str());
                Err(MessageError::Unexpected(detail))
            }
        },
        WebhookReply::Failed(reason) => {
            let mut detail = String::from_str("Failed to send message to webhook: ");
            detail.append(reason.as_str());
            Err(MessageError::Unexpected(detail))
        },
    }
}

/// A delivery strategy: it knows what to post, and where.
pub trait Sender {
    /// The delivery this strategy makes.
    spec fn delivery(&self) -> WebhookRequestView;

    /// Builds the delivery.
    fn request(&self) -> (r: WebhookRequest)
        ensures
            r@ == self.delivery(),
    ;
}

/// Delivery to Slack.
#[derive(Debug)]
pub struct SlackSender {
    webhook_url: String,
    text: String,
}

impl SlackSender {
    pub fn new(webhook_url: &str, text: &str) -> (r: Self)
        ensures
            r.delivery() == request_for(WorkspaceType::Slack, webhook_url@, text@),
    {
        Self { webhook_url: String::from_str(webhook_url), text: String::from_str(text) }
    }
}

impl Clone for SlackSender {
    fn clone(&self) -> (r: Self)
        ensures
            r.delivery() == self.delivery(),
    {
        Self { webhook_url: self.webhook_url.clone(), text: self.text.clone() }
    }
}

impl Sender for SlackSender {
    closed spec fn delivery(&self) -> WebhookRequestView {
        request_for(WorkspaceType::Slack, self.webhook_url@, self.text@)
    }

    fn request(&self) -> (r: WebhookRequest) {
        WebhookRequest {
            url: self.webhook_url.clone(),
            body: MessageBody::Slack(SlackMessagePayload { text: self.text.clone() }),
        }
    }
}

/// Delivery to Discord.
#[derive(Debug)]
pub struct DiscordSender {
    webhook_url: String,
    text: String,
}

impl DiscordSender {
    pub fn new(webhook_url: &str, text: &str) -> (r: Self)
        ensures
            r.delivery() == request_for(WorkspaceType::Discord, webhook_url@, text@),
    {
        Self { webhook_url: String::from_str(webhook_url), text: String::from_str(text) }
    }
}

impl Clone for DiscordSender {
    fn clone(&self) -> (r: Self)
        ensures
            r.delivery() == self.delivery(),
    {
        Self { webhook_url: self.webhook_url.clone(), text: self.text.clone() }
    }
}

impl Sender for DiscordSender {
    closed spec fn delivery(&self) -> WebhookRequestView {
        request_for(WorkspaceType::Discord, self.webhook_url@, self.text@)
    }

    fn request(&self) -> (r: WebhookRequest) {
        WebhookRequest {
            url: self.webhook_url.clone(),
            body: MessageBody::Discord(DiscordMessagePayload::new(self.text.as_str())),
        }
    }
}

/// The strategy for one workspace: one of the closed set.
#[derive(Debug)]
pub enum WorkspaceSender {
    Slack(SlackSender),
    Discord(DiscordSender),
}

impl Clone for WorkspaceSender {
    fn clone(&self) -> (r: Self)
        ensures
            r.delivery() == self.delivery(),
    {
        match self {
            WorkspaceSender::Slack(s) => WorkspaceSender::Slack(s.clone()),
            WorkspaceSender::Discord(s) => WorkspaceSender::Discord(s.clone()),
        }
    }
}

impl Sender for WorkspaceSender {
    open spec fn delivery(&self) -> WebhookRequestView {
        match self {
            WorkspaceSender::Slack(s) => s.delivery(),
            WorkspaceSender::Discord(s) => s.delivery(),
        }
    }

    fn request(&self) -> (r: WebhookRequest) {
        match self {
            WorkspaceSender::Slack(s) => s.request(),
            WorkspaceSender::Discord(s) => s.request(),
        }
    }
}

/// Picks the strategy for a workspace's type. Every type has one.
pub fn get_sender(ws_type: WorkspaceType, webhook_url: &str, text: &str) -> (r: Result<
    WorkspaceSender,
    MessageError,
>)
    ensures
        r matches Ok(sender) && sender.delivery() == request_for(ws_type, webhook_url@, text@),
        ws_type == WorkspaceType::Slack ==> r matches Ok(WorkspaceSender::Slack(_)),
        ws_type == WorkspaceType::Discord ==> r matches Ok(WorkspaceSender::Discord(_)),
{
    match ws_type {
        WorkspaceType::Slack => Ok(WorkspaceSender::Slack(SlackSender::new(webhook_url, text))),
        WorkspaceType::Discord => Ok(
            WorkspaceSender::Discord(DiscordSender::new(webhook_url, text)),
        ),
    }
}

} // verus!
