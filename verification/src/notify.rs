//! The delivery protocol: what is sent for a record, how a transport response
//! is read, and what follows each outcome.

use vstd::prelude::*;
use vstd::string::*;
use crate::config::Limits;
use crate::listing::{ListingRecord, ListingView};

verus! {

/// Address of the messaging endpoint, up to the credential.
pub const ENDPOINT_PREFIX: &'static str = "https://api.telegram.org/bot";

/// Endpoint method that sends a picture with a caption.
pub const SEND_PHOTO_METHOD: &'static str = "/sendPhoto";

/// Endpoint method that sends a text.
pub const SEND_TEXT_METHOD: &'static str = "/sendMessage";

/// Markup that the endpoint is asked to render captions in.
pub const PARSE_MODE: &'static str = "HTML";

/// Status code by which the endpoint signals too many requests.
pub const RATE_LIMIT_CODE: i32 = 429;

/// Caption text before the title.
pub const CAPTION_HEAD: &'static str = "<b>Neuer kostenloser Artikel gefunden!</b>\n<b>Titel:</b> ";

/// Caption text between title and link.
pub const CAPTION_MIDDLE: &'static str = "\n<a href='";

/// Caption text after the link.
pub const CAPTION_TAIL: &'static str = "'>Anzeige ansehen</a>";

/// Reason text before the status of a failed response.
pub const FAILURE_HEAD: &'static str = "Telegram API Fehler: ";

/// Reason text between status and body of a failed response.
pub const FAILURE_MIDDLE: &'static str = " - ";

/// How a record is delivered.
#[derive(Clone, Copy, Debug, PartialEq, Eq, Structural)]
pub enum DeliveryMode {
    /// Picture with caption.
    Rich,
    /// Caption alone.
    Plain,
}

/// The optional parameters of an error that the endpoint reports.
#[derive(Clone, Copy, Debug, PartialEq, Eq, Structural)]
pub struct TransportErrorParameters {
    /// Seconds that the endpoint asks the sender to wait.
    pub retry_after: Option<i64>,
}

/// An error that the endpoint reports in the body of a response.
#[derive(Clone, Copy, Debug, PartialEq, Eq, Structural)]
pub struct TransportError {
    /// Code of the error.
    pub error_code: Option<i32>,
    /// Further parameters of the error.
    pub parameters: Option<TransportErrorParameters>,
}

/// How one delivery attempt ended.
#[derive(Debug)]
pub enum DeliveryOutcome {
    /// The endpoint accepted the message.
    Delivered,
    /// The endpoint asked for fewer requests, perhaps suggesting a wait in seconds.
    RateLimited(Option<i64>),
    /// The attempt failed for the given reason.
    Failed(String),
}

/// Mathematical content of a [`DeliveryOutcome`].
pub enum OutcomeView {
    Delivered,
    RateLimited(Option<i64>),
    Failed(Seq<char>),
}

impl View for DeliveryOutcome {
    type V = OutcomeView;

    open spec fn view(&self) -> OutcomeView {
        match self {
            DeliveryOutcome::Delivered => OutcomeView::Delivered,
            DeliveryOutcome::RateLimited(hint) => OutcomeView::RateLimited(*hint),
            DeliveryOutcome::Failed(reason) => OutcomeView::Failed(reason@),
        }
    }
}

/// What is sent for a record.
#[derive(Debug)]
pub enum Message {
    /// A picture, by its address, with a caption.
    Photo { image_url: String, caption: String },
    /// A caption alone.
    Text { caption: String },
}

/// Mathematical content of a [`Message`].
pub enum MessageView {
    Photo { image_url: Seq<char>, caption: Seq<char> },
    Text { caption: Seq<char> },
}

impl View for Message {
    type V = MessageView;

    open spec fn view(&self) -> MessageView {
        match self {
            Message::Photo { image_url, caption } => MessageView::Photo {
                image_url: image_url@,
                caption: caption@,
            },
            Message::Text { caption } => MessageView::Text { caption: caption@ },
        }
    }
}

/// The caption of a posting with the given title and link.
pub open spec fn caption_text(title: Seq<char>, link: Seq<char>) -> Seq<char> {
    CAPTION_HEAD@ + title + CAPTION_MIDDLE@ + link + CAPTION_TAIL@
}

/// The mode in which the delivery of a record begins: rich where it has a
/// picture, plain where it has none.
pub open spec fn initial_mode(record: ListingView) -> DeliveryMode {
    if record.image_url is Some {
        DeliveryMode::Rich
    } else {
        DeliveryMode::Plain
    }
}

/// The message that delivers `record` in `mode`. A record without a picture
/// is delivered as text in either mode.
pub open spec fn message_of(mode: DeliveryMode, record: ListingView) -> MessageView {
    let caption = caption_text(record.title, record.link);
    match (mode, record.image_url) {
        (DeliveryMode::Rich, Some(image_url)) => MessageView::Photo { image_url, caption },
        _ => MessageView::Text { caption },
    }
}

/// Renders the caption of a posting.
pub fn caption(title: &str, link: &str) -> (text: String)
    ensures
        text@ == caption_text(title@, link@),
{
    let mut text = String::from_str(CAPTION_HEAD);
    text.append(title);
    text.append(CAPTION_MIDDLE);
    text.append(link);
    text.append(CAPTION_TAIL);
    text
}

/// Chooses the mode in which the delivery of `record` begins.
pub fn first_mode(record: &ListingRecord) -> (mode: DeliveryMode)
    ensures
        mode == initial_mode(record@),
{
    match &record.image_url {
        Some(_) => DeliveryMode::Rich,
        None => DeliveryMode::Plain,
    }
}

/// Composes the message that delivers `record` in `mode`.
pub fn compose(mode: DeliveryMode, record: &ListingRecord) -> (message: Message)
    ensures
        message@ == message_of(mode, record@),
{
    let caption = caption(record.title.as_str(), record.link.as_str());
    match (mode, &record.image_url) {
        (DeliveryMode::Rich, Some(image_url)) => Message::Photo {
            image_url: image_url.clone(),
            caption,
        },
        _ => Message::Text { caption },
    }
}

/// A request to the messaging endpoint: the address to post to and the form
/// fields to post, in order.
#[derive(Debug)]
pub struct SendRequest {
    pub url: String,
    pub form: Vec<(String, String)>,
}

/// Mathematical content of a [`SendRequest`].
pub struct SendRequestView {
    pub url: Seq<char>,
    pub form: Seq<(Seq<char>, Seq<char>)>,
}

impl View for SendRequest {
    type V = SendRequestView;

    open spec fn view(&self) -> SendRequestView {
        SendRequestView {
            url: self.url@,
            form: self.form@.map_values(|field: (String, String)| (field.0@, field.1@)),
        }
    }
}

/// The request that sends `message` to chat `chat_id` with credential `token`.
pub open spec fn request_of(token: Seq<char>, chat_id: Seq<char>, message: MessageView) -> SendRequestView {
    match message {
        MessageView::Photo { image_url, caption } => SendRequestView {
            url: ENDPOINT_PREFIX@ + token + SEND_PHOTO_METHOD@,
            form: seq![
                ("chat_id"@, chat_id),
                ("photo"@, image_url),
                ("caption"@, caption),
                ("parse_mode"@, PARSE_MODE@),
            ],
        },
        MessageView::Text { caption } => SendRequestView {
            url: ENDPOINT_PREFIX@ + token + SEND_TEXT_METHOD@,
            form: seq![("chat_id"@, chat_id), ("text"@, caption), ("parse_mode"@, PARSE_MODE@)],
        },
    }
}

/// One form field.
fn field(name: &str, value: &str) -> (f: (String, String))
    ensures
        f.0@ == name@,
        f.1@ == value@,
{
    (String::from_str(name), String::from_str(value))
}

/// Builds the request that sends `message`.
pub fn request_for(token: &str, chat_id: &str, message: &Message) -> (request: SendRequest)
    ensures
        request@ == request_of(token@, chat_id@, message@),
{
    let mut url = String::from_str(ENDPOINT_PREFIX);
    url.append(token);
    let mut form: Vec<(String, String)> = Vec::new();
    form.push(field("chat_id", chat_id));
    match message {
        Message::Photo { image_url, caption } => {
            url.append(SEND_PHOTO_METHOD);
            form.push(field("photo", image_url.as_str()));
            form.push(field("caption", caption.as_str()));
        },
        Message::Text { caption } => {
            url.append(SEND_TEXT_METHOD);
            form.push(field("text", caption.as_str()));
        },
    }
    form.push(field("parse_mode", PARSE_MODE));
    let request = SendRequest { url, form };
    assert(request@.form =~= request_of(token@, chat_id@, message@).form);
    request
}

/// The wait that a rate-limit signal suggests.
pub open spec fn suggested_wait(error: TransportError) -> Option<i64> {
    match error.parameters {
        Some(parameters) => parameters.retry_after,
        None => None,
    }
}

/// The reason recorded for a response that is neither a success nor a
/// rate-limit signal.
pub open spec fn failure_reason(status: Seq<char>, body: Seq<char>) -> Seq<char> {
    FAILURE_HEAD@ + status + FAILURE_MIDDLE@ + body
}

/// How a transport response reads: a successful status is a delivery; an
/// error body with the rate-limit code is a rate-limit signal with the wait it
/// suggests; anything else is a failure that records status and body.
pub open spec fn response_outcome(
    success: bool,
    status: Seq<char>,
    error: Option<TransportError>,
    body: Seq<char>,
) -> OutcomeView {
    if success {
        OutcomeView::Delivered
    } else if error is Some && error->0.error_code == Some(RATE_LIMIT_CODE) {
        OutcomeView::RateLimited(suggested_wait(error->0))
    } else {
        OutcomeView::Failed(failure_reason(status, body))
    }
}

/// Reads a transport response. `success` says whether the status is a
/// successful one, `status` is the status as text, `error` is the error that
/// the body decodes to, if it decodes to one, and `body` is the body as text.
pub fn classify_response(
    success: bool,
    status: &str,
    error: Option<TransportError>,
    body: &str,
) -> (outcome: DeliveryOutcome)
    ensures
        outcome@ == response_outcome(success, status@, error, body@),
{
    if success {
        return DeliveryOutcome::Delivered;
    }
    if let Some(e) = error {
        if let Some(code) = e.error_code {
            if code == RATE_LIMIT_CODE {
                let hint = match e.parameters {
                    Some(parameters) => parameters.retry_after,
                    None => None,
                };
                return DeliveryOutcome::RateLimited(hint);
            }
        }
    }
    let mut reason = String::from_str(FAILURE_HEAD);
    reason.append(status);
    reason.append(FAILURE_MIDDLE);
    reason.append(body);
    DeliveryOutcome::Failed(reason)
}

/// The seconds that a suggested wait stands for. A negative suggestion is
/// read as the unsigned number with the same 64 bits.
pub open spec fn wait_seconds(hint: i64) -> u64 {
    if hint >= 0 {
        hint as u64
    } else {
        (hint + 0x1_0000_0000_0000_0000) as u64
    }
}

/// The pause before a rate-limited delivery is sent again: the suggested
/// wait, or the default where none was suggested.
pub open spec fn backoff_seconds(hint: Option<i64>, default_secs: u64) -> u64 {
    match hint {
        Some(h) => wait_seconds(h),
        None => default_secs,
    }
}

/// Computes the pause before a rate-limited delivery is sent again.
pub fn backoff(hint: Option<i64>, default_secs: u64) -> (seconds: u64)
    ensures
        seconds == backoff_seconds(hint, default_secs),
{
    match hint {
        Some(h) => {
            if h >= 0 {
                h as u64
            } else {
                let below: u64 = (-(h + 1)) as u64;
                u64::MAX - below
            }
        },
        None => default_secs,
    }
}

/// What follows a delivery attempt.
#[derive(Clone, Copy, Debug, PartialEq, Eq, Structural)]
pub enum Verdict {
    /// The record was delivered.
    Succeeded,
    /// The same message is sent again after a pause of so many seconds.
    RetryAfter(u64),
    /// The record is sent again as plain text.
    FallBack,
    /// The record was not delivered and no further attempt is made.
    GaveUp,
}

/// The retry and fallback rules, as a function of the outcome of an attempt
/// made in `mode` after `retries` rate-limit retries in that mode.
///
/// A delivery ends the record with success. A rate-limit signal leads to
/// another attempt in the same mode while retries are left, and ends the
/// record without success once they are used up. Any other failure of a rich
/// attempt leads to the plain attempt; any other failure of a plain attempt
/// ends the record without success.
pub open spec fn verdict_of(
    mode: DeliveryMode,
    retries: u32,
    outcome: OutcomeView,
    limits: Limits,
) -> Verdict {
    match outcome {
        OutcomeView::Delivered => Verdict::Succeeded,
        OutcomeView::RateLimited(hint) => if retries < limits.rate_limit_retries {
            Verdict::RetryAfter(backoff_seconds(hint, limits.default_backoff_secs))
        } else {
            Verdict::GaveUp
        },
        OutcomeView::Failed(_) => match mode {
            DeliveryMode::Rich => Verdict::FallBack,
            DeliveryMode::Plain => Verdict::GaveUp,
        },
    }
}

/// Applies the retry and fallback rules to the outcome of an attempt.
pub fn judge(mode: DeliveryMode, retries: u32, outcome: &DeliveryOutcome, limits: &Limits) -> (verdict:
    Verdict)
    ensures
        verdict == verdict_of(mode, retries, outcome@, *limits),
{
    match outcome {
        DeliveryOutcome::Delivered => Verdict::Succeeded,
        DeliveryOutcome::RateLimited(hint) => {
            if retries < limits.rate_limit_retries {
                Verdict::RetryAfter(backoff(*hint, limits.default_backoff_secs))
            } else {
                Verdict::GaveUp
            }
        },
        DeliveryOutcome::Failed(_) => match mode {
            DeliveryMode::Rich => Verdict::FallBack,
            DeliveryMode::Plain => Verdict::GaveUp,
        },
    }
}

} // verus!
