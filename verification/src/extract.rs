//! Secondary attributes pulled out of free-text columns by fixed patterns:
//! sender, recipient, message id and size from a payload; proxy session id,
//! record id and internet message id from a context.

use crate::error::ParseError;
use crate::text::{chars_of, contains, has_infix, i32_of, parse_i32};
use vstd::prelude::*;

verus! {

/// The errors of the `regex` crate, which verified code only hands on.
#[verifier::external_type_specification]
#[verifier::external_body]
pub struct ExRegexError(regex::Error);

/// What the `regex` crate finds for `pattern` in `text`. `None` where the
/// pattern does not compile. Else the text of capture group 1 in the leftmost
/// match, if the pattern matches anywhere and group 1 took part in the match.
pub uninterp spec fn first_group_of(pattern: Seq<char>, text: Seq<char>) -> Option<
    Option<Seq<char>>,
>;

/// Calls `regex::Regex::new` on `pattern` and `Regex::captures` on `text`,
/// and copies out capture group 1 with `Captures::get` and `Match::as_str`.
/// The error is that of `Regex::new`.
///
/// What a pattern matches is the crate's to say; the contract names the
/// result and claims nothing more of it.
#[verifier::external_body]
fn capture_first_group(pattern: &str, text: &str) -> (found: Result<Option<String>, regex::Error>)
    ensures
        match found {
            Ok(group) => first_group_of(pattern@, text@) == Some(group.deep_view()),
            Err(_) => first_group_of(pattern@, text@).is_none(),
        },
{
    let compiled = regex::Regex::new(pattern)?;
    match compiled.captures(text) {
        Some(captures) => match captures.get(1) {
            Some(group) => Ok(Some(group.as_str().to_string())),
            None => Ok(None),
        },
        None => Ok(None),
    }
}

/// What a pattern finds in a text, or the error of a pattern that cannot be
/// used.
pub open spec fn group_of(pattern: Seq<char>, text: Seq<char>) -> Result<
    Option<Seq<char>>,
    ParseError,
> {
    match first_group_of(pattern, text) {
        Some(group) => Ok(group),
        None => Err(ParseError::InvalidPattern),
    }
}

/// The outcome of a search, its text as a character sequence.
pub open spec fn group_view(outcome: Result<Option<String>, ParseError>) -> Result<
    Option<Seq<char>>,
    ParseError,
> {
    match outcome {
        Ok(group) => Ok(group.deep_view()),
        Err(error) => Err(error),
    }
}

/// Searches a text with a pattern. A pattern that cannot be used is an
/// error, and never passes for a pattern that found nothing.
pub fn find_group(pattern: &str, text: &str) -> (outcome: Result<Option<String>, ParseError>)
    ensures
        group_view(outcome) == group_of(pattern@, text@),
{
    match capture_first_group(pattern, text) {
        Ok(group) => Ok(group),
        Err(_) => Err(ParseError::InvalidPattern),
    }
}

/// The pattern for the announced size of a message, in a payload.
pub const SIZE_PATTERN: &'static str = "SIZE=(\\d+)";

/// The pattern for the envelope sender, in a payload.
pub const MAIL_FROM_PATTERN: &'static str = "MAIL FROM:<(.+)>";

/// The pattern for the envelope recipient, in a payload.
pub const RCPT_TO_PATTERN: &'static str = "RCPT TO:<(.+)>";

/// The pattern for a message id, in a payload: what the first pair of angle
/// brackets holds.
pub const MESSAGE_ID_PATTERN: &'static str = "<(.+)>";

/// The pattern for the inbound session that an outbound one proxies, in a
/// context.
pub const PROXY_SESSION_PATTERN: &'static str = "session id (\\w+)";

/// The pattern for the internal record id, in a context.
pub const RECORD_ID_PATTERN: &'static str = "RecordId (\\d+)";

/// The pattern for the internet message id, in a context.
pub const INTERNET_MESSAGE_ID_PATTERN: &'static str = "InternetMessageId <(.+)>";

/// The words in a context that announce a proxied inbound session.
pub const PROXYING_MARK: &'static str = "Proxying inbound session";

/// The words in a context that announce a record id and a message id.
pub const SENDING_MARK: &'static str = "sending message with RecordId";

/// What the payload of an inbound line gives away.
#[derive(Debug, Clone)]
pub struct ReceiveFindings {
    /// The announced size in bytes.
    pub size: Option<i32>,
    /// The envelope sender.
    pub sender: Option<String>,
    /// The envelope recipient.
    pub recipient: Option<String>,
    /// The message id.
    pub message_id: Option<String>,
}

/// What the payload of an inbound line gives away, as character sequences.
pub ghost struct ReceiveFindingsView {
    pub size: Option<i32>,
    pub sender: Option<Seq<char>>,
    pub recipient: Option<Seq<char>>,
    pub message_id: Option<Seq<char>>,
}

impl View for ReceiveFindings {
    type V = ReceiveFindingsView;

    open spec fn view(&self) -> ReceiveFindingsView {
        ReceiveFindingsView {
            size: self.size,
            sender: self.sender.deep_view(),
            recipient: self.recipient.deep_view(),
            message_id: self.message_id.deep_view(),
        }
    }
}

/// What the context and the payload of an outbound line give away.
#[derive(Debug, Clone)]
pub struct SendFindings {
    /// The inbound session that this one proxies.
    pub proxy_session_id: Option<String>,
    /// The internal record id.
    pub record_id: Option<String>,
    /// The internet message id.
    pub message_id: Option<String>,
    /// The envelope sender.
    pub sender: Option<String>,
    /// The envelope recipient.
    pub recipient: Option<String>,
}

/// What the context and the payload of an outbound line give away, as
/// character sequences.
pub ghost struct SendFindingsView {
    pub proxy_session_id: Option<Seq<char>>,
    pub record_id: Option<Seq<char>>,
    pub message_id: Option<Seq<char>>,
    pub sender: Option<Seq<char>>,
    pub recipient: Option<Seq<char>>,
}

impl View for SendFindings {
    type V = SendFindingsView;

    open spec fn view(&self) -> SendFindingsView {
        SendFindingsView {
            proxy_session_id: self.proxy_session_id.deep_view(),
            record_id: self.record_id.deep_view(),
            message_id: self.message_id.deep_view(),
            sender: self.sender.deep_view(),
            recipient: self.recipient.deep_view(),
        }
    }
}

/// The number that captured digits write, where they write a 32-bit
/// integer.
pub open spec fn size_in(digits: Option<Seq<char>>) -> Option<i32> {
    match digits {
        Some(text) => i32_of(text),
        None => None,
    }
}

/// What the payload of an inbound line gives away. Every rule is tried; a
/// line without a payload gives nothing. A pattern that cannot be used is an
/// error.
pub open spec fn receive_findings_of(payload: Option<Seq<char>>) -> Result<
    ReceiveFindingsView,
    ParseError,
> {
    match payload {
        Some(text) => {
            let size = group_of(SIZE_PATTERN@, text);
            let sender = group_of(MAIL_FROM_PATTERN@, text);
            let recipient = group_of(RCPT_TO_PATTERN@, text);
            let message_id = group_of(MESSAGE_ID_PATTERN@, text);
            if size.is_err() || sender.is_err() || recipient.is_err() || message_id.is_err() {
                Err(ParseError::InvalidPattern)
            } else {
                Ok(
                    ReceiveFindingsView {
                        size: size_in(size.unwrap()),
                        sender: sender.unwrap(),
                        recipient: recipient.unwrap(),
                        message_id: message_id.unwrap(),
                    },
                )
            }
        },
        None => Ok(
            ReceiveFindingsView { size: None, sender: None, recipient: None, message_id: None },
        ),
    }
}

/// What a pattern finds in a context that holds `mark`; nothing where the
/// context is absent or lacks the mark.
pub open spec fn marked_group_of(
    context: Option<Seq<char>>,
    mark: Seq<char>,
    pattern: Seq<char>,
) -> Result<Option<Seq<char>>, ParseError> {
    match context {
        Some(text) => if has_infix(text, mark) {
            group_of(pattern, text)
        } else {
            Ok(None)
        },
        None => Ok(None),
    }
}

/// What a pattern finds in a payload; nothing where the payload is absent.
pub open spec fn payload_group_of(payload: Option<Seq<char>>, pattern: Seq<char>) -> Result<
    Option<Seq<char>>,
    ParseError,
> {
    match payload {
        Some(text) => group_of(pattern, text),
        None => Ok(None),
    }
}

/// What the context and the payload of an outbound line give away. The rules
/// on the context are tried only where it holds their mark; the rules on the
/// payload are always tried. A pattern that cannot be used is an error.
pub open spec fn send_findings_of(
    context: Option<Seq<char>>,
    payload: Option<Seq<char>>,
) -> Result<SendFindingsView, ParseError> {
    let proxy_session_id = marked_group_of(context, PROXYING_MARK@, PROXY_SESSION_PATTERN@);
    let record_id = marked_group_of(context, SENDING_MARK@, RECORD_ID_PATTERN@);
    let message_id = marked_group_of(context, SENDING_MARK@, INTERNET_MESSAGE_ID_PATTERN@);
    let sender = payload_group_of(payload, MAIL_FROM_PATTERN@);
    let recipient = payload_group_of(payload, RCPT_TO_PATTERN@);
    if proxy_session_id.is_err() || record_id.is_err() || message_id.is_err() || sender.is_err()
        || recipient.is_err() {
        Err(ParseError::InvalidPattern)
    } else {
        Ok(
            SendFindingsView {
                proxy_session_id: proxy_session_id.unwrap(),
                record_id: record_id.unwrap(),
                message_id: message_id.unwrap(),
                sender: sender.unwrap(),
                recipient: recipient.unwrap(),
            },
        )
    }
}

/// The findings of an outcome, their texts as character sequences.
pub open spec fn receive_findings_view(outcome: Result<ReceiveFindings, ParseError>) -> Result<
    ReceiveFindingsView,
    ParseError,
> {
    match outcome {
        Ok(found) => Ok(found@),
        Err(error) => Err(error),
    }
}

/// The findings of an outcome, their texts as character sequences.
pub open spec fn send_findings_view(outcome: Result<SendFindings, ParseError>) -> Result<
    SendFindingsView,
    ParseError,
> {
    match outcome {
        Ok(found) => Ok(found@),
        Err(error) => Err(error),
    }
}

/// Reads the digits that the size pattern captured.
pub fn size_from_digits(digits: Option<String>) -> (size: Option<i32>)
    ensures
        size == size_in(digits.deep_view()),
{
    match digits {
        Some(text) => {
            let chars = chars_of(text.as_str());
            parse_i32(chars.as_slice())
        },
        None => None,
    }
}

/// Applies the rules for inbound lines to a payload.
pub fn find_in_receive_line(payload: &Option<String>) -> (outcome: Result<
    ReceiveFindings,
    ParseError,
>)
    ensures
        receive_findings_view(outcome) == receive_findings_of(payload.deep_view()),
{
    match payload {
        Some(text) => {
            let size = find_group(SIZE_PATTERN, text.as_str());
            let sender = find_group(MAIL_FROM_PATTERN, text.as_str());
            let recipient = find_group(RCPT_TO_PATTERN, text.as_str());
            let message_id = find_group(MESSAGE_ID_PATTERN, text.as_str());
            match (size, sender, recipient, message_id) {
                (Ok(size), Ok(sender), Ok(recipient), Ok(message_id)) => Ok(
                    ReceiveFindings {
                        size: size_from_digits(size),
                        sender,
                        recipient,
                        message_id,
                    },
                ),
                _ => Err(ParseError::InvalidPattern),
            }
        },
        None => Ok(
            ReceiveFindings { size: None, sender: None, recipient: None, message_id: None },
        ),
    }
}

/// Applies a rule to a context that holds the rule's mark.
fn find_marked(context: &Option<String>, mark: &str, pattern: &str) -> (outcome: Result<
    Option<String>,
    ParseError,
>)
    ensures
        group_view(outcome) == marked_group_of(context.deep_view(), mark@, pattern@),
{
    match context {
        Some(text) => {
            let chars = chars_of(text.as_str());
            let wanted = chars_of(mark);
            if contains(chars.as_slice(), wanted.as_slice()) {
                find_group(pattern, text.as_str())
            } else {
                Ok(None)
            }
        },
        None => Ok(None),
    }
}

/// Applies a rule to a payload.
fn find_in_payload(payload: &Option<String>, pattern: &str) -> (outcome: Result<
    Option<String>,
    ParseError,
>)
    ensures
        group_view(outcome) == payload_group_of(payload.deep_view(), pattern@),
{
    match payload {
        Some(text) => find_group(pattern, text.as_str()),
        None => Ok(None),
    }
}

/// Applies the rules for outbound lines to a context and a payload.
pub fn find_in_send_line(context: &Option<String>, payload: &Option<String>) -> (outcome: Result<
    SendFindings,
    ParseError,
>)
    ensures
        send_findings_view(outcome) == send_findings_of(context.deep_view(), payload.deep_view()),
{
    let proxy_session_id = find_marked(context, PROXYING_MARK, PROXY_SESSION_PATTERN);
    let record_id = find_marked(context, SENDING_MARK, RECORD_ID_PATTERN);
    let message_id = find_marked(context, SENDING_MARK, INTERNET_MESSAGE_ID_PATTERN);
    let sender = find_in_payload(payload, MAIL_FROM_PATTERN);
    let recipient = find_in_payload(payload, RCPT_TO_PATTERN);
    match (proxy_session_id, record_id, message_id, sender, recipient) {
        (Ok(proxy_session_id), Ok(record_id), Ok(message_id), Ok(sender), Ok(recipient)) => Ok(
            SendFindings { proxy_session_id, record_id, message_id, sender, recipient },
        ),
        _ => Err(ParseError::InvalidPattern),
    }
}

/// A text field after a line's finding: the finding where there is one and
/// it is not empty, else the field as it was.
pub open spec fn merged_text(held: Option<Seq<char>>, found: Option<Seq<char>>) -> Option<
    Seq<char>,
> {
    match found {
        Some(text) => if text.len() > 0 {
            Some(text)
        } else {
            held
        },
        None => held,
    }
}

/// A numeric field after a line's finding: the finding where there is one,
/// else the field as it was.
pub open spec fn merged_number(held: Option<i32>, found: Option<i32>) -> Option<i32> {
    match found {
        Some(number) => Some(number),
        None => held,
    }
}

/// Merges a finding into a text field: a finding that is not empty replaces
/// what the field held, and nothing ever empties a field.
pub fn merge_text(held: &mut Option<String>, found: Option<String>)
    ensures
        final(held).deep_view() == merged_text(old(held).deep_view(), found.deep_view()),
{
    match found {
        Some(text) => {
            if !text.as_str().is_empty() {
                *held = Some(text);
            }
        },
        None => {},
    }
}

/// Merges a finding into a numeric field: a finding replaces what the field
/// held, and nothing ever empties a field.
pub fn merge_number(held: &mut Option<i32>, found: Option<i32>)
    ensures
        *final(held) == merged_number(*old(held), found),
{
    match found {
        Some(number) => {
            *held = Some(number);
        },
        None => {},
    }
}

} // verus!
