//! Decoding a row's payload into a [`Notification`].
//!
//! A payload is a binary property list. Its top level is a dictionary with
//! the sender under `app`, the time under `date`, and the text of the
//! notification in a nested dictionary under `req`. Every field is optional;
//! only bytes that are no binary property list, or a top level that is no
//! dictionary, make decoding fail. A property list in another encoding, XML
//! or text, is no payload.

use crate::database::{Notification, NotificationView};
use crate::payload::{
    has_binary_opening, hex_encode, hex_text, parsed_payload, read_plist, real_seconds,
    starts_as_binary_plist, value_contents, Payload,
};
use vstd::prelude::*;

verus! {

/// Why a payload gave no notification.
#[derive(Debug, Clone)]
pub enum DecodeFailure {
    /// The bytes are no binary property list. `raw_hex` holds them in
    /// hexadecimal.
    NotAStructuredPayload { raw_hex: String },
    /// The bytes are a binary property list whose top level is not a
    /// dictionary.
    UnexpectedShape,
}

/// The mathematical content of a [`DecodeFailure`].
pub enum DecodeFailureView {
    NotAStructuredPayload { raw_hex: Seq<char> },
    UnexpectedShape,
}

impl View for DecodeFailure {
    type V = DecodeFailureView;

    open spec fn view(&self) -> DecodeFailureView {
        match self {
            DecodeFailure::NotAStructuredPayload { raw_hex } => {
                DecodeFailureView::NotAStructuredPayload { raw_hex: raw_hex@ }
            },
            DecodeFailure::UnexpectedShape => DecodeFailureView::UnexpectedShape,
        }
    }
}

/// The string stored under `key`, if the key is present and holds a string.
pub open spec fn text_at(dict: Map<Seq<char>, Payload>, key: Seq<char>) -> Option<Seq<char>> {
    if dict.contains_key(key) {
        match dict[key] {
            Payload::Text(text) => Some(text),
            _ => None,
        }
    } else {
        None
    }
}

/// The whole seconds stored under `key`, if the key is present and holds a
/// real number.
pub open spec fn seconds_at(dict: Map<Seq<char>, Payload>, key: Seq<char>) -> Option<int> {
    if dict.contains_key(key) {
        match dict[key] {
            Payload::Real(seconds) => Some(seconds),
            _ => None,
        }
    } else {
        None
    }
}

/// The entries of the dictionary stored under `key`; no entries where the
/// key is missing or holds something else.
pub open spec fn detail_at(dict: Map<Seq<char>, Payload>, key: Seq<char>) -> Map<
    Seq<char>,
    Payload,
> {
    if dict.contains_key(key) {
        match dict[key] {
            Payload::Dictionary(inner) => inner,
            _ => Map::empty(),
        }
    } else {
        Map::empty()
    }
}

/// `text`, or the empty string where there is none.
pub open spec fn or_empty(text: Option<Seq<char>>) -> Seq<char> {
    match text {
        Some(t) => t,
        None => Seq::empty(),
    }
}

/// `seconds`, or 0 where there are none.
pub open spec fn or_zero(seconds: Option<int>) -> int {
    match seconds {
        Some(n) => n,
        None => 0,
    }
}

/// The notification that a payload stands for, given the row it came from.
///
/// Only a dictionary stands for one. Its fields come from fixed keys, each
/// on its own: a key that is missing or holds the wrong kind of value leaves
/// its field at the default and touches no other field. The identifier is
/// always the row's.
pub open spec fn notification_of(payload: Payload, row_id: int) -> Option<NotificationView> {
    match payload {
        Payload::Dictionary(top) => {
            let detail = detail_at(top, "req"@);
            Some(
                NotificationView {
                    id: row_id,
                    title: or_empty(text_at(detail, "titl"@)),
                    subtitle: text_at(detail, "subt"@),
                    body: or_empty(text_at(detail, "body"@)),
                    date: or_zero(seconds_at(top, "date"@)),
                    bundle_id: text_at(top, "app"@),
                },
            )
        },
        _ => None,
    }
}

/// What decoding `bytes` from row `row_id` gives.
///
/// Bytes without the binary opening are refused as they are. Bytes with it
/// are read as a binary property list, and what was read decides the rest.
pub open spec fn decode_spec(bytes: Seq<u8>, row_id: int) -> Result<
    NotificationView,
    DecodeFailureView,
> {
    if !has_binary_opening(bytes) {
        Err(DecodeFailureView::NotAStructuredPayload { raw_hex: hex_text(bytes) })
    } else {
        match parsed_payload(bytes) {
            None => Err(DecodeFailureView::NotAStructuredPayload { raw_hex: hex_text(bytes) }),
            Some(payload) => match notification_of(payload, row_id) {
                Some(notification) => Ok(notification),
                None => Err(DecodeFailureView::UnexpectedShape),
            },
        }
    }
}

/// Bytes that do not open as a binary property list are never decoded,
/// whatever else they may be: the failure carries them in hexadecimal.
pub proof fn other_encodings_are_refused(bytes: Seq<u8>, row_id: int)
    requires
        !has_binary_opening(bytes),
    ensures
        decode_spec(bytes, row_id) == Err::<NotificationView, DecodeFailureView>(
            DecodeFailureView::NotAStructuredPayload { raw_hex: hex_text(bytes) },
        ),
{
}

/// A binary property list whose top level is a dictionary always decodes,
/// and the notification carries the identifier of the row, whatever the
/// payload says.
pub proof fn every_dictionary_decodes(bytes: Seq<u8>, top: Map<Seq<char>, Payload>, row_id: int)
    requires
        has_binary_opening(bytes),
        parsed_payload(bytes) == Some(Payload::Dictionary(top)),
    ensures
        decode_spec(bytes, row_id) matches Ok(notification) && notification.id == row_id,
{
}

/// A payload without the nested dictionary of details is no failure: it
/// decodes to a notification with an empty title, an empty body and no
/// subtitle.
pub proof fn missing_detail_leaves_defaults(
    bytes: Seq<u8>,
    top: Map<Seq<char>, Payload>,
    row_id: int,
)
    requires
        has_binary_opening(bytes),
        parsed_payload(bytes) == Some(Payload::Dictionary(top)),
        !top.contains_key("req"@),
    ensures
        decode_spec(bytes, row_id) matches Ok(notification) && notification.title
            == Seq::<char>::empty() && notification.body == Seq::<char>::empty()
            && notification.subtitle is None,
{
}

/// The content of an optional notification.
pub open spec fn parsed_view(parsed: Option<Notification>) -> Option<NotificationView> {
    match parsed {
        Some(notification) => Some(notification@),
        None => None,
    }
}

/// The content of a decoding outcome.
pub open spec fn outcome_view(outcome: Result<Notification, DecodeFailure>) -> Result<
    NotificationView,
    DecodeFailureView,
> {
    match outcome {
        Ok(notification) => Ok(notification@),
        Err(failure) => Err(failure@),
    }
}

/// Reads a notification out of a property-list value.
///
/// Gives `None` exactly when the value is not a dictionary.
pub fn parse_notification_from_plist(plist_value: &plist::Value, rowid: i64) -> (parsed: Option<
    Notification,
>)
    ensures
        parsed_view(parsed) == notification_of(value_contents(*plist_value), rowid as int),
{
    match plist_value.as_dictionary() {
        Some(dict) => {
            let mut title = String::new();
            let mut subtitle: Option<String> = None;
            let mut body = String::new();
            let mut date: i64 = 0;
            let mut bundle_id: Option<String> = None;

            if let Some(bundle_id_value) = dict.get("app") {
                if let Some(bundle_id_str) = bundle_id_value.as_string() {
                    bundle_id = Some(bundle_id_str.to_owned());
                }
            }

            if let Some(date_value) = dict.get("date") {
                if let Some(seconds) = real_seconds(date_value) {
                    date = seconds;
                }
            }

            if let Some(req_value) = dict.get("req") {
                if let Some(req_dict) = req_value.as_dictionary() {
                    if let Some(title_value) = req_dict.get("titl") {
                        if let Some(title_str) = title_value.as_string() {
                            title = title_str.to_owned();
                        }
                    }

                    if let Some(subtitle_value) = req_dict.get("subt") {
                        if let Some(subtitle_str) = subtitle_value.as_string() {
                            subtitle = Some(subtitle_str.to_owned());
                        }
                    }

                    if let Some(body_value) = req_dict.get("body") {
                        if let Some(body_str) = body_value.as_string() {
                            body = body_str.to_owned();
                        }
                    }
                }
            }

            Some(Notification { id: rowid, title, subtitle, body, date, bundle_id })
        },
        None => None,
    }
}

/// Decodes the payload of row `row_id`.
///
/// Fails with `NotAStructuredPayload` exactly when the bytes are no binary
/// property list, and with `UnexpectedShape` exactly when they are one whose
/// top level is not a dictionary. Otherwise it succeeds, whatever is missing.
pub fn decode(bytes: &[u8], row_id: i64) -> (decoded: Result<Notification, DecodeFailure>)
    ensures
        outcome_view(decoded) == decode_spec(bytes@, row_id as int),
{
    if !starts_as_binary_plist(bytes) {
        return Err(DecodeFailure::NotAStructuredPayload { raw_hex: hex_encode(bytes) });
    }
    match read_plist(bytes) {
        Ok(value) => match parse_notification_from_plist(&value, row_id) {
            Some(notification) => Ok(notification),
            None => Err(DecodeFailure::UnexpectedShape),
        },
        Err(_) => Err(DecodeFailure::NotAStructuredPayload { raw_hex: hex_encode(bytes) }),
    }
}

} // verus!
