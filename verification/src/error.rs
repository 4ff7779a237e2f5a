//! The client's single error type, and the kinds of failure it tells apart.

use vstd::prelude::*;
use vstd::string::*;

verus! {

/// `serde_json::Error`, carried through as an opaque value.
#[verifier::external_type_specification]
#[verifier::external_body]
pub struct ExJsonError(serde_json::Error);

/// `rumqttc::ClientError`, carried through as an opaque value.
#[verifier::external_type_specification]
#[verifier::external_body]
pub struct ExClientError(rumqttc::ClientError);

/// Where a failure was first seen.
#[derive(Clone, Copy, Debug, PartialEq, Eq, Structural)]
pub enum Fault {
    /// The sensor could not produce a value.
    Sensor,
    /// A reading could not be turned into a payload.
    Encoding,
    /// A payload could not be turned back into a reading.
    Decoding,
    /// The connection to the broker refused or lost a request.
    Transport,
}

/// A failure of one step of the client, with the text that describes it.
#[derive(Clone, Debug, PartialEq, Eq)]
pub struct SensorError {
    pub kind: Fault,
    pub message: String,
}

/// A `SensorError` as contracts see it.
pub struct SensorErrorView {
    pub kind: Fault,
    pub message: Seq<char>,
}

impl SensorErrorView {
    /// The line a `SensorError` is shown as.
    pub open spec fn text(self) -> Seq<char> {
        "A sensor error happened: "@ + self.message
    }
}

impl View for SensorError {
    type V = SensorErrorView;

    open spec fn view(&self) -> SensorErrorView {
        SensorErrorView { kind: self.kind, message: self.message@ }
    }
}

/// Whether `text` is what the `Display` impl of `serde_json::Error` writes for
/// `e`. Nothing more is known of that text here: it depends on the error's
/// code, line and column, and for an I/O error on the platform's wording.
pub open spec fn shown_as(e: &serde_json::Error, text: String) -> bool {
    to_string_from_display_ensures::<serde_json::Error>(e, text)
}

/// The text that `rumqttc::ClientError` is displayed as.
pub open spec fn client_error_text() -> Seq<char> {
    "Failed to send mqtt requests to eventloop"@
}

/// Formats a `rumqttc::ClientError` with its `Display` impl, which
/// `thiserror` derives from the `#[error(..)]` attribute of each variant.
/// Both variants, `Request` and `TryRequest`, carry the same fixed text with
/// no field in it, and the contract says that the result is that text.
#[verifier::external_body]
fn display_client_error(e: &rumqttc::ClientError) -> (text: String)
    ensures
        text@ == client_error_text(),
{
    e.to_string()
}

impl SensorError {
    /// A sensor fault with the given message.
    pub fn new(msg: &str) -> (e: SensorError)
        ensures
            e@ == (SensorErrorView { kind: Fault::Sensor, message: msg@ }),
    {
        SensorError { kind: Fault::Sensor, message: String::from_str(msg) }
    }

    /// The decoding fault that a failed `serde_json` parse stands for.
    pub fn decoding(value: serde_json::Error) -> (e: SensorError)
        ensures
            e.kind == Fault::Decoding,
            shown_as(&value, e.message),
    {
        SensorError { kind: Fault::Decoding, message: value.to_string() }
    }

    /// The line this error is shown as: a fixed prefix, then the message.
    pub fn to_string(&self) -> (text: String)
        ensures
            text@ == self@.text(),
    {
        let mut text = String::from_str("A sensor error happened: ");
        text.append(self.message.as_str());
        text
    }
}

impl From<serde_json::Error> for SensorError {
    /// The encoding fault that a failed `serde_json` serialisation stands for.
    fn from(value: serde_json::Error) -> (e: SensorError)
        ensures
            e.kind == Fault::Encoding,
            shown_as(&value, e.message),
    {
        SensorError { kind: Fault::Encoding, message: value.to_string() }
    }
}

impl vstd::std_specs::convert::FromSpecImpl<serde_json::Error> for SensorError {
    /// The message is tied to the source error by a relation, not by a
    /// function, so the conversion is described by the `ensures` of `from`.
    open spec fn obeys_from_spec() -> bool {
        false
    }

    open spec fn from_spec(v: serde_json::Error) -> SensorError {
        arbitrary()
    }
}

impl From<rumqttc::ClientError> for SensorError {
    /// The transport fault that a refused request stands for.
    fn from(value: rumqttc::ClientError) -> (e: SensorError)
        ensures
            e@ == (SensorErrorView { kind: Fault::Transport, message: client_error_text() }),
    {
        SensorError { kind: Fault::Transport, message: display_client_error(&value) }
    }
}

impl vstd::std_specs::convert::FromSpecImpl<rumqttc::ClientError> for SensorError {
    /// Two strings with equal contents need not be the same value, so the
    /// conversion is described over the view, by the `ensures` of `from`.
    open spec fn obeys_from_spec() -> bool {
        false
    }

    open spec fn from_spec(v: rumqttc::ClientError) -> SensorError {
        arbitrary()
    }
}

} // verus!
