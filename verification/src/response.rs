//! The response envelope `{code, data, message}` and its decoding.

use vstd::prelude::*;
use vstd::slice::*;
use crate::error::{Error, ErrorView};
use crate::json::{
    find_member, get_integer, get_string, integer_member, json_members, member_value,
    read_members, string_member,
};

verus! {

/// The envelope that wraps every response of the API.
#[derive(Debug, Clone, PartialEq, Eq)]
pub struct Envelope {
    /// Zero for success; anything else is a failure that the exchange
    /// reports.
    pub code: i32,
    /// The payload, as JSON text.
    pub data: Vec<u8>,
    pub message: String,
}

/// An `Envelope` with its contents as sequences.
pub struct EnvelopeView {
    pub code: i32,
    pub data: Seq<u8>,
    pub message: Seq<char>,
}

impl View for Envelope {
    type V = EnvelopeView;

    open spec fn view(&self) -> EnvelopeView {
        EnvelopeView { code: self.code, data: self.data@, message: self.message@ }
    }
}

/// Whether an HTTP status is in the success range.
pub open spec fn is_success(status: u16) -> bool {
    200 <= status <= 299
}

/// The envelope that `body` holds: a JSON object with an integer `code` of
/// 32 bits, a `data` of any shape and a string `message`. Members of other
/// names are passed over.
pub open spec fn envelope_of(body: Seq<u8>) -> Option<EnvelopeView> {
    match json_members(body) {
        None => None,
        Some(members) => match (
            integer_member(members, "code"@),
            member_value(members, "data"@),
            string_member(members, "message"@),
        ) {
            (Some(code), Some(data), Some(message)) => if i32::MIN <= code <= i32::MAX {
                Some(EnvelopeView { code: code as i32, data, message })
            } else {
                None
            },
            _ => None,
        },
    }
}

/// What an envelope gives its reader: the payload where the code is zero,
/// else the failure that the exchange reports.
pub open spec fn envelope_outcome(envelope: EnvelopeView) -> Result<Seq<u8>, ErrorView> {
    if envelope.code == 0 {
        Ok(envelope.data)
    } else {
        Err(ErrorView::Api { code: envelope.code, message: envelope.message })
    }
}

/// What a response gives its reader. A status outside the success range is
/// a transport failure whatever the body holds; a body that holds no
/// envelope is malformed; else the envelope decides.
pub open spec fn response_model(status: u16, body: Seq<u8>) -> Result<Seq<u8>, ErrorView> {
    if !is_success(status) {
        Err(ErrorView::Transport { status, body })
    } else {
        match envelope_of(body) {
            None => Err(ErrorView::MalformedResponse),
            Some(envelope) => envelope_outcome(envelope),
        }
    }
}

/// Whether `r` is the outcome `model`, success and failure alike.
pub open spec fn is_payload(r: Result<Vec<u8>, Error>, model: Result<Seq<u8>, ErrorView>) -> bool {
    match (r, model) {
        (Ok(data), Ok(view)) => data@ == view,
        (Err(e), Err(view)) => e@ == view,
        _ => false,
    }
}

/// Refuses a response whose status is outside the success range, with the
/// status and the body as they came.
pub fn check_status(status: u16, body: &[u8]) -> (r: Result<(), Error>)
    ensures
        match r {
            Ok(_) => is_success(status),
            Err(e) => !is_success(status) && e@ == (ErrorView::Transport { status, body: body@ }),
        },
{
    if 200 <= status && status <= 299 {
        Ok(())
    } else {
        Err(Error::Transport { status, body: slice_to_vec(body) })
    }
}

/// Reads the envelope that `body` holds, if it holds one.
pub fn read_envelope(body: &[u8]) -> (r: Option<Envelope>)
    ensures
        match r {
            Some(envelope) => envelope_of(body@) == Some(envelope@),
            None => envelope_of(body@).is_none(),
        },
{
    let members = match read_members(body) {
        Some(m) => m,
        None => {
            return None;
        },
    };
    let code = get_integer(&members, "code");
    let data = find_member(&members, "data");
    let message = get_string(&members, "message");
    match (code, data, message) {
        (Some(code), Some(at), Some(message)) => {
            if -0x8000_0000 <= code && code <= 0x7fff_ffff {
                let data = slice_to_vec(members[at].value.as_slice());
                Some(Envelope { code: code as i32, data, message })
            } else {
                None
            }
        },
        _ => None,
    }
}

/// Opens an envelope: the payload, unchanged, where the code is zero; else
/// the code and the message as an `Api` error.
pub fn open_envelope(envelope: Envelope) -> (r: Result<Vec<u8>, Error>)
    ensures
        is_payload(r, envelope_outcome(envelope@)),
{
    if envelope.code != 0 {
        Err(Error::Api { code: envelope.code, message: envelope.message })
    } else {
        Ok(envelope.data)
    }
}

/// Decodes a response from its HTTP status and its body.
///
/// The envelope is not read where the status is outside the success range.
pub fn decode_response(status: u16, body: &[u8]) -> (r: Result<Vec<u8>, Error>)
    ensures
        is_payload(r, response_model(status, body@)),
{
    match check_status(status, body) {
        Err(e) => Err(e),
        Ok(_) => match read_envelope(body) {
            None => Err(Error::MalformedResponse),
            Some(envelope) => open_envelope(envelope),
        },
    }
}

} // verus!
