//! R9K HTTP connector: receives R9K SOAP requests and forwards the train
//! update they carry to the R9K adapter topic.

use vstd::prelude::*;
use crate::decimal::{nat_decimal, u64_to_string};
use crate::text::{contains, seq_contains};
use crate::xml::{element, element_spec, escape_text, escape_text_spec};

verus! {

/// Topic that R9K train updates are forwarded to.
pub const R9K_TOPIC: &'static str = "realtime-r9k.v1";

/// R9K SOAP envelope for incoming `ReceiveMessage` requests.
#[derive(Clone, Debug)]
pub struct R9kRequest {
    /// SOAP body.
    pub body: Body,
}

/// R9K SOAP body for `ReceiveMessage` requests.
#[derive(Clone, Debug)]
pub struct Body {
    pub receive_message: ReceiveMessage,
}

/// R9K SOAP wrapper for train position messages.
#[derive(Clone, Debug)]
pub struct ReceiveMessage {
    pub axml_message: String,
}

/// R9K SOAP reply (`<Return>..</Return>`).
#[derive(Clone, Copy, Debug)]
pub struct R9kReply(pub &'static str);

/// SOAP fault.
#[derive(Clone, Copy, Debug)]
pub struct Fault {
    pub status_code: u16,
    pub response: FaultMessage,
}

/// SOAP fault message.
#[derive(Clone, Copy, Debug)]
pub struct FaultMessage {
    pub message: &'static str,
}

/// Errors of the connector.
#[derive(Clone, Debug, PartialEq, Eq)]
pub enum R9kError {
    /// The XML is invalid.
    InvalidXml(String),
}

/// The fault sent back for requests that cannot be forwarded.
pub fn error_fault() -> (f: Fault)
    ensures
        f.status_code == 500,
        f.response.message@ == "Internal Server Error"@,
{
    Fault { status_code: 500, response: FaultMessage { message: "Internal Server Error" } }
}

/// A message that carries an R9K train update: non-empty and holding an
/// `<ActualizarDatosTren>` element.
pub open spec fn is_train_update_spec(message: Seq<char>) -> bool {
    message.len() > 0 && seq_contains(message, "<ActualizarDatosTren>"@)
}

/// The XML of a fault.
pub open spec fn fault_xml(status_code: u16, message: Seq<char>) -> Seq<char> {
    element_spec("Fault"@,
        element_spec("StatusCode"@, nat_decimal(status_code as nat))
        + element_spec("Response"@, element_spec("Message"@, escape_text_spec(message))))
}

/// What the connector does with a request.
#[derive(Clone, Debug)]
pub enum Forward {
    /// Publish the train update on the topic.
    Publish { topic: &'static str, payload: String },
    /// Reject the request as a bad request carrying the fault's XML.
    Reject { fault: String },
}

impl R9kError {
    /// Returns the error code.
    pub fn code(&self) -> (r: String)
        ensures
            r@ == "invalid_message"@,
    {
        match self {
            R9kError::InvalidXml(_) => String::from_str("invalid_message"),
        }
    }

    /// What the error displays: its detail.
    pub fn to_string(&self) -> (r: String)
        ensures
            r@ == match self { R9kError::InvalidXml(s) => s@ },
    {
        match self {
            R9kError::InvalidXml(s) => s.clone(),
        }
    }
}

impl Fault {
    /// The fault rendered as XML (what it displays).
    pub fn to_string(&self) -> (r: String)
        ensures
            r@ == fault_xml(self.status_code, self.response.message@),
    {
        let code = u64_to_string(self.status_code as u64);
        let status = element("StatusCode", code.as_str());
        let text = escape_text(self.response.message);
        let message = element("Message", text.as_str());
        let response = element("Response", message.as_str());
        let inner = status.concat(response.as_str());
        element("Fault", inner.as_str())
    }
}

impl R9kReply {
    /// The reply rendered as XML.
    pub fn into_body(self) -> (r: Vec<u8>)
        ensures
            r@ == vstd::utf8::encode_utf8(element_spec("Return"@, escape_text_spec(self.0@))),
    {
        let text = escape_text(self.0);
        let xml = element("Return", text.as_str());
        vstd::slice::slice_to_vec(xml.as_str().as_bytes())
    }
}

/// Whether the message carries an R9K train update.
pub fn is_train_update(message: &str) -> (r: bool)
    ensures
        r == is_train_update_spec(message@),
{
    !message.is_empty() && contains(message, "<ActualizarDatosTren>")
}

/// Decides what to do with a request: forward its message to the R9K
/// topic when it carries a train update, reject it with the fault otherwise.
pub fn route(request: &R9kRequest) -> (r: Forward)
    ensures
        match r {
            Forward::Publish { topic, payload } =>
                is_train_update_spec(request.body.receive_message.axml_message@)
                && topic@ == R9K_TOPIC@ && payload@ == request.body.receive_message.axml_message@,
            Forward::Reject { fault } =>
                !is_train_update_spec(request.body.receive_message.axml_message@)
                && fault@ == fault_xml(500, "Internal Server Error"@),
        },
{
    let message = &request.body.receive_message.axml_message;
    if !is_train_update(message.as_str()) {
        return Forward::Reject { fault: error_fault().to_string() };
    }
    Forward::Publish { topic: R9K_TOPIC, payload: message.clone() }
}


/// A message carries a train update exactly when an `<ActualizarDatosTren>`
/// element occurs in it.
pub proof fn train_update_by_element(message: Seq<char>)
    ensures
        is_train_update_spec(message) <==> seq_contains(message, "<ActualizarDatosTren>"@),
{
    reveal_strlit("<ActualizarDatosTren>");
    if seq_contains(message, "<ActualizarDatosTren>"@) {
        let i = choose|i: int| crate::text::occurs_at(message, "<ActualizarDatosTren>"@, i);
        assert(message.len() > 0);
    }
}

} // verus!
