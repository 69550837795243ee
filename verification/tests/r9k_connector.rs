use at_realtime::r9k_connector::{error_fault, route, Body, Forward, R9kReply, R9kRequest, ReceiveMessage, R9K_TOPIC};

#[test]
fn serialize_error() {
    let xml = error_fault().to_string();
    assert_eq!(
        xml,
        "<Fault><StatusCode>500</StatusCode><Response><Message>Internal Server Error</Message></Response></Fault>"
    );
}

#[test]
fn serialize_ok() {
    let xml = R9kReply("OK").into_body();
    let xml = String::from_utf8(xml).expect("should be UTF-8");
    assert_eq!(xml, "<Return>OK</Return>");
}

#[test]
fn reply_escapes_markup() {
    let xml = String::from_utf8(R9kReply("a<b&c").into_body()).expect("should be UTF-8");
    assert_eq!(xml, "<Return>a&lt;b&amp;c</Return>");
}

fn request(message: &str) -> R9kRequest {
    R9kRequest { body: Body { receive_message: ReceiveMessage { axml_message: message.to_string() } } }
}

#[test]
fn train_updates_are_forwarded() {
    let message = "<ActualizarDatosTren><x/></ActualizarDatosTren>";
    match route(&request(message)) {
        Forward::Publish { topic, payload } => {
            assert_eq!(topic, R9K_TOPIC);
            assert_eq!(payload, message);
        }
        Forward::Reject { .. } => panic!("should forward"),
    }
}

#[test]
fn other_messages_are_rejected() {
    for message in ["", "<Other/>"] {
        match route(&request(message)) {
            Forward::Reject { fault } => assert_eq!(fault, error_fault().to_string()),
            Forward::Publish { .. } => panic!("should reject"),
        }
    }
}
