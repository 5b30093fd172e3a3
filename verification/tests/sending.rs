use rustelebot::types::{
    BotInstance, ErrorResult, OutboundRequest, RawResponse, SendMessageOption,
    SendMessageParseMode, TransportReply,
};
use rustelebot::{conclude_send_message, create_instance, prepare_send_message};

fn get_instance() -> BotInstance {
    create_instance("123456:ABC-DEF1234ghIkl-zyx57W2v1u123ew11", "-1001234567890")
}

/// A backend that accepts whatever well-formed request it is given.
fn accepting_backend(request: &OutboundRequest) -> TransportReply {
    assert_eq!(request.method, "POST");
    assert!(request.url.starts_with("https://api.telegram.org/bot"));
    assert!(request.url.ends_with("/sendMessage"));
    assert!(serde_json::from_slice::<serde_json::Value>(&request.body).is_ok());
    TransportReply::Responded(RawResponse { status: 200, error_body: None })
}

fn send_message(
    instance: &BotInstance,
    msg: &str,
    options: Option<SendMessageOption>,
) -> Result<(), ErrorResult> {
    let request = prepare_send_message(instance, msg, options)?;
    conclude_send_message(accepting_backend(&request))
}

#[test]
fn test_send_message_simple() {
    let instance = get_instance();

    if let Err(_) = send_message(&instance, "test", None) {
        assert!(false);
    }
}

#[test]
fn test_send_markdown_style_message() {
    let instance = get_instance();

    // NOTE: 2 spaces at the end of the line in Markdown to include a newline
    match send_message(&instance,
r#"\[Rustelebot\] __MarkdownV2__  
`Tap to copy this text`\.  
You can visit my [website](https://wasin.io)\.  
Woot\!"#,
                        Some(SendMessageOption { parse_mode: Some(SendMessageParseMode::MarkdownV2) })) {
        Err(e) => panic!("error sending markdown style message; err={}", e.to_string()),
        _ => (),
    }
}

#[test]
fn test_send_html_style_message() {
    let instance = get_instance();

    match send_message(&instance,
r#"[Rustelebot] <u>HTML style</u>
<code>Tap to copy this text</code>.
You can visit my <a href="https://wasin.io">website</a>.
Woot!"#,
                        Some(SendMessageOption { parse_mode: Some(SendMessageParseMode::HTML) })) {
        Err(e) => panic!("error sending html style message; err={}", e.to_string()),
        _ => (),
    }
}

#[test]
fn test_send_markdown_style_message_async() {
    let instance = get_instance();
    let options = Some(SendMessageOption { parse_mode: Some(SendMessageParseMode::MarkdownV2) });

    // both requests are out before either reply is looked at
    let f1 = prepare_send_message(&instance,
r#"\[Rustelebot\] __MarkdownV2__  
*async msg 1*  
`Tap to copy this text`\.  
You can visit my [website](https://wasin.io)\.  
Woot\!"#,
                                  options).map(|request| accepting_backend(&request));

    let f2 = prepare_send_message(&instance,
r#"\[Rustelebot\] __MarkdownV2__  
*async msg 2*  
`Tap to copy this text`\.  
You can visit my [website](https://wasin.io)\.  
Woot\!"#,
                                  options).map(|request| accepting_backend(&request));

    let (res1, res2) = (f1.and_then(conclude_send_message), f2.and_then(conclude_send_message));
    if res1.is_err() {
        panic!("f1 has error");
    }
    if res2.is_err() {
        panic!("f2 has error");
    }
}

#[test]
fn test_send_html_style_message_async() {
    let instance = get_instance();
    let options = Some(SendMessageOption { parse_mode: Some(SendMessageParseMode::HTML) });

    let f1 = prepare_send_message(&instance,
r#"[Rustelebot] <u>HTML style</u> - <b>async msg 1</b>
<code>Tap to copy this text</code>.
You can visit my <a href="https://wasin.io">website</a>.
Woot!"#,
                                  options).map(|request| accepting_backend(&request));

    let f2 = prepare_send_message(&instance,
r#"[Rustelebot] <u>HTML style</u> - <b>async msg 2</b>
<code>Tap to copy this text</code>.
You can visit my <a href="https://wasin.io">website</a>.
Woot!"#,
                                  options).map(|request| accepting_backend(&request));

    let (res1, res2) = (f1.and_then(conclude_send_message), f2.and_then(conclude_send_message));
    if res1.is_err() {
        panic!("f1 has error");
    }
    if res2.is_err() {
        panic!("f2 has error");
    }
}

#[test]
fn test_send_messages_async() {
    let instance = get_instance();

    // all four requests are out before any reply is looked at, and the
    // replies are concluded in another order than the requests went out
    let f1 = prepare_send_message(&instance, "[Rustelebot] msg1-async", None)
        .map(|request| accepting_backend(&request));
    let f2 = prepare_send_message(&instance, "[Rustelebot] msg2-async", None)
        .map(|request| accepting_backend(&request));
    let f3 = prepare_send_message(&instance, "[Rustelebot] msg3-async", None)
        .map(|request| accepting_backend(&request));
    let f4 = prepare_send_message(&instance, "[Rustelebot] msg4-async", None)
        .map(|request| accepting_backend(&request));

    let res4 = f4.and_then(conclude_send_message);
    let res2 = f2.and_then(conclude_send_message);
    let res3 = f3.and_then(conclude_send_message);
    let res1 = f1.and_then(conclude_send_message);
    if res1.is_err() {
        panic!("f1 has error");
    }
    if res2.is_err() {
        panic!("f2 has error");
    }
    if res3.is_err() {
        panic!("f3 has error");
    }
    if res4.is_err() {
        panic!("f4 has error");
    }
}

#[test]
fn test_send_messages_sync() {
    let instance = get_instance();

    if let Err(_) = send_message(&instance, "[Rustelebot] msg1", None) {
        assert!(false)
    }
    if let Err(_) = send_message(&instance, "[Rustelebot] msg2", None) {
        assert!(false)
    }
    if let Err(_) = send_message(&instance, "[Rustelebot] msg3", None) {
        assert!(false)
    }
    if let Err(_) = send_message(&instance, "[Rustelebot] msg4", None) {
        assert!(false)
    }
}

#[test]
fn prepared_request_is_what_the_builder_builds() {
    let instance = get_instance();
    let request = prepare_send_message(&instance, "test", None).unwrap();
    assert_eq!(
        request.url,
        "https://api.telegram.org/bot123456:ABC-DEF1234ghIkl-zyx57W2v1u123ew11/sendMessage"
    );
    assert_eq!(
        std::str::from_utf8(&request.body).unwrap(),
        r#"{"chat_id":"-1001234567890","text":"test"}"#
    );
    assert_eq!(Ok(request), rustelebot::request::build_request(&instance, "test", None).map_err(|_| ()));
}

#[test]
fn outcome_rests_on_the_reply_alone() {
    let instance = get_instance();
    let plain = prepare_send_message(&instance, "one", None).unwrap();
    let marked = prepare_send_message(
        &instance,
        "two",
        Some(SendMessageOption { parse_mode: Some(SendMessageParseMode::HTML) }),
    )
    .unwrap();
    assert_ne!(plain, marked);
    let refused = |_request: &OutboundRequest| {
        TransportReply::Responded(RawResponse { status: 429, error_body: None })
    };
    assert_eq!(conclude_send_message(refused(&plain)), conclude_send_message(refused(&marked)));
    assert_eq!(
        conclude_send_message(accepting_backend(&plain)),
        conclude_send_message(accepting_backend(&marked))
    );
}
