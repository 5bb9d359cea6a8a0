use bytes::BytesMut;
use irongate::sse::data::Data;
use irongate::sse::event::Event;
use irongate::sse::responder::Polled;
use irongate::sse::responder::Sse;
use irongate::sse::stream::as_success;
use irongate::sse::stream::InfallibleStream;
use std::time::Duration;

#[test]
fn format_retry_message() {
    assert_eq!(Event::retry_to_bytes(Duration::from_millis(1).as_millis()), "retry: 1\n\n",);
    assert_eq!(Event::retry_to_bytes(Duration::from_secs(10).as_millis()), "retry: 10000\n\n",);
}

#[test]
fn line_split_format() {
    let mut buf = BytesMut::new();
    Event::line_split_with_prefix(&mut buf, "data: ", "foo");
    assert_eq!(buf, "data: foo\n");

    let mut buf = BytesMut::new();
    Event::line_split_with_prefix(&mut buf, "data: ", "foo\nbar");
    assert_eq!(buf, "data: foo\ndata: bar\n");
}

#[test]
fn into_bytes_format() {
    assert_eq!(Event::Comment("foo".into()).into_bytes(), ": foo\n\n");

    assert_eq!(
        Event::Data(Data { id: None, event: None, data: "foo".into() }).into_bytes(),
        "data: foo\n\n"
    );

    assert_eq!(
        Event::Data(Data { id: None, event: None, data: "\n".into() }).into_bytes(),
        "data: \ndata: \n\n"
    );

    assert_eq!(
        Event::Data(Data { id: Some("42".into()), event: None, data: "foo".into() }).into_bytes(),
        "id: 42\ndata: foo\n\n"
    );

    assert_eq!(
        Event::Data(Data { id: None, event: Some("bar".into()), data: "foo".into() }).into_bytes(),
        "event: bar\ndata: foo\n\n"
    );

    assert_eq!(
        Event::Data(Data { id: Some("42".into()), event: Some("bar".into()), data: "foo".into() })
            .into_bytes(),
        "id: 42\nevent: bar\ndata: foo\n\n"
    );
}

#[test]
fn retry_is_first_msg() {
    let mut sse = Sse::from_stream(()).with_retry_duration(Duration::from_millis(42).as_millis());
    match sse.take_retry() {
        Some(bytes) => assert_eq!(bytes, "retry: 42\n\n"),
        res => panic!("poll should return retry message, got {res:?}"),
    }
    // the retry message is sent once
    assert!(sse.take_retry().is_none());
}

#[test]
fn line_split_appends_to_what_the_buffer_holds() {
    let mut buf = BytesMut::new();
    Event::line_split_with_prefix(&mut buf, ": ", "a");
    Event::line_split_with_prefix(&mut buf, "data: ", "");
    Event::line_split_with_prefix(&mut buf, "", "x\n\ny\n");
    assert_eq!(buf, ": a\ndata: \nx\n\ny\n\n");
}

#[test]
fn builders_set_fields() {
    let message = Data::new("payload".to_string()).id("7".to_string()).event("tick".to_string());
    assert_eq!(message.id.as_deref(), Some("7"));
    assert_eq!(message.event.as_deref(), Some("tick"));
    assert_eq!(message.data, "payload");
    assert_eq!(Event::from(message).into_bytes(), "id: 7\nevent: tick\ndata: payload\n\n");
    assert_eq!(Event::Data(Data::new("é\nü".to_string())).into_bytes(), "data: é\ndata: ü\n\n");
}

#[test]
fn keep_alive_message() {
    assert_eq!(Event::keep_alive_bytes(), ": keep-alive\n\n");
    let quiet = Sse::from_stream(());
    assert!(quiet.idle(true).is_none());
    assert_eq!(quiet.keep_alive_period(), None);
    let alive = Sse::from_stream(()).with_keep_alive(4);
    assert_eq!(alive.keep_alive_period(), Some(4));
    assert!(alive.idle(false).is_none());
    assert_eq!(alive.idle(true).unwrap(), ": keep-alive\n\n");
}

#[test]
fn stream_items_are_delivered() {
    let sse = Sse::from_stream(());
    match sse.deliver::<String>(Some(Ok(Event::Data(Data::new("foo".to_string()))))) {
        Polled::Message(bytes) => assert_eq!(bytes, "data: foo\n\n"),
        _ => panic!("an event is a message"),
    }
    match sse.deliver(Some(Err("broken".to_string()))) {
        Polled::Failed(e) => assert_eq!(e, "broken"),
        _ => panic!("a failure is passed on"),
    }
    assert!(matches!(sse.deliver::<String>(None), Polled::Finished));
}

#[test]
fn responder_parts() {
    let sse = Sse::from_infallible_stream(5u8).with_retry_duration(3000);
    let (stream, keep_alive, retry) = sse.into_parts();
    assert_eq!(stream.into_inner(), 5);
    assert_eq!(keep_alive, None);
    assert_eq!(retry, Some(3000));
    assert_eq!(as_success::<u8, String>(Some(1)), Some(Ok(1)));
    assert_eq!(as_success::<u8, String>(None), None);
    assert_eq!(InfallibleStream::new(3u8).into_inner(), 3);
    assert!(Event::Comment("x".to_string()).fits());
    assert_eq!(Event::Comment("x".to_string()).try_into_bytes().unwrap(), ": x\n\n");
    assert_eq!(Event::retry_to_bytes(0), "retry: 0\n\n");
    assert_eq!(
        Event::retry_to_bytes(u128::MAX),
        "retry: 340282366920938463463374607431768211455\n\n"
    );
}

#[test]
fn checked_line_split() {
    let mut buf = BytesMut::new();
    assert!(Event::try_line_split_with_prefix(&mut buf, "data: ", "a\nb"));
    assert_eq!(buf, "data: a\ndata: b\n");
}
