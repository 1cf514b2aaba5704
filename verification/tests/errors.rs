use mls_streams::{ClientError, LocalEventError, SourceError, SubscribeError};

fn source(retryable: bool) -> SourceError {
    SourceError { message: "boom".to_string(), retryable }
}

#[test]
fn local_event_error_is_retryable() {
    assert!(LocalEventError::Send("closed".to_string()).is_retryable());
}

#[test]
fn client_error_retryability() {
    assert!(!ClientError::Generic("x".to_string()).is_retryable());
    assert!(ClientError::Source(source(true)).is_retryable());
    assert!(!ClientError::Source(source(false)).is_retryable());
}

#[test]
fn group_message_not_found_is_retryable() {
    assert!(SubscribeError::GroupMessageNotFound.is_retryable());
}

#[test]
fn decode_error_is_terminal() {
    assert!(!SubscribeError::Decode(prost::DecodeError::new("bad wire type")).is_retryable());
}

#[test]
fn decode_failure_becomes_generic_error_with_the_decoders_text() {
    let error = prost::DecodeError::new("invalid varint");
    assert_eq!(
        ClientError::from_decode_error(&error),
        ClientError::Generic("failed to decode Protobuf message: invalid varint".to_string())
    );
    assert!(!ClientError::from_decode_error(&error).is_retryable());
}

#[test]
fn question_mark_conversions() {
    let client = ClientError::Generic("x".to_string());
    assert_eq!(SubscribeError::from(client.clone()), SubscribeError::Client(client));
    let decode = prost::DecodeError::new("truncated");
    assert_eq!(SubscribeError::from(decode.clone()), SubscribeError::Decode(decode));
}

#[test]
fn client_errors_in_a_stream_follow_the_client() {
    for flag in [true, false] {
        assert_eq!(
            SubscribeError::FailedToStartNewMessagesStream(ClientError::Source(source(flag)))
                .is_retryable(),
            flag
        );
        assert_eq!(SubscribeError::Client(ClientError::Source(source(flag))).is_retryable(), flag);
    }
    assert!(!SubscribeError::Client(ClientError::Generic("x".to_string())).is_retryable());
    assert!(
        !SubscribeError::FailedToStartNewMessagesStream(ClientError::Generic("x".to_string()))
            .is_retryable()
    );
}

#[test]
fn collaborator_errors_are_retryable_whatever_their_flag() {
    for flag in [true, false] {
        assert!(SubscribeError::Group(source(flag)).is_retryable());
        assert!(SubscribeError::ReceiveGroup(source(flag)).is_retryable());
        assert!(SubscribeError::Database(source(flag)).is_retryable());
        assert!(SubscribeError::Storage(source(flag)).is_retryable());
        assert!(SubscribeError::Api(source(flag)).is_retryable());
    }
}

#[test]
fn database_error_from_its_text() {
    let e = SubscribeError::database("disk full".to_string());
    assert_eq!(
        e,
        SubscribeError::Database(SourceError { message: "disk full".to_string(), retryable: true })
    );
    assert!(e.is_retryable());
    assert_eq!(e.message(), "disk full");
}

#[test]
fn local_event_error_text() {
    assert_eq!(
        LocalEventError::Send("channel closed".to_string()).message(),
        "Unable to send event: channel closed"
    );
}

#[test]
fn client_error_text() {
    assert_eq!(ClientError::Generic("bad welcome".to_string()).message(), "bad welcome");
    assert_eq!(ClientError::Source(source(true)).message(), "boom");
}

#[test]
fn subscribe_error_texts() {
    let generic = || ClientError::Generic("down".to_string());
    assert_eq!(
        SubscribeError::FailedToStartNewMessagesStream(generic()).message(),
        "failed to start new messages stream down"
    );
    assert_eq!(SubscribeError::Client(generic()).message(), "down");
    assert_eq!(SubscribeError::Group(source(true)).message(), "boom");
    assert_eq!(
        SubscribeError::GroupMessageNotFound.message(),
        "group message expected in database but is missing"
    );
    assert_eq!(
        SubscribeError::ReceiveGroup(source(false)).message(),
        "processing group message in stream: boom"
    );
    assert_eq!(SubscribeError::Database(source(true)).message(), "boom");
    assert_eq!(SubscribeError::Storage(source(true)).message(), "boom");
    assert_eq!(SubscribeError::Api(source(true)).message(), "boom");
    assert_eq!(
        SubscribeError::Decode(prost::DecodeError::new("invalid varint")).message(),
        "failed to decode Protobuf message: invalid varint"
    );
}
