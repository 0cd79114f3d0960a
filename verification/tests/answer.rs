use songrec::answer::{
    cover_image, document_outcome, interpret_exchange, interpret_response, read_answer,
    HttpAnswer, RecognitionError,
};

#[test]
fn rate_limit_is_never_parsed() {
    let track = b"{\"track\":{\"key\":\"1\"}}";
    assert!(matches!(interpret_response(429, track), Err(RecognitionError::RateLimited)));
    assert!(matches!(interpret_response(429, b"not json"), Err(RecognitionError::RateLimited)));
    assert!(matches!(interpret_response(429, b""), Err(RecognitionError::RateLimited)));
}

#[test]
fn json_answer_is_handed_back_compact() {
    let answer = interpret_response(200, b" { \"track\" : { \"key\" : \"1\" } , \"a\" : [ 1 , 2 ] } ");
    match answer {
        Ok(payload) => assert_eq!(payload, "{\"a\":[1,2],\"track\":{\"key\":\"1\"}}"),
        Err(error) => panic!("unexpected error {:?}", error),
    }
}

#[test]
fn any_status_but_the_rate_limit_is_parsed() {
    assert!(matches!(interpret_response(500, b"{}"), Ok(_)));
    assert!(matches!(interpret_response(404, b"[]"), Ok(_)));
    assert!(matches!(interpret_response(0, b"null"), Ok(_)));
}

#[test]
fn malformed_answer_is_an_error() {
    match interpret_response(200, b"<html>") {
        Err(RecognitionError::MalformedResponse(text)) => assert!(!text.is_empty()),
        other => panic!("unexpected outcome {:?}", other),
    }
    assert!(matches!(
        interpret_response(200, b""),
        Err(RecognitionError::MalformedResponse(_))
    ));
    assert!(matches!(
        interpret_response(200, b"{} trailing"),
        Err(RecognitionError::MalformedResponse(_))
    ));
}

#[test]
fn document_outcome_maps_both_sides() {
    let document = serde_json::from_str::<serde_json::Value>("{\"a\":[1]}").unwrap();
    assert!(matches!(document_outcome(Ok(document.clone())), Ok(kept) if kept == document));
    let error = serde_json::from_str::<serde_json::Value>("{").unwrap_err();
    let described = error.to_string();
    match document_outcome(Err(error)) {
        Err(RecognitionError::MalformedResponse(text)) => assert_eq!(text, described),
        other => panic!("unexpected outcome {:?}", other),
    }
}

#[test]
fn read_answer_gives_the_document() {
    let document = read_answer(200, b"{\"track\": {\"key\": \"7\"}}").unwrap();
    assert_eq!(document.pointer("/track/key").and_then(|key| key.as_str()), Some("7"));
    assert!(matches!(read_answer(429, b"{}"), Err(RecognitionError::RateLimited)));
    assert!(matches!(read_answer(200, b"{"), Err(RecognitionError::MalformedResponse(_))));
}

#[test]
fn exchange_without_answer_is_unreachable() {
    assert!(matches!(interpret_exchange(None), Err(RecognitionError::Unreachable)));
}

#[test]
fn exchange_with_answer_is_read() {
    let limited = HttpAnswer { status: 429, body: b"{}".to_vec() };
    assert!(matches!(interpret_exchange(Some(limited)), Err(RecognitionError::RateLimited)));
    let fine = HttpAnswer { status: 200, body: b"{\"a\": 1}".to_vec() };
    assert!(matches!(interpret_exchange(Some(fine)), Ok(text) if text == "{\"a\":1}"));
    let broken = HttpAnswer { status: 200, body: b"oops".to_vec() };
    assert!(matches!(
        interpret_exchange(Some(broken)),
        Err(RecognitionError::MalformedResponse(_))
    ));
}

#[test]
fn cover_image_is_the_body_or_nothing() {
    assert_eq!(cover_image(None), None);
    let answer = HttpAnswer { status: 200, body: vec![0xff, 0xd8, 0xff] };
    assert_eq!(cover_image(Some(answer)), Some(vec![0xff, 0xd8, 0xff]));
    let missing = HttpAnswer { status: 404, body: Vec::new() };
    assert_eq!(cover_image(Some(missing)), Some(Vec::new()));
}
