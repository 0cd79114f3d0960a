use songrec::communication::{
    build_recognition_request, choose_user_agent, cover_image_request,
    prepare_cover_image_request, prepare_recognition_request, recognition_url, request_body,
    request_identifiers, wire_timestamp, HttpMethod,
};

fn pool() -> Vec<String> {
    vec![
        "Dalvik/2.1.0 (Linux; U; Android 5.0.2; VS980 4G Build/LRX22G)".to_string(),
        "Dalvik/1.6.0 (Linux; U; Android 4.4.2; SM-T210 Build/KOT49H)".to_string(),
        "Dalvik/2.1.0 (Linux; U; Android 5.1.1; SM-P905V Build/LMY47X)".to_string(),
    ]
}

fn is_uuid(text: &str, upper: bool) -> bool {
    text.len() == 36
        && text.chars().enumerate().all(|(i, c)| {
            if i == 8 || i == 13 || i == 18 || i == 23 {
                c == '-'
            } else if upper {
                c.is_ascii_digit() || ('A'..='F').contains(&c)
            } else {
                c.is_ascii_digit() || ('a'..='f').contains(&c)
            }
        })
}

#[test]
fn wire_timestamp_keeps_low_32_bits() {
    assert_eq!(wire_timestamp(0), 0);
    assert_eq!(wire_timestamp(4294967295), 4294967295);
    assert_eq!(wire_timestamp(4294967296), 0);
    assert_eq!(wire_timestamp(1700000000000), 3487918080);
    assert_eq!(wire_timestamp(u128::MAX), u32::MAX);
}

#[test]
fn recognition_url_is_exact() {
    assert_eq!(
        recognition_url(
            "936DA01F-9ABD-4D9D-80C7-02AF85C822A8",
            "0a1b2c3d-0000-4000-8000-00000000000f"
        ),
        "https://amp.shazam.com/discovery/v5/en/US/android/-/tag/936DA01F-9ABD-4D9D-80C7-02AF85C822A8/0a1b2c3d-0000-4000-8000-00000000000f?sync=true&webv3=true&sampling=true&shazamapiversion=v3&sharehub=true&video=v3"
    );
}

#[test]
fn request_body_is_exact() {
    assert_eq!(
        request_body(12000, 3487918080, "data:audio/vnd.shazam.sig;base64,AAA="),
        "{\"geolocation\":{\"altitude\":300,\"latitude\":45,\"longitude\":2},\"signature\":{\"samplems\":12000,\"timestamp\":3487918080,\"uri\":\"data:audio/vnd.shazam.sig;base64,AAA=\"},\"timestamp\":3487918080,\"timezone\":\"Europe/Paris\"}"
    );
}

#[test]
fn request_body_is_the_json_document() {
    let uri = "data:audio/vnd.shazam.sig;base64,a+b/c=\"quoted\"\\\n";
    let body = request_body(1, 2, uri);
    let parsed: serde_json::Value = serde_json::from_str(&body).unwrap();
    let mut geolocation = serde_json::Map::new();
    geolocation.insert("altitude".to_string(), serde_json::Value::from(300));
    geolocation.insert("latitude".to_string(), serde_json::Value::from(45));
    geolocation.insert("longitude".to_string(), serde_json::Value::from(2));
    let mut signature = serde_json::Map::new();
    signature.insert("samplems".to_string(), serde_json::Value::from(1u32));
    signature.insert("timestamp".to_string(), serde_json::Value::from(2u32));
    signature.insert("uri".to_string(), serde_json::Value::from(uri));
    let mut document = serde_json::Map::new();
    document.insert("geolocation".to_string(), serde_json::Value::Object(geolocation));
    document.insert("signature".to_string(), serde_json::Value::Object(signature));
    document.insert("timestamp".to_string(), serde_json::Value::from(2u32));
    document.insert("timezone".to_string(), serde_json::Value::from("Europe/Paris"));
    let expected = serde_json::Value::Object(document);
    assert_eq!(parsed, expected);
    assert_eq!(body, expected.to_string());
}

#[test]
fn request_body_escapes_the_uri() {
    let body = request_body(0, 0, "a\"b");
    assert!(body.contains("\"uri\":\"a\\\"b\""));
    assert!(!body.contains("\"uri\":a\"b"));
}

#[test]
fn build_recognition_request_fills_every_field() {
    let request = build_recognition_request(
        "data:x",
        5000,
        1700000000000,
        "agent".to_string(),
        "AAAAAAAA-AAAA-4AAA-8AAA-AAAAAAAAAAAA",
        "bbbbbbbb-bbbb-4bbb-8bbb-bbbbbbbbbbbb",
    );
    assert_eq!(request.method, HttpMethod::Post);
    assert_eq!(
        request.url,
        recognition_url("AAAAAAAA-AAAA-4AAA-8AAA-AAAAAAAAAAAA", "bbbbbbbb-bbbb-4bbb-8bbb-bbbbbbbbbbbb")
    );
    assert_eq!(request.user_agent, "agent");
    assert_eq!(request.content_language, "en_US");
    assert_eq!(request.content_type, Some("application/json".to_string()));
    assert_eq!(request.body, Some(request_body(5000, 3487918080, "data:x")));
    assert_eq!(request.timeout_secs, 20);
}

#[test]
fn cover_image_request_is_a_plain_get() {
    let request = cover_image_request("https://example.org/cover.jpg".to_string(), "agent".to_string());
    assert_eq!(request.method, HttpMethod::Get);
    assert_eq!(request.url, "https://example.org/cover.jpg");
    assert_eq!(request.user_agent, "agent");
    assert_eq!(request.content_language, "en_US");
    assert_eq!(request.content_type, None);
    assert_eq!(request.body, None);
    assert_eq!(request.timeout_secs, 20);
}

#[test]
fn request_identifiers_have_the_two_shapes() {
    let ids = request_identifiers();
    assert!(is_uuid(&ids.first, true), "{}", ids.first);
    assert!(is_uuid(&ids.second, false), "{}", ids.second);
    assert_eq!(&ids.first[14..15], "4");
    assert_eq!(&ids.second[14..15], "4");
    assert!(["8", "9", "A", "B"].contains(&&ids.first[19..20]));
    assert!(["8", "9", "a", "b"].contains(&&ids.second[19..20]));
    assert_ne!(ids.first.to_lowercase(), ids.second);
    let more = request_identifiers();
    assert_ne!(ids.first, more.first);
    assert_ne!(ids.second, more.second);
}

#[test]
fn user_agent_comes_from_the_pool() {
    let agents = pool();
    for _ in 0..50 {
        let chosen = choose_user_agent(&agents).unwrap();
        assert!(agents.contains(&chosen));
    }
    assert_eq!(choose_user_agent(&Vec::new()), None);
    assert_eq!(choose_user_agent(&vec!["only".to_string()]), Some("only".to_string()));
}

#[test]
fn user_agent_is_not_always_the_first() {
    let agents = pool();
    let mut others = 0;
    for _ in 0..200 {
        if choose_user_agent(&agents).unwrap() != agents[0] {
            others += 1;
        }
    }
    assert!(others > 0);
}

#[test]
fn prepared_recognition_request_is_well_formed() {
    let agents = pool();
    let request = prepare_recognition_request(&agents, "data:x", 9000, 1700000000000).unwrap();
    assert_eq!(request.method, HttpMethod::Post);
    assert!(agents.contains(&request.user_agent));
    assert_eq!(request.body, Some(request_body(9000, 3487918080, "data:x")));
    let prefix = "https://amp.shazam.com/discovery/v5/en/US/android/-/tag/";
    let suffix = "?sync=true&webv3=true&sampling=true&shazamapiversion=v3&sharehub=true&video=v3";
    assert!(request.url.starts_with(prefix));
    assert!(request.url.ends_with(suffix));
    let middle = &request.url[prefix.len()..request.url.len() - suffix.len()];
    assert_eq!(middle.len(), 73);
    assert!(is_uuid(&middle[..36], true));
    assert_eq!(&middle[36..37], "/");
    assert!(is_uuid(&middle[37..], false));
}

#[test]
fn nothing_is_prepared_from_an_empty_pool() {
    assert!(prepare_recognition_request(&Vec::new(), "data:x", 1, 1).is_none());
    assert!(prepare_cover_image_request(&Vec::new(), "https://example.org".to_string()).is_none());
}

#[test]
fn prepared_cover_image_request_uses_the_pool() {
    let agents = pool();
    let request = prepare_cover_image_request(&agents, "https://example.org/c.jpg".to_string()).unwrap();
    assert_eq!(request.method, HttpMethod::Get);
    assert_eq!(request.url, "https://example.org/c.jpg");
    assert!(agents.contains(&request.user_agent));
}


#[test]
fn request_body_writes_each_escape() {
    let uri = "q\"b\\s/\u{8}\u{c}\n\r\t\u{0}\u{1}\u{b}\u{1f} \u{7f}\u{e9}\u{1f3b5}";
    let body = request_body(0, 0, uri);
    let quoted = "\"q\\\"b\\\\s/\\b\\f\\n\\r\\t\\u0000\\u0001\\u000b\\u001f \u{7f}\u{e9}\u{1f3b5}\"";
    let expected = format!(
        "{{\"geolocation\":{{\"altitude\":300,\"latitude\":45,\"longitude\":2}},\"signature\":{{\"samplems\":0,\"timestamp\":0,\"uri\":{}}},\"timestamp\":0,\"timezone\":\"Europe/Paris\"}}",
        quoted
    );
    assert_eq!(body, expected);
    let parsed: serde_json::Value = serde_json::from_str(&body).unwrap();
    assert_eq!(parsed.pointer("/signature/uri").and_then(|v| v.as_str()), Some(uri));
}

#[test]
fn request_body_keeps_a_data_uri_as_it_is() {
    let uri = "data:audio/vnd.shazam.sig;base64,AbC+/09xyz==";
    let body = request_body(7, 8, uri);
    assert!(body.contains(&format!("\"uri\":\"{}\"}}", uri)));
}
