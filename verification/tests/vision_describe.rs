use aivo_services::data_url::parse_data_url;
use aivo_services::image_hash::{digest_key, image_hash};
use aivo_services::vision_describe::{
    accept_description, classify_describe_error, describe, describe_exhausted,
    describe_via_gateway, describe_via_key, finish_gateway, finish_key, format_described_image,
    image_too_large, ContentPart, DescribeCall, DescribeLatch, DescriberSource, GatewayBody,
    GatewayCall, GatewayEvent, KeyCall, KeyEvent, DESCRIBE_PROMPT, MAX_IMAGE_BYTES, TIMEOUT_SECS,
};

const STARTER: &str = "https://gateway.example";

fn reply(status: u16, text: &str) -> GatewayEvent {
    GatewayEvent::Reply {
        status,
        text: text.to_string(),
    }
}

fn own_key(model: &str) -> DescriberSource<&'static str> {
    DescriberSource::OwnKey {
        model: model.to_string(),
        key: Box::new("key-id"),
    }
}

fn gateway() -> DescriberSource<&'static str> {
    DescriberSource::Gateway
}

#[test]
fn classify_latches_only_persistent_statuses() {
    for (status, latch) in [
        (401, true),
        (403, true),
        (429, true),
        (503, true),
        (413, false),
        (400, false),
        (502, false),
        (500, false),
    ] {
        let (message, got) = classify_describe_error(status);
        assert_eq!(got, latch, "status {status}");
        assert!(!message.is_empty());
    }
}

#[test]
fn every_status_has_its_own_wording() {
    for (status, wording) in [
        (401, "image describe needs sign-in — run `aivo login`"),
        (403, "image describe isn't available on your plan"),
        (429, "today's image-describe quota is used up"),
        (503, "image describe isn't configured"),
        (413, "image too large for describe"),
        (400, "image couldn't be decoded for describe"),
        (502, "image describe is temporarily down"),
        (500, "image describe failed (HTTP 500)"),
        (302, "image describe failed (HTTP 302)"),
        (7, "image describe failed (HTTP 7)"),
        (0, "image describe failed (HTTP 0)"),
        (65535, "image describe failed (HTTP 65535)"),
    ] {
        assert_eq!(classify_describe_error(status).0, wording);
    }
}

#[test]
fn image_hash_is_stable_and_distinct() {
    let a = image_hash("aGVsbG8=");
    assert_eq!(a, image_hash("aGVsbG8="));
    assert_ne!(a, image_hash("d29ybGQ="));
    assert_eq!(a.len(), 32);
}

#[test]
fn image_hash_shows_the_first_half_of_the_sha256() {
    assert_eq!(image_hash(""), "e3b0c44298fc1c149afbf4c8996fb924");
    assert_eq!(image_hash("abc"), "ba7816bf8f01cfea414140de5dae2223");
    assert_eq!(image_hash("aGVsbG8="), "333d6b3a3c1f5db6c9bdda5939b13698");
    assert_eq!(image_hash("é"), "4a99557e4033c3539de2eb65472017ca");
}

#[test]
fn digest_key_is_lower_case_hexadecimal() {
    let mut digest = [0u8; 32];
    for (i, b) in digest.iter_mut().enumerate() {
        *b = (i * 17) as u8;
    }
    assert_eq!(digest_key(&digest), "00112233445566778899aabbccddeeff");
    let mut other = digest;
    other[16] = other[16].wrapping_add(1);
    assert_eq!(digest_key(&other), digest_key(&digest));
    other[15] = other[15].wrapping_add(1);
    assert_ne!(digest_key(&other), digest_key(&digest));
}

#[test]
fn parse_data_url_roundtrip() {
    assert_eq!(
        parse_data_url("data:image/png;base64,aGVsbG8="),
        Some(("image/png", "aGVsbG8="))
    );
    // Parameterized meta: the params must not leak into the media type.
    assert_eq!(
        parse_data_url("data:image/svg+xml;charset=utf-8;BASE64,QUJD"),
        Some(("image/svg+xml", "QUJD"))
    );
    assert_eq!(parse_data_url("data:;base64,x"), Some(("", "x")));
    assert!(parse_data_url("data:image/png;base64,").is_none());
    assert!(parse_data_url("data:text/plain,hello").is_none());
    assert!(parse_data_url("https://example.com/a.png").is_none());
}

#[test]
fn parse_data_url_edge_cases() {
    assert_eq!(parse_data_url(""), None);
    assert_eq!(parse_data_url("data"), None);
    assert_eq!(parse_data_url("data:"), None);
    assert_eq!(parse_data_url("data:,x"), None);
    assert_eq!(parse_data_url("data:base64"), None);
    assert_eq!(parse_data_url("DATA:;base64,x"), None);
    assert_eq!(parse_data_url("data:base64,x"), Some(("", "x")));
    assert_eq!(parse_data_url("data:base64;Base64,x"), Some(("", "x")));
    assert_eq!(
        parse_data_url("data:base64;image/png,x"),
        Some(("image/png", "x"))
    );
    assert_eq!(
        parse_data_url("data:image/png;base64;q=1,x"),
        Some(("image/png", "x"))
    );
    assert_eq!(
        parse_data_url("data:a;base64,x,y;base64,z"),
        Some(("a", "x,y;base64,z"))
    );
    assert_eq!(parse_data_url("data:a;base64 ,x"), None);
    assert_eq!(parse_data_url("data:a;bäse64,x"), None);
    assert_eq!(
        parse_data_url("data:bild/größe;base64,→é"),
        Some(("bild/größe", "→é"))
    );
}

#[test]
fn a_written_data_url_is_read_back() {
    for mime in ["", "image/png", "a b", "größe", "base65"] {
        for params in ["", ";", ";charset=utf-8", ";a;b;;base64"] {
            for tag in ["base64", "BASE64", "bAsE64"] {
                for payload in ["x", ",", "AAAA;base64,", "→"] {
                    let url = format!("data:{mime}{params};{tag},{payload}");
                    assert_eq!(parse_data_url(&url), Some((mime, payload)));
                }
            }
        }
    }
}

#[test]
fn size_cap_uses_decoded_length() {
    assert!(!image_too_large("aGVsbG8="));
    let big = "A".repeat(MAX_IMAGE_BYTES / 3 * 4 + 8);
    assert!(image_too_large(&big));
}

#[test]
fn size_cap_boundary() {
    assert_eq!(MAX_IMAGE_BYTES, 5_242_880);
    // Without padding: 5_242_878 decoded bytes, then the cap, then one more.
    assert!(!image_too_large(&"A".repeat(6_990_504)));
    assert!(!image_too_large(&"A".repeat(6_990_507)));
    assert!(image_too_large(&"A".repeat(6_990_508)));
    // The cap counts bytes, not characters.
    assert!(image_too_large(&"é".repeat(3_495_254)));
}

#[test]
fn size_cap_does_not_count_padding() {
    let latch = DescribeLatch::new();
    // 5_242_880 decoded bytes: the cap, not more.
    let at_cap = format!("{}=", "A".repeat(6_990_507));
    // 5_242_879 decoded bytes.
    let below_cap = format!("{}==", "A".repeat(6_990_506));
    for payload in [&at_cap, &below_cap] {
        assert!(!image_too_large(payload));
        let url = format!("data:image/png;base64,{payload}");
        for src in [gateway(), own_key("m")] {
            assert!(describe(&src, &latch, None, STARTER, &url).is_ok());
        }
    }
    // The next group is over the cap, padded or not.
    for end in ["AAAA", "AAA=", "AA==", "AAA", "AA"] {
        assert!(image_too_large(&format!("{}{end}", "A".repeat(6_990_508))));
    }
}

#[test]
fn size_cap_of_short_payloads() {
    for payload in ["", "=", "==", "===", "====", "A", "A==="] {
        assert!(!image_too_large(payload));
    }
}

#[test]
fn described_image_wrapper() {
    assert_eq!(
        format_described_image("a red button"),
        "[Image] (described for a text-only model)\na red button"
    );
}

#[test]
fn labels_name_the_source() {
    assert_eq!(gateway().label(), "aivo (gateway)");
    assert_eq!(own_key("gemini-2.5-flash").label(), "gemini-2.5-flash");
    assert_eq!(own_key("").clone().label(), "");
}

#[test]
fn gateway_call_carries_payload_and_media_type() {
    let latch = DescribeLatch::new();
    let url = "data:image/png;base64,aGVsbG8=";
    assert_eq!(
        describe(&gateway(), &latch, None, STARTER, url),
        Ok(DescribeCall::Gateway(GatewayCall {
            endpoint: "https://gateway.example/v1/describe".to_string(),
            no_proxy: false,
            timeout_secs: 60,
            body: GatewayBody {
                image: "aGVsbG8=".to_string(),
                media_type: "image/png".to_string(),
            },
        }))
    );
}

#[test]
fn endpoint_override_goes_past_proxies() {
    let latch = DescribeLatch::new();
    let overridden = " http://127.0.0.1:9/v1/describe";
    let call =
        describe_via_gateway(&latch, Some(overridden.to_string()), STARTER, "m", "b").unwrap();
    assert_eq!(call.endpoint, overridden);
    assert!(call.no_proxy);
    for blank in ["", " ", "\t\r\n", "\u{3000}\u{a0}"] {
        let call =
            describe_via_gateway(&latch, Some(blank.to_string()), STARTER, "m", "b").unwrap();
        assert_eq!(call.endpoint, "https://gateway.example/v1/describe");
        assert!(!call.no_proxy);
    }
}

#[test]
fn own_key_call_asks_the_model_about_the_url() {
    let url = "data:image/png;base64,aGVsbG8=";
    let expected = KeyCall {
        model: "glm-4.6v".to_string(),
        role: "user".to_string(),
        content: vec![
            ContentPart::Text {
                text: DESCRIBE_PROMPT.to_string(),
            },
            ContentPart::ImageUrl {
                url: url.to_string(),
            },
        ],
        timeout_secs: TIMEOUT_SECS,
    };
    assert_eq!(describe_via_key("glm-4.6v", url), expected);
    // The gateway's latch and endpoint play no part.
    let latched = DescribeLatch { exhausted: true };
    assert_eq!(
        describe(
            &own_key("glm-4.6v"),
            &latched,
            Some("http://127.0.0.1".to_string()),
            STARTER,
            url
        ),
        Ok(DescribeCall::OwnKey(expected))
    );
}

#[test]
fn prompt_wording() {
    assert_eq!(
        DESCRIBE_PROMPT,
        "Transcribe this image for a reader who cannot see it. First: all readable text, \
         verbatim, preserving structure (headings, lists, tables, code). Then: a concise \
         layout/visual description — UI elements and arrangement, charts with axes and \
         approximate values, colors only where meaningful. No commentary."
    );
}

#[test]
fn unreadable_attachments_are_refused() {
    let latch = DescribeLatch::new();
    for url in [
        "https://example.com/a.png",
        "data:text/plain,hello",
        "data:image/png;base64,",
        "data:;base64,x",
    ] {
        for src in [gateway(), own_key("m")] {
            assert_eq!(
                describe(&src, &latch, None, STARTER, url),
                Err("image attachment isn't a base64 data URL".to_string())
            );
        }
    }
}

#[test]
fn oversized_images_are_refused_for_every_source() {
    let latch = DescribeLatch::new();
    let url = format!("data:image/png;base64,{}", "A".repeat(6_990_508));
    for src in [gateway(), own_key("m")] {
        assert_eq!(
            describe(&src, &latch, None, STARTER, &url),
            Err("image exceeds the 5 MB describe limit".to_string())
        );
    }
    let url = format!("data:image/png;base64,{}", "A".repeat(6_990_504));
    assert!(describe(&gateway(), &latch, None, STARTER, &url).is_ok());
}

#[test]
fn persistent_failure_ends_the_gateway_for_the_session() {
    let url = "data:image/png;base64,aGVsbG8=";
    for status in [401, 403, 429, 503] {
        let mut latch = DescribeLatch::new();
        assert!(!describe_exhausted(&latch));
        assert!(describe(&gateway(), &latch, None, STARTER, url).is_ok());
        let answer = finish_gateway(&mut latch, reply(status, "{}"));
        assert_eq!(answer, Err(classify_describe_error(status).0));
        assert!(describe_exhausted(&latch));
        assert_eq!(
            describe(&gateway(), &latch, None, STARTER, url),
            Err("image describe is unavailable for the rest of this session".to_string())
        );
        // Nothing opens the latch again.
        let later = finish_gateway(&mut latch, reply(200, r#"{"description":"late"}"#));
        assert_eq!(later, Ok("late".to_string()));
        assert!(describe_exhausted(&latch));
        assert!(describe(&own_key("m"), &latch, None, STARTER, url).is_ok());
    }
}

#[test]
fn passing_failures_leave_the_gateway_open() {
    let mut latch = DescribeLatch::new();
    for status in [413, 400, 502, 500, 199, 300, 404] {
        assert!(finish_gateway(&mut latch, reply(status, r#"{"description":"x"}"#)).is_err());
    }
    assert_eq!(
        finish_gateway(
            &mut latch,
            GatewayEvent::NoClient {
                error: "no tls".to_string()
            }
        ),
        Err("build http client: no tls".to_string())
    );
    assert_eq!(
        finish_gateway(
            &mut latch,
            GatewayEvent::Unreachable {
                error: "connection refused".to_string()
            }
        ),
        Err("couldn't reach image describe (connection refused)".to_string())
    );
    assert!(!describe_exhausted(&latch));
}

#[test]
fn gateway_replies() {
    let mut latch = DescribeLatch::new();
    let ok = finish_gateway(&mut latch, reply(200, r#"{"description":"a red Submit button"}"#));
    let empty = finish_gateway(&mut latch, reply(200, r#"{"description":""}"#));
    assert_eq!(ok.unwrap(), "a red Submit button");
    empty.expect_err("empty description is a failure");
    assert!(
        !describe_exhausted(&latch),
        "empty description must not latch"
    );
}

#[test]
fn gateway_reply_bodies() {
    let mut latch = DescribeLatch::new();
    for (body, expected) in [
        (r#"{"description":" \n a café \t"}"#, "a café"),
        (r#"{"x":1,"description":"a","description":"b"}"#, "b"),
        ("  {\"description\" : \"two words\"}\n", "two words"),
    ] {
        let answer = finish_gateway(&mut latch, reply(299, body));
        assert_eq!(answer, Ok(expected.to_string()));
    }
    for body in [
        "",
        "not json",
        "null",
        "[]",
        "\"description\"",
        "{}",
        r#"{"Description":"x"}"#,
        r#"{"description":null}"#,
        r#"{"description":{"description":"x"}}"#,
        r#"{"description":["x"]}"#,
        r#"{"description":" \n "}"#,
        r#"{"description":"x"} trailing"#,
    ] {
        assert_eq!(
            finish_gateway(&mut latch, reply(200, body)),
            Err("describe returned no text".to_string()),
            "{body}"
        );
    }
}

#[test]
fn description_members() {
    assert_eq!(accept_description(Some(" a ".to_string())), Ok("a".to_string()));
    assert!(accept_description(Some(" ".to_string())).is_err());
    assert!(accept_description(None).is_err());
}

#[test]
fn own_key_outcomes() {
    assert_eq!(
        finish_key("glm-4.6v", KeyEvent::TimedOut),
        Err("image describe via glm-4.6v timed out".to_string())
    );
    assert_eq!(
        finish_key(
            "glm-4.6v",
            KeyEvent::Failed {
                error: "HTTP 401".to_string()
            }
        ),
        Err(
            "image describe via glm-4.6v failed: HTTP 401 — re-pick the describer in /config \
             (Vision fallback → custom)"
                .to_string()
        )
    );
    for content in [None, Some("".to_string()), Some(" \n".to_string())] {
        assert_eq!(
            finish_key("glm-4.6v", KeyEvent::Answered { content }),
            Err("describer glm-4.6v returned no text".to_string())
        );
    }
    assert_eq!(
        finish_key(
            "glm-4.6v",
            KeyEvent::Answered {
                content: Some("\n a red button\n".to_string())
            }
        ),
        Ok("a red button".to_string())
    );
}
