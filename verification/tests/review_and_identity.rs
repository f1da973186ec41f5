use cndev::auth::{admit_decoded, admit_request, bearer_token, claims_at, claims_now, open_path, Admission, Claims};
use cndev::datetime::{format_timestamp, Timestamp};
use cndev::ip::{is_internal_address, ParsedIp};
use cndev::nick::{nick_change_wanted, normalize_nick, trim_text};
use cndev::shencha::{
    review_goes_on, service_parameters_for, shencha_verdict, text_chunks, text_review_start,
    text_review_step, ReviewOutcome, ShenchasResponse, ShenchasResponseData, TextReviewAction,
    TextReviewState,
};

/// Runs the review of a text of `chunks` chunks with the given outcomes; gives the chunks
/// asked for and the verdict, if one was reached.
fn run_text_review(chunks: usize, outcomes: &[ReviewOutcome]) -> (Vec<usize>, Option<bool>) {
    let mut asked = Vec::new();
    let (mut state, mut action) = text_review_start(chunks);
    let mut next = outcomes.iter();
    loop {
        match action {
            TextReviewAction::Decide(v) => return (asked, Some(v)),
            TextReviewAction::ReviewChunk(at) => {
                asked.push(at);
                match next.next() {
                    Some(o) => {
                        let o = match o {
                            ReviewOutcome::Verdict(b) => ReviewOutcome::Verdict(*b),
                            ReviewOutcome::Failed => ReviewOutcome::Failed,
                        };
                        (state, action) = text_review_step(state, o);
                    }
                    None => {
                        assert!(matches!(state, TextReviewState::Reviewing { .. }));
                        return (asked, None);
                    }
                }
            }
        }
    }
}

fn response(code: i32, reason: Option<&str>) -> ShenchasResponse {
    ShenchasResponse {
        RequestId: "req".to_string(),
        Code: code,
        Msg: None,
        Message: None,
        Data: reason.map(|r| ShenchasResponseData { reason: r.to_string(), labels: String::new() }),
    }
}

#[test]
fn verdict_passes_only_code_200_with_empty_reason() {
    assert!(shencha_verdict(&response(200, Some(""))));
    assert!(!shencha_verdict(&response(200, Some("pornography"))));
    assert!(!shencha_verdict(&response(200, None)));
    assert!(!shencha_verdict(&response(400, Some(""))));
    assert!(!shencha_verdict(&response(500, None)));
}

#[test]
fn service_parameters_carry_the_content() {
    assert_eq!(service_parameters_for("色情").content, "色情");
}

#[test]
fn chunks_close_at_five_hundred_bytes() {
    assert!(text_chunks("").is_empty());
    assert_eq!(text_chunks("abc"), vec!["abc".to_string()]);
    let a500 = "a".repeat(500);
    assert_eq!(text_chunks(&a500), vec![a500.clone()]);
    let a501 = "a".repeat(501);
    assert_eq!(text_chunks(&a501), vec![a500.clone(), "a".to_string()]);
    let a1000 = "a".repeat(1000);
    assert_eq!(text_chunks(&a1000), vec![a500.clone(), a500.clone()]);
}

#[test]
fn chunks_count_bytes_not_characters() {
    // Each of these characters takes three bytes: 167 of them make 501 bytes.
    let text = "中".repeat(200);
    let chunks = text_chunks(&text);
    assert_eq!(chunks.len(), 2);
    assert_eq!(chunks[0].chars().count(), 167);
    assert_eq!(chunks[0].len(), 501);
    assert_eq!(chunks[1].chars().count(), 33);
    assert_eq!(chunks.concat(), text);
}

#[test]
fn chunks_spell_the_text_again() {
    let text = format!("{}{}{}", "ab€".repeat(300), "😀".repeat(130), "z");
    let chunks = text_chunks(&text);
    assert_eq!(chunks.concat(), text);
    for (i, c) in chunks.iter().enumerate() {
        assert!(!c.is_empty());
        assert!(c.len() < 504);
        if i + 1 < chunks.len() {
            assert!(c.len() >= 500);
        }
    }
}

#[test]
fn review_goes_on_only_after_a_pass() {
    assert!(review_goes_on(&ReviewOutcome::Verdict(true)));
    assert!(!review_goes_on(&ReviewOutcome::Verdict(false)));
    assert!(!review_goes_on(&ReviewOutcome::Failed));
}

#[test]
fn trim_removes_surrounding_white_space() {
    assert_eq!(trim_text("  a b \t\n"), "a b");
    assert_eq!(trim_text("\u{3000}x\u{a0}"), "x");
    assert_eq!(trim_text("   "), "");
    assert_eq!(trim_text(""), "");
}

#[test]
fn nick_is_trimmed_lowercased_and_filtered() {
    assert_eq!(normalize_nick("  Hello World-1! "), "helloworld-1");
    assert_eq!(normalize_nick("\tÄbC_12\n"), "äbc12");
    assert_eq!(normalize_nick("李四"), "李四");
    assert_eq!(normalize_nick("Ⅻ²"), "ⅻ²");
    assert_eq!(normalize_nick("!!!"), "");
    assert_eq!(normalize_nick("a b"), "ab");
}

#[test]
fn nick_change_wanted_needs_a_new_nick() {
    assert!(nick_change_wanted("new", "old"));
    assert!(!nick_change_wanted("same", "same"));
    assert!(!nick_change_wanted("", "old"));
    assert!(nick_change_wanted("new", ""));
}

#[test]
fn internal_addresses_are_private_ipv4_networks() {
    assert!(is_internal_address(&ParsedIp::V4(10, 0, 0, 1)));
    assert!(is_internal_address(&ParsedIp::V4(10, 255, 255, 255)));
    assert!(is_internal_address(&ParsedIp::V4(172, 16, 0, 1)));
    assert!(is_internal_address(&ParsedIp::V4(172, 31, 255, 255)));
    assert!(!is_internal_address(&ParsedIp::V4(172, 15, 0, 1)));
    assert!(!is_internal_address(&ParsedIp::V4(172, 32, 0, 1)));
    assert!(is_internal_address(&ParsedIp::V4(192, 168, 1, 1)));
    assert!(!is_internal_address(&ParsedIp::V4(192, 169, 1, 1)));
    assert!(!is_internal_address(&ParsedIp::V4(8, 8, 8, 8)));
    assert!(!is_internal_address(&ParsedIp::V6));
    assert!(!is_internal_address(&ParsedIp::Invalid));
}

#[test]
fn timestamps_are_written_as_date_and_time() {
    assert_eq!(format_timestamp(&Timestamp { seconds: 0, nanos: 0 }), "1970-01-01 00:00:00");
    assert_eq!(format_timestamp(&Timestamp { seconds: 1700000000, nanos: 999 }), "2023-11-14 22:13:20");
    assert_eq!(format_timestamp(&Timestamp { seconds: -1, nanos: 0 }), "1969-12-31 23:59:59");
    assert_eq!(format_timestamp(&Timestamp { seconds: i64::MAX, nanos: 0 }), "");
}

#[test]
fn claims_expire_a_year_after_issue() {
    let c = claims_at(7, "user7".to_string(), 1600000000, 1700000000);
    assert_eq!(c.id, 7);
    assert_eq!(c.nick, "user7");
    assert_eq!(c.registering_time, 1600000000);
    assert_eq!(c.exp, 1700000000 + 31536000);
}

#[test]
fn claims_now_expire_in_the_future() {
    let c = claims_now(3, "n".to_string(), 5).unwrap();
    assert_eq!(c.id, 3);
    assert!(c.exp as i64 > 1700000000 + 31536000);
}

#[test]
fn bearer_token_skips_seven_bytes() {
    assert_eq!(bearer_token("Bearer abc.def"), Some("abc.def"));
    assert_eq!(bearer_token("Bearer "), Some(""));
    assert_eq!(bearer_token("Bear"), None);
    assert_eq!(bearer_token("éééé"), None);
}

#[test]
fn open_paths_are_the_token_and_sms_endpoints() {
    assert!(open_path("/tokens"));
    assert!(open_path("/users/commands/sms-sending"));
    assert!(!open_path("/posts"));
    assert!(!open_path("/tokens/"));
}

#[test]
fn requests_without_a_token_reach_only_open_paths() {
    assert!(matches!(admit_request(None, "/tokens"), Admission::Pass));
    assert!(matches!(admit_request(None, "/posts"), Admission::Refuse));
    match admit_request(Some("Bearer tok"), "/posts") {
        Admission::Decode(t) => assert_eq!(t, "tok"),
        _ => panic!("expected a token to decode"),
    }
}

#[test]
fn decoded_claims_become_identity_headers() {
    let claims = Claims { id: 5, nick: "nick".to_string(), registering_time: -3, exp: 10 };
    match admit_decoded(Some(claims)) {
        Admission::PassAs(h) => {
            assert_eq!(h.id, "5");
            assert_eq!(h.nick, "nick");
            assert_eq!(h.reg, "-3");
        }
        _ => panic!("expected the request to pass"),
    }
    assert!(matches!(admit_decoded(None), Admission::Refuse));
}

#[test]
fn a_text_passes_when_every_chunk_passes() {
    assert_eq!(run_text_review(0, &[]), (vec![], Some(true)));
    let pass = || ReviewOutcome::Verdict(true);
    assert_eq!(run_text_review(3, &[pass(), pass(), pass()]), (vec![0, 1, 2], Some(true)));
    assert_eq!(run_text_review(3, &[pass(), pass()]), (vec![0, 1, 2], None));
}

#[test]
fn the_first_chunk_that_does_not_pass_ends_the_review() {
    let pass = || ReviewOutcome::Verdict(true);
    assert_eq!(
        run_text_review(4, &[pass(), ReviewOutcome::Verdict(false), pass(), pass()]),
        (vec![0, 1], Some(false))
    );
    assert_eq!(run_text_review(4, &[ReviewOutcome::Failed, pass()]), (vec![0], Some(false)));
}

#[test]
fn trimming_removes_unicode_white_space_only() {
    assert_eq!(trim_text("\u{3000}\t a\u{85}\u{2009}"), "a");
    assert_eq!(trim_text("\u{200B}a"), "\u{200B}a");
}
