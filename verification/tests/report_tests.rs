use silence_report::report::{format_slack_messages, count_states, SlackBlock, SlackMessage};
use silence_report::silence::{Matcher, Silence, SilenceStatus, render_silence};
use silence_report::text::usize_to_string;
use silence_report::timestamp::format_timestamp;

fn make_silence(id: &str, state: &str, matchers: Vec<Matcher>, comment: &str) -> Silence {
    Silence {
        id: id.to_string(),
        status: SilenceStatus { state: state.to_string() },
        matchers,
        starts_at: "2024-01-01T00:00:00Z".to_string(),
        ends_at: "2024-01-02T00:00:00Z".to_string(),
        updated_at: "2024-01-01T00:00:00Z".to_string(),
        created_by: "test-user".to_string(),
        comment: comment.to_string(),
    }
}

fn make_matcher(name: &str, value: &str, is_regex: bool, is_equal: bool) -> Matcher {
    Matcher { name: name.to_string(), value: value.to_string(), is_regex, is_equal }
}

fn header_text(b: &SlackBlock) -> &str {
    match b {
        SlackBlock::Header { text } => {
            assert_eq!(text.text_type, "plain_text");
            &text.text
        }
        _ => panic!("expected a header block"),
    }
}

fn section_text(b: &SlackBlock) -> &str {
    match b {
        SlackBlock::Section { text } => {
            assert_eq!(text.text_type, "mrkdwn");
            &text.text
        }
        _ => panic!("expected a section block"),
    }
}

fn is_divider(b: &SlackBlock) -> bool {
    matches!(b, SlackBlock::Divider)
}

fn record_section_texts(messages: &[SlackMessage]) -> Vec<String> {
    let mut texts = Vec::new();
    for (i, message) in messages.iter().enumerate() {
        let prefix = if i == 0 { 3 } else { 2 };
        let mut k = prefix;
        while k < message.blocks.len() {
            texts.push(section_text(&message.blocks[k]).to_string());
            assert!(is_divider(&message.blocks[k + 1]));
            k += 2;
        }
    }
    texts
}

#[test]
fn test_format_slack_messages_empty() {
    let silences = vec![];
    let messages = format_slack_messages(&silences);
    assert_eq!(messages.len(), 1);
    assert!(messages[0].blocks.len() >= 3);
}

#[test]
fn test_format_slack_messages_with_data() {
    let silences = vec![Silence {
        id: "test-id-123".to_string(),
        status: SilenceStatus { state: "active".to_string() },
        matchers: vec![Matcher {
            name: "alertname".to_string(),
            value: "TestAlert".to_string(),
            is_regex: false,
            is_equal: true,
        }],
        starts_at: "2024-01-01T00:00:00Z".to_string(),
        ends_at: "2024-01-02T00:00:00Z".to_string(),
        updated_at: "2024-01-01T00:00:00Z".to_string(),
        created_by: "test-user".to_string(),
        comment: "Test comment".to_string(),
    }];

    let messages = format_slack_messages(&silences);
    assert_eq!(messages.len(), 1);
    assert!(messages[0].blocks.len() > 3);
}

#[test]
fn test_format_slack_messages_multiple_parts() {
    // Create 50 silences to test message splitting
    let silences: Vec<Silence> = (0..50)
        .map(|i| Silence {
            id: format!("test-id-{}", i),
            status: SilenceStatus { state: "active".to_string() },
            matchers: vec![Matcher {
                name: "alertname".to_string(),
                value: format!("TestAlert{}", i),
                is_regex: false,
                is_equal: true,
            }],
            starts_at: "2024-01-01T00:00:00Z".to_string(),
            ends_at: "2024-01-02T00:00:00Z".to_string(),
            updated_at: "2024-01-01T00:00:00Z".to_string(),
            created_by: "test-user".to_string(),
            comment: "Test comment".to_string(),
        })
        .collect();

    let messages = format_slack_messages(&silences);
    assert_eq!(messages.len(), 3); // 50 silences should create 3 messages (23 + 23 + 4)
}

#[test]
fn test_empty_input_single_batch_layout() {
    let messages = format_slack_messages(&vec![]);
    assert_eq!(messages.len(), 1);
    let blocks = &messages[0].blocks;
    assert_eq!(blocks.len(), 3);
    assert_eq!(header_text(&blocks[0]), "Alertmanager Silences Report");
    assert_eq!(
        section_text(&blocks[1]),
        "*Total:* 0 | *Active:* 0 | *Pending:* 0 | *Expired:* 0"
    );
    assert!(is_divider(&blocks[2]));
}

#[test]
fn test_single_record_full_layout() {
    let silences = vec![make_silence(
        "id-1",
        "active",
        vec![make_matcher("alertname", "TestAlert", false, true)],
        "Test comment",
    )];
    let messages = format_slack_messages(&silences);
    assert_eq!(messages.len(), 1);
    let blocks = &messages[0].blocks;
    assert_eq!(blocks.len(), 5);
    assert_eq!(header_text(&blocks[0]), "Alertmanager Silences Report");
    assert_eq!(
        section_text(&blocks[1]),
        "*Total:* 1 | *Active:* 1 | *Pending:* 0 | *Expired:* 0"
    );
    assert!(is_divider(&blocks[2]));
    assert_eq!(
        section_text(&blocks[3]),
        "*Status:* active\n*Date:* 2024-01-01 00:00:00 \u{2192} 2024-01-02 00:00:00\n*CreatedBy:* test-user\n*Matchers:*\n  \u{2022} `alertname=TestAlert`\n*Comment:* _Test comment_"
    );
    assert!(is_divider(&blocks[4]));
}

#[test]
fn test_end_to_end_fifty_records_three_batches() {
    let mut silences = Vec::new();
    for i in 0..50 {
        let state = if i < 3 {
            "active"
        } else if i < 5 {
            "expired"
        } else {
            "pending"
        };
        silences.push(make_silence(
            &format!("id-{}", i),
            state,
            vec![make_matcher("alertname", &format!("Alert{}", i), false, true)],
            "",
        ));
    }
    let messages = format_slack_messages(&silences);
    assert_eq!(messages.len(), 3);
    // 23 + 23 + 4 records; record sections come in (section, divider) pairs.
    assert_eq!(messages[0].blocks.len(), 3 + 2 * 23);
    assert_eq!(messages[1].blocks.len(), 2 + 2 * 23);
    assert_eq!(messages[2].blocks.len(), 2 + 2 * 4);
    assert_eq!(
        section_text(&messages[0].blocks[1]),
        "*Total:* 50 | *Active:* 3 | *Pending:* 45 | *Expired:* 2"
    );
    assert_eq!(header_text(&messages[0].blocks[0]), "Alertmanager Silences Report (Part 1/3)");
    assert_eq!(header_text(&messages[1].blocks[0]), "Alertmanager Silences Report (Part 2/3)");
    assert_eq!(header_text(&messages[2].blocks[0]), "Alertmanager Silences Report (Part 3/3)");
    // Later batches carry no summary: their second block is already the divider.
    assert!(is_divider(&messages[1].blocks[1]));
    assert!(is_divider(&messages[2].blocks[1]));
}

#[test]
fn test_records_kept_in_order_across_batches() {
    let mut silences = Vec::new();
    for i in 0..30 {
        silences.push(make_silence(
            &format!("id-{}", i),
            "active",
            vec![make_matcher("alertname", &format!("Alert{}", i), false, true)],
            "",
        ));
    }
    let messages = format_slack_messages(&silences);
    assert_eq!(messages.len(), 2);
    let texts = record_section_texts(&messages);
    assert_eq!(texts.len(), 30);
    for (i, text) in texts.iter().enumerate() {
        assert!(
            text.contains(&format!("`alertname=Alert{}`", i)),
            "record {} out of order: {}",
            i,
            text
        );
    }
}

#[test]
fn test_unknown_state_rendered_but_not_counted() {
    let silences = vec![
        make_silence("id-0", "weird", vec![make_matcher("a", "b", false, true)], ""),
        make_silence("id-1", "active", vec![make_matcher("a", "b", false, true)], ""),
    ];
    let messages = format_slack_messages(&silences);
    assert_eq!(
        section_text(&messages[0].blocks[1]),
        "*Total:* 2 | *Active:* 1 | *Pending:* 0 | *Expired:* 0"
    );
    let texts = record_section_texts(&messages);
    assert_eq!(texts.len(), 2);
    assert!(texts[0].starts_with("*Status:* weird\n"));
    assert!(texts[1].starts_with("*Status:* active\n"));
}

#[test]
fn test_count_states_mixed() {
    let silences = vec![
        make_silence("a", "active", vec![], ""),
        make_silence("b", "pending", vec![], ""),
        make_silence("c", "pending", vec![], ""),
        make_silence("d", "expired", vec![], ""),
        make_silence("e", "other", vec![], ""),
    ];
    let (active, pending, expired) = count_states(&silences);
    assert_eq!((active, pending, expired), (1, 2, 1));
}

#[test]
fn test_matcher_rendering_variants() {
    let silences = vec![make_silence(
        "id-0",
        "active",
        vec![
            make_matcher("job", "node", false, true),
            make_matcher("env", "prod|dev", true, true),
            make_matcher("team", "infra", false, false),
            make_matcher("pod", "web-.*", true, false),
        ],
        "",
    )];
    let text = render_silence(&silences[0]);
    assert!(text.contains("*Matchers:*\n  \u{2022} `job=node`\n  \u{2022} `env=~prod|dev`\n  \u{2022} `team!=infra`\n  \u{2022} `pod!=~web-.*`"));
}

#[test]
fn test_comment_of_101_chars_truncated() {
    let comment = "a".repeat(101);
    let silence = make_silence("id-0", "active", vec![], &comment);
    let text = render_silence(&silence);
    let expected = format!("\n*Comment:* _{}..._", "a".repeat(100));
    assert!(text.ends_with(&expected), "got: {}", text);
}

#[test]
fn test_comment_of_100_chars_unmodified() {
    let comment = "b".repeat(100);
    let silence = make_silence("id-0", "active", vec![], &comment);
    let text = render_silence(&silence);
    let expected = format!("\n*Comment:* _{}_", comment);
    assert!(text.ends_with(&expected), "got: {}", text);
}

#[test]
fn test_comment_truncation_counts_characters_not_bytes() {
    // 101 multi-byte characters: truncation must keep the first 100 whole.
    let comment = "\u{2192}".repeat(101);
    let silence = make_silence("id-0", "active", vec![], &comment);
    let text = render_silence(&silence);
    let expected = format!("\n*Comment:* _{}..._", "\u{2192}".repeat(100));
    assert!(text.ends_with(&expected), "got: {}", text);
}

#[test]
fn test_placeholder_comments_not_rendered() {
    for comment in ["-", ".", ""] {
        let silence = make_silence("id-0", "active", vec![], comment);
        let text = render_silence(&silence);
        assert!(!text.contains("*Comment:*"), "comment {:?} was rendered", comment);
    }
}

#[test]
fn test_format_timestamp_plain_utc() {
    assert_eq!(format_timestamp("2024-01-01T00:00:00Z"), "2024-01-01 00:00:00");
}

#[test]
fn test_format_timestamp_drops_fraction() {
    assert_eq!(format_timestamp("2024-01-01T00:00:00.123Z"), "2024-01-01 00:00:00");
    assert_eq!(format_timestamp("2024-12-31T23:59:59.5Z"), "2024-12-31 23:59:59");
}

#[test]
fn test_format_timestamp_other_shapes_unchanged() {
    for input in [
        "",
        "not a timestamp",
        "2024-01-01T00:00:00",
        "2024-01-01 00:00:00Z",
        "2024-01-01T00:00:00.Z",
        "2024-01-01T00:00:0xZ",
    ] {
        assert_eq!(format_timestamp(input), input);
    }
}

#[test]
fn test_usize_to_string() {
    assert_eq!(usize_to_string(0), "0");
    assert_eq!(usize_to_string(9), "9");
    assert_eq!(usize_to_string(10), "10");
    assert_eq!(usize_to_string(23), "23");
    assert_eq!(usize_to_string(120), "120");
    assert_eq!(usize_to_string(98765), "98765");
}
