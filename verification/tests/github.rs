use zeroclaw::github::{GitHubChannel, GITHUB_API_BASE};
use zeroclaw::json::Json;
use zeroclaw::json_text::{decode_json, encode_json_line};
use zeroclaw::webhook::{compose_message, timestamp_or, Refusal};

fn json(text: &str) -> Json {
    decode_json(text).expect("valid JSON")
}

fn make_channel() -> GitHubChannel {
    GitHubChannel::new(
        "token".into(),
        GITHUB_API_BASE.into(),
        Some("secret".into()),
        vec!["zeroclaw-labs/zeroclaw".into()],
        vec!["theonlyhennygod".into()],
        Some("zeroclaw-bot".into()),
    )
}

fn open_channel(base: &str, secret: Option<&str>, bot: Option<&str>) -> GitHubChannel {
    GitHubChannel::new(
        " token\n".into(),
        base.into(),
        secret.map(|s| s.into()),
        vec!["".into(), " * ".into()],
        vec!["*".into()],
        bot.map(|s| s.into()),
    )
}

#[test]
fn github_channel_name() {
    let channel = make_channel();
    assert_eq!(channel.name(), "github");
}

#[test]
fn parse_issue_comment_created_event() {
    let channel = make_channel();
    let payload = json(
        r#"{
            "action": "created",
            "repository": {"full_name": "zeroclaw-labs/zeroclaw"},
            "issue": {"number": 2079},
            "comment": {
                "id": 12345,
                "body": "please add this",
                "created_at": "2026-02-27T12:00:00Z",
                "user": {"login": "theonlyhennygod"}
            }
        }"#,
    );

    let messages = channel.parse_webhook_payload("issue_comment", &payload);
    assert_eq!(messages.len(), 1);
    assert_eq!(messages[0].reply_target, "zeroclaw-labs/zeroclaw#2079");
    assert_eq!(messages[0].sender, "theonlyhennygod");
    assert_eq!(messages[0].content, "please add this");
    assert_eq!(messages[0].id, "12345");
    assert_eq!(messages[0].channel, "github");
    assert_eq!(messages[0].timestamp, 1772193600);
    assert_eq!(messages[0].thread_ts.as_deref(), Some("12345"));
}

#[test]
fn parse_review_comment_created_event() {
    let channel = make_channel();
    let payload = json(
        r#"{
            "action": "created",
            "repository": {"full_name": "zeroclaw-labs/zeroclaw"},
            "pull_request": {"number": 2195},
            "comment": {
                "id": 999,
                "body": "nit: rename this",
                "created_at": "2026-02-27T12:00:00Z",
                "user": {"login": "theonlyhennygod"}
            }
        }"#,
    );

    let messages = channel.parse_webhook_payload("pull_request_review_comment", &payload);
    assert_eq!(messages.len(), 1);
    assert_eq!(messages[0].reply_target, "zeroclaw-labs/zeroclaw#2195");
    assert_eq!(messages[0].channel, "github");
    assert!(channel
        .parse_webhook_payload("issue_comment", &payload)
        .is_empty());
}

#[test]
fn parse_webhook_ignores_unauthorized_or_self_sender() {
    let channel = make_channel();

    let unauthorized_user = json(
        r#"{
            "action": "created",
            "repository": {"full_name": "zeroclaw-labs/zeroclaw"},
            "issue": {"number": 1},
            "comment": {"id": 1, "body": "hello", "user": {"login": "someone-else"}}
        }"#,
    );
    assert!(channel
        .parse_webhook_payload("issue_comment", &unauthorized_user)
        .is_empty());

    let self_sender = json(
        r#"{
            "action": "created",
            "repository": {"full_name": "zeroclaw-labs/zeroclaw"},
            "issue": {"number": 1},
            "comment": {"id": 1, "body": "hello", "user": {"login": "zeroclaw-bot"}}
        }"#,
    );
    assert!(channel
        .parse_webhook_payload("issue_comment", &self_sender)
        .is_empty());
}

#[test]
fn parse_reply_target_requires_owner_repo_hash_number() {
    assert_eq!(
        GitHubChannel::parse_reply_target("zeroclaw-labs/zeroclaw#42"),
        Some(("zeroclaw-labs/zeroclaw", 42))
    );
    assert!(GitHubChannel::parse_reply_target("zeroclaw-labs/zeroclaw").is_none());
    assert!(GitHubChannel::parse_reply_target("zeroclaw-labs/zeroclaw#x").is_none());
}

#[test]
fn reply_target_edges() {
    assert_eq!(
        GitHubChannel::parse_reply_target(" a#b # +7 "),
        Some(("a#b", 7))
    );
    assert!(GitHubChannel::parse_reply_target(" #7").is_none());
    assert!(GitHubChannel::parse_reply_target("a#").is_none());
    assert!(GitHubChannel::parse_reply_target("a#18446744073709551616").is_none());
}

#[test]
fn replies_reach_their_source() {
    let message = compose_message("github", "o/r#1", 42, "s", " c ", "9".to_string(), 5);
    assert_eq!(message.reply_target, "o/r#1#42");
    assert_eq!(message.content, "c");
    assert_eq!(message.timestamp, 5);
    assert_eq!(
        GitHubChannel::parse_reply_target(&message.reply_target),
        Some(("o/r#1", 42))
    );
}

fn comment(action: &str, repo: &str, login: &str, body: &str) -> Json {
    json(&format!(
        r#"{{"action": "{}", "repository": {{"full_name": "{}"}}, "issue": {{"number": 3}},
            "comment": {{"body": {}, "user": {{"login": "{}"}}}}}}"#,
        action, repo, body, login
    ))
}

#[test]
fn events_that_carry_no_message() {
    let channel = make_channel();
    let repo = "zeroclaw-labs/zeroclaw";
    let user = "theonlyhennygod";
    let count = |event: &str, payload: Json| channel.parse_webhook_payload(event, &payload).len();
    assert_eq!(count("issue_comment", comment("created", repo, user, "\"hi\"")), 1);
    assert_eq!(
        count("issue_comment", comment("created", " ZeroClaw-Labs/ZEROCLAW ", "TheOnlyHennyGod", "\"hi\"")),
        1
    );
    assert_eq!(count("issue_comment", comment("edited", repo, user, "\"hi\"")), 0);
    assert_eq!(count("issue_comment", comment("created", "other/repo", user, "\"hi\"")), 0);
    assert_eq!(count("issue_comment", comment("created", " ", user, "\"hi\"")), 0);
    assert_eq!(count("issue_comment", comment("created", repo, "", "\"hi\"")), 0);
    assert_eq!(count("issue_comment", comment("created", repo, user, "\" \"")), 0);
    assert_eq!(count("issue_comment", comment("created", repo, user, "null")), 0);
    assert_eq!(count("push", comment("created", repo, user, "\"hi\"")), 0);
    assert_eq!(count("issue_comment", Json::Null), 0);
}

#[test]
fn comments_without_an_id_get_a_random_one() {
    let channel = open_channel("", None, Some(" BOT "));
    let first = channel.parse_webhook_payload("issue_comment", &comment("created", "o/r", "u", "\" a \""));
    let second = channel.parse_webhook_payload("issue_comment", &comment("created", "o/r", "u", "\"a\""));
    assert_eq!(first[0].id.len(), 36);
    assert_eq!(first[0].thread_ts.as_deref(), Some(first[0].id.as_str()));
    assert_ne!(first[0].id, second[0].id);
    assert_eq!(first[0].content, "a");
    assert!(first[0].timestamp > 1_700_000_000);
    assert!(channel
        .parse_webhook_payload("issue_comment", &comment("created", "o/r", "bot", "\"a\""))
        .is_empty());
}

#[test]
fn timestamps() {
    let at = |text: &str| GitHubChannel::parse_timestamp_secs(Some(&Json::Text(text.to_string())));
    assert_eq!(at("2026-02-27T12:00:00Z"), 1772193600);
    assert_eq!(at("2026-02-27T13:00:00+01:00"), 1772193600);
    assert_eq!(at("1969-12-31T23:59:50Z"), 10);
    assert!(at("yesterday") > 1_700_000_000);
    assert!(GitHubChannel::parse_timestamp_secs(Some(&Json::Null)) > 1_700_000_000);
    assert!(GitHubChannel::parse_timestamp_secs(None) > 1_700_000_000);
    assert_eq!(timestamp_or(None, 7), 7);
    assert_eq!(timestamp_or(Some(i64::MIN), 7), 9223372036854775808);
    assert_eq!(timestamp_or(Some(3), 7), 3);
}

#[test]
fn allowlists() {
    let list: Vec<String> = vec!["".into(), " Alice ".into()];
    assert!(GitHubChannel::allowlist_matches(&list, "aLICE"));
    assert!(!GitHubChannel::allowlist_matches(&list, ""));
    assert!(!GitHubChannel::allowlist_matches(&list, " Alice "));
    assert!(!GitHubChannel::allowlist_matches(&[], "x"));
    assert!(GitHubChannel::allowlist_matches(&["*".to_string()], ""));
    assert!(!GitHubChannel::allowlist_matches(&["**".to_string()], "x"));
}

#[test]
fn configuration_is_cleaned() {
    let channel = open_channel("https://ghe.example//", Some(" s "), Some(" "));
    assert_eq!(channel.api_token(), "token");
    assert_eq!(channel.api_base_url(), "https://ghe.example");
    assert_eq!(channel.webhook_secret(), Some("s"));
    assert!(!channel.is_self_message(""));
    let channel = open_channel("//", Some("  "), None);
    assert_eq!(channel.api_base_url(), GITHUB_API_BASE);
    assert_eq!(channel.webhook_secret(), None);
    assert_eq!(open_channel("", None, None).webhook_secret(), None);
}

#[test]
fn comments_are_addressed() {
    let channel = make_channel();
    let request = channel
        .comment_request("o/r#12", "a \"b\"")
        .expect("valid target");
    assert_eq!(request.url, "https://api.github.com/repos/o/r/issues/12/comments");
    assert_eq!(encode_json_line(request.body), "{\"body\":\"a \\\"b\\\"\"}\n");
    assert_eq!(
        channel.comment_request("o/r", "x").expect_err("no number"),
        "GitHub send target is invalid: expected owner/repo#<issue_or_pr_number>, got o/r"
    );
    assert_eq!(channel.health_url(), "https://api.github.com/rate_limit");
    assert_eq!(GitHubChannel::send_outcome(true, "201 Created"), Ok(()));
    assert_eq!(
        GitHubChannel::send_outcome(false, "404 Not Found"),
        Err("GitHub API error: 404 Not Found".to_string())
    );
}

#[test]
fn refusals_have_a_reason() {
    let channel = make_channel();
    let repo = "zeroclaw-labs/zeroclaw";
    let user = "theonlyhennygod";
    assert_eq!(channel.refusal(repo, user, " hi "), None);
    assert_eq!(channel.refusal("other/repo", "nobody", " "), Some(Refusal::Blank));
    assert_eq!(channel.refusal("other/repo", "nobody", "hi"), Some(Refusal::Repository));
    assert_eq!(channel.refusal(repo, "nobody", "hi"), Some(Refusal::Sender));
    assert_eq!(channel.refusal(repo, "zeroclaw-bot", "hi"), Some(Refusal::Sender));
    let open = open_channel("", None, Some(" BOT "));
    assert_eq!(open.refusal("o/r", "bot", "hi"), Some(Refusal::OwnComment));
    assert!(channel.takes_message(repo, user, "hi"));
    assert!(!open.takes_message("o/r", "bot", "hi"));
}

#[test]
fn refused_webhooks_name_repository_and_sender() {
    let channel = make_channel();
    let user = "theonlyhennygod";
    let refused = channel
        .webhook_refusal("issue_comment", &comment("created", " other/repo ", user, "\"hi\""))
        .expect("not allowed");
    assert_eq!(refused.reason, Refusal::Repository);
    assert_eq!(refused.repo, "other/repo");
    assert_eq!(refused.sender, user);
    let taken = comment("created", "zeroclaw-labs/zeroclaw", user, "\"hi\"");
    assert!(channel.webhook_refusal("issue_comment", &taken).is_none());
    let edited = comment("edited", "other/repo", user, "\"hi\"");
    assert!(channel.webhook_refusal("issue_comment", &edited).is_none());
    let other = comment("created", "other/repo", user, "\"hi\"");
    assert!(channel.webhook_refusal("push", &other).is_none());
    assert!(channel.webhook_refusal("pull_request_review_comment", &other).is_none());
}
