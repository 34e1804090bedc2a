//! Replies on GitHub: where a reply goes, and the request that carries it.

use crate::decimal::{
    decimal, decimal_text, is_digit, law_decimal_injective, lemma_decimal_round_trip,
    lemma_decimal_value, parse_u64, parsed_u64,
};
use crate::github::{api_base, ChannelTree, GitHubChannel, MessageTree};
use crate::json::{field, field_of, text_of, Json, JsonObject, JsonTree};
use crate::text::{
    adjoin, is_blank, last_position, law_split_at_last, lemma_trimmed_blank, lemma_trimmed_fixed,
    lemma_trimmed_parts, rsplit_once, split_at_last, trim, trimmed,
};
use crate::webhook::{is_message_of, reply_target, webhook_comment, CommentTree};
use vstd::prelude::*;
use vstd::string::*;

verus! {

/// The repository and the number that a reply target names: what stands before
/// and behind its last `#`, without the white space around each.
pub open spec fn target_of(target: Seq<char>) -> Option<(Seq<char>, u64)> {
    match split_at_last(target, '#') {
        None => None,
        Some((repo, number)) => if trimmed(repo).len() == 0 {
            None
        } else {
            match parsed_u64(trimmed(number)) {
                Some(n) => Some((trimmed(repo), n)),
                None => None,
            }
        },
    }
}

/// The URL of the comments on an issue or pull request.
pub open spec fn comments_url(base: Seq<char>, repo: Seq<char>, number: u64) -> Seq<char> {
    base + "/repos/"@ + repo + "/issues/"@ + decimal(number as nat) + "/comments"@
}

/// The URL and the body of the request that puts the comment `content` on
/// `recipient`, or the error where that is no target.
pub open spec fn comment_for(
    channel: ChannelTree,
    recipient: Seq<char>,
    content: Seq<char>,
) -> Result<(Seq<char>, JsonTree), Seq<char>> {
    match target_of(recipient) {
        Some((repo, number)) => Ok(
            (
                comments_url(api_base(channel), repo, number),
                JsonTree::Object(map!["body"@ => JsonTree::Text(content)]),
            ),
        ),
        None => Err(
            "GitHub send target is invalid: expected owner/repo#<issue_or_pr_number>, got "@
                + recipient,
        ),
    }
}

/// The URL that tells whether the API of a channel can be reached.
pub open spec fn health_of(channel: ChannelTree) -> Seq<char> {
    api_base(channel) + "/rate_limit"@
}

/// A request that puts a comment on an issue or pull request.
#[derive(Debug)]
pub struct CommentRequest {
    pub url: String,
    pub body: Json,
}

impl GitHubChannel {
    /// Reads a reply target: `owner/repo#<issue_or_pr_number>`.
    pub fn parse_reply_target(reply_target: &str) -> (r: Option<(&str, u64)>)
        ensures
            match r {
                Some((repo, number)) => target_of(reply_target@) == Some((repo@, number)),
                None => target_of(reply_target@) is None,
            },
    {
        match rsplit_once(reply_target, '#') {
            None => None,
            Some((repo, issue_or_pr)) => {
                let repo = trim(repo);
                if repo.is_empty() {
                    return None;
                }
                match parse_u64(trim(issue_or_pr)) {
                    Some(number) => Some((repo, number)),
                    None => None,
                }
            },
        }
    }

    /// The request that puts the comment `content` on `recipient`, or why
    /// there is none.
    pub fn comment_request(&self, recipient: &str, content: &str) -> (r: Result<
        CommentRequest,
        String,
    >)
        ensures
            match target_of(recipient@) {
                Some((repo, number)) => r matches Ok(request) && request.url@ == comments_url(
                    api_base(self@),
                    repo,
                    number,
                ) && request.body@ == JsonTree::Object(map!["body"@ => JsonTree::Text(content@)]),
                None => r matches Err(error) && error@
                    == "GitHub send target is invalid: expected owner/repo#<issue_or_pr_number>, got "@
                    + recipient@,
            },
            match comment_for(self@, recipient@, content@) {
                Ok((url, body)) => r matches Ok(request) && request.url@ == url && request.body@
                    == body,
                Err(message) => r matches Err(error) && error@ == message,
            },
    {
        match Self::parse_reply_target(recipient) {
            Some((repo, number)) => {
                let mut url = adjoin(self.api_base_url(), "/repos/");
                url.append(repo);
                url.append("/issues/");
                url.append(decimal_text(number).as_str());
                url.append("/comments");
                let mut body = JsonObject::new();
                body.insert("body", Json::Text(content.to_owned()));
                Ok(CommentRequest { url, body: Json::Object(body) })
            },
            None => Err(
                adjoin(
                    "GitHub send target is invalid: expected owner/repo#<issue_or_pr_number>, got ",
                    recipient,
                ),
            ),
        }
    }

    /// What comes of sending a comment, given whether the status of the
    /// response is a success, and its text.
    pub fn send_outcome(success: bool, status: &str) -> (r: Result<(), String>)
        ensures
            success ==> r is Ok,
            !success ==> (r matches Err(error) && error@ == "GitHub API error: "@ + status@),
    {
        if success {
            Ok(())
        } else {
            Err(adjoin("GitHub API error: ", status))
        }
    }

    /// The URL that tells whether the API can be reached.
    pub fn health_url(&self) -> (r: String)
        ensures
            r@ == api_base(self@) + "/rate_limit"@,
            r@ == health_of(self@),
    {
        adjoin(self.api_base_url(), "/rate_limit")
    }
}

/// A reply target that was made of a repository and a number names them again,
/// where the repository is not empty and has no white space around it.
pub proof fn law_reply_target_round_trip(repo: Seq<char>, number: u64)
    requires
        repo.len() > 0,
        trimmed(repo) == repo,
    ensures
        target_of(reply_target(repo, number)) == Some((repo, number)),
{
    reveal_strlit("#");
    let digits = decimal(number as nat);
    let target = reply_target(repo, number);
    lemma_decimal_value(number as nat);
    lemma_decimal_round_trip(number);
    assert(is_digit(digits[0]) && is_digit(digits[digits.len() - 1]));
    lemma_trimmed_fixed(digits);
    assert(target =~= repo.push('#') + digits);
    lemma_last_position_behind(repo.push('#'), digits, '#');
    assert(last_position(repo.push('#'), '#') == Some(repo.len() as int));
    assert(target.take(repo.len() as int) =~= repo);
    assert(target.skip(repo.len() as int + 1) =~= digits);
}

proof fn lemma_last_position_behind(head: Seq<char>, tail: Seq<char>, c: char)
    requires
        forall|i: int| 0 <= i < tail.len() ==> #[trigger] tail[i] != c,
    ensures
        last_position(head + tail, c) == last_position(head, c),
    decreases tail.len(),
{
    if tail.len() == 0 {
        assert(head + tail =~= head);
    } else {
        assert((head + tail).drop_last() =~= head + tail.drop_last());
        assert((head + tail).last() == tail[tail.len() - 1]);
        lemma_last_position_behind(head, tail.drop_last(), c);
    }
}

/// A reply to a message goes where the message came from: its target names the
/// repository and the issue or pull request of the comment.
pub proof fn law_reply_reaches_source(
    event: Seq<char>,
    payload: JsonTree,
    comment: CommentTree,
    message: MessageTree,
)
    requires
        webhook_comment(event, payload) == Some(comment),
        is_message_of(comment, message),
    ensures
        target_of(message.reply_target) == Some((comment.repo, comment.number)),
{
    let raw = text_of(
        field_of(field(payload, "repository"@), "full_name"@),
    );
    lemma_trimmed_parts(raw->0);
    law_reply_target_round_trip(comment.repo, comment.number);
}

/// A reply target is read at its last `#`: what stands before it, without the
/// white space around it, is the repository, and what stands behind it is the
/// number. It is no target if nothing stands before, or no number behind.
pub proof fn law_target_read(head: Seq<char>, tail: Seq<char>)
    requires
        !tail.contains('#'),
    ensures
        ({
            let target = head.push('#') + tail;
            &&& is_blank(head) ==> target_of(target) is None
            &&& parsed_u64(trimmed(tail)) is None ==> target_of(target) is None
            &&& !is_blank(head) ==> {
                parsed_u64(trimmed(tail)) matches Some(number) ==> target_of(target) == Some(
                    (trimmed(head), number),
                )
            }
        }),
{
    let target = head.push('#') + tail;
    assert forall|i: int| 0 <= i < tail.len() implies #[trigger] tail[i] != '#' by {}
    lemma_last_position_behind(head.push('#'), tail, '#');
    assert(last_position(head.push('#'), '#') == Some(head.len() as int));
    assert(target.take(head.len() as int) =~= head);
    assert(target.skip(head.len() as int + 1) =~= tail);
    lemma_trimmed_blank(head);
}

/// A text without `#` is no reply target.
pub proof fn law_target_needs_mark(target: Seq<char>)
    requires
        !target.contains('#'),
    ensures
        target_of(target) is None,
{
    law_split_at_last(target, '#');
}

/// The URL of the comments is the base that is given and a path behind it; the
/// path says the repository and the number, and is the same whatever the base.
/// So different bases give different URLs, and so do different numbers.
pub proof fn law_comments_url(
    base: Seq<char>,
    other: Seq<char>,
    repo: Seq<char>,
    number: u64,
    other_number: u64,
)
    ensures
        comments_url(base, repo, number) == base + comments_url(seq![], repo, number),
        comments_url(seq![], repo, number) == "/repos/"@ + repo + "/issues/"@ + decimal(
            number as nat,
        ) + "/comments"@,
        comments_url(base, repo, number) == comments_url(other, repo, number) ==> base == other,
        comments_url(base, repo, number) == comments_url(base, repo, other_number) ==> number
            == other_number,
{
    let path = comments_url(seq![], repo, number);
    assert(path =~= "/repos/"@ + repo + "/issues/"@ + decimal(number as nat) + "/comments"@);
    assert(comments_url(base, repo, number) =~= base + path);
    assert(comments_url(other, repo, number) =~= other + path);
    if base + path == other + path {
        lemma_same_end(base, other, path);
    }
    let start = base + "/repos/"@ + repo + "/issues/"@;
    let digits = decimal(number as nat);
    let others = decimal(other_number as nat);
    let end = "/comments"@;
    let one = comments_url(base, repo, number);
    let two = comments_url(base, repo, other_number);
    assert(one =~= start + digits + end);
    assert(two =~= start + others + end);
    if one == two {
        assert(digits.len() == others.len());
        assert(digits =~= one.subrange(start.len() as int, (start.len() + digits.len()) as int));
        assert(others =~= two.subrange(start.len() as int, (start.len() + digits.len()) as int));
        law_decimal_injective(number as nat, other_number as nat);
    }
}

/// A comment goes to the API that the channel is configured with, to the
/// repository and the number that the recipient names, and says what it was
/// given, unchanged and nothing else.
pub proof fn law_comment_addressed(
    channel: ChannelTree,
    head: Seq<char>,
    tail: Seq<char>,
    content: Seq<char>,
)
    requires
        !tail.contains('#'),
        !is_blank(head),
        parsed_u64(trimmed(tail)) is Some,
    ensures
        ({
            let number = parsed_u64(trimmed(tail))->0;
            let path = "/repos/"@ + trimmed(head) + "/issues/"@ + decimal(number as nat)
                + "/comments"@;
            &&& comment_for(channel, head.push('#') + tail, content) matches Ok((url, body))
            &&& url == api_base(channel) + path
            &&& field(body, "body"@) == Some(JsonTree::Text(content))
            &&& forall|key: Seq<char>| key != "body"@ ==> #[trigger] field(body, key) is None
        }),
{
    law_target_read(head, tail);
    let number = parsed_u64(trimmed(tail))->0;
    law_comments_url(api_base(channel), seq![], trimmed(head), number, number);
}

/// A recipient is refused if and only if it is no target, whatever is to be
/// said, and the error names the recipient.
pub proof fn law_comment_refused(
    channel: ChannelTree,
    recipient: Seq<char>,
    content: Seq<char>,
)
    ensures
        comment_for(channel, recipient, content) is Err <==> target_of(recipient) is None,
        comment_for(channel, recipient, content) matches Err(error) ==> error
            == "GitHub send target is invalid: expected owner/repo#<issue_or_pr_number>, got "@
            + recipient,
{
}

/// The answer to a message goes to the API of the channel, to the repository and
/// the number that the comment was on.
pub proof fn law_answer_addressed(
    channel: ChannelTree,
    event: Seq<char>,
    payload: JsonTree,
    comment: CommentTree,
    message: MessageTree,
    content: Seq<char>,
)
    requires
        webhook_comment(event, payload) == Some(comment),
        is_message_of(comment, message),
    ensures
        comment_for(channel, message.reply_target, content) matches Ok((url, body)) && url
            == api_base(channel) + ("/repos/"@ + comment.repo + "/issues/"@ + decimal(
            comment.number as nat,
        ) + "/comments"@) && field(body, "body"@) == Some(JsonTree::Text(content)),
{
    law_reply_reaches_source(event, payload, comment, message);
    law_comments_url(api_base(channel), seq![], comment.repo, comment.number, comment.number);
}

/// Whether the API can be reached is asked of the API that the channel is
/// configured with.
pub proof fn law_health_asked_of_base(channel: ChannelTree, other: ChannelTree)
    ensures
        health_of(channel) == api_base(channel) + "/rate_limit"@,
        health_of(channel) == health_of(other) ==> api_base(channel) == api_base(other),
{
    if health_of(channel) == health_of(other) {
        lemma_same_end(api_base(channel), api_base(other), "/rate_limit"@);
    }
}

proof fn lemma_same_end(a: Seq<char>, b: Seq<char>, end: Seq<char>)
    requires
        a + end == b + end,
    ensures
        a == b,
{
    assert((a + end).len() == a.len() + end.len());
    assert((b + end).len() == b.len() + end.len());
    assert forall|i: int| 0 <= i < a.len() implies a[i] == b[i] by {
        assert((a + end)[i] == a[i]);
        assert((b + end)[i] == b[i]);
    }
    assert(a =~= b);
}

} // verus!
