//! Webhooks of GitHub: which comment an event carries, and the message that is
//! made of it.

use crate::decimal::{decimal, decimal_text};
use crate::github::{
    allows, is_own_login, law_allowlist_ignores_case, trimmed_non_empty, ChannelMessage,
    ChannelTree, GitHubChannel, MessageTree,
};
use crate::ids::{is_random_uuid, random_uuid};
use crate::json::{chars_of_option, field, field_of, text_of, tree_of, u64_of, Json, JsonTree};
use crate::text::{
    adjoin, ascii_folded, is_blank, is_space, law_trim_keeps_the_rest, lemma_trimmed_blank,
    lemma_trimmed_parts, same_text, trim, trimmed,
};
use vstd::prelude::*;
use vstd::string::*;

verus! {

/// The seconds since 1970 that `chrono::DateTime::parse_from_rfc3339` reads in
/// a text, if it reads a time.
pub uninterp spec fn rfc3339_seconds(text: Seq<char>) -> Option<i64>;

/// `chrono::DateTime::parse_from_rfc3339`, and `timestamp` of the time that it
/// read: a function of the text alone, which is named.
#[verifier::external_body]
fn rfc3339_timestamp(text: &str) -> (r: Option<i64>)
    ensures
        r == rfc3339_seconds(text@),
{
    chrono::DateTime::parse_from_rfc3339(text).ok().map(|time| time.timestamp())
}

/// `std::time::SystemTime::elapsed` on `UNIX_EPOCH`: the present, in seconds
/// since 1970, or zero where the clock stands before that. Nothing is claimed
/// of it, since it depends on the clock of the machine.
#[verifier::external_body]
fn now_unix_secs() -> (r: u64) {
    std::time::UNIX_EPOCH.elapsed().unwrap_or_default().as_secs()
}

/// The distance of a time from 1970, in seconds.
pub open spec fn distance(seconds: i64) -> u64 {
    if seconds < 0 {
        (-seconds) as u64
    } else {
        seconds as u64
    }
}

/// The timestamp that a time in a payload stands for, if it is a time.
pub open spec fn created_timestamp(created_at: Option<JsonTree>) -> Option<u64> {
    match text_of(created_at) {
        Some(text) => match rfc3339_seconds(text) {
            Some(seconds) => Some(distance(seconds)),
            None => None,
        },
        None => None,
    }
}

/// The timestamp of a message: the time that was read, or else `now`.
pub fn timestamp_or(parsed: Option<i64>, now: u64) -> (r: u64)
    ensures
        r == match parsed {
            Some(seconds) => distance(seconds),
            None => now,
        },
{
    match parsed {
        Some(seconds) => if seconds < 0 {
            (-(seconds as i128)) as u64
        } else {
            seconds as u64
        },
        None => now,
    }
}

/// A comment, as a webhook reports it.
pub struct CommentTree {
    pub repo: Seq<char>,
    pub number: u64,
    pub sender: Seq<char>,
    pub body: Seq<char>,
    pub comment_id: Option<u64>,
    pub created_at: Option<JsonTree>,
}

/// A comment in a payload.
struct Comment<'a> {
    repo: &'a str,
    number: u64,
    sender: &'a str,
    body: &'a str,
    comment_id: Option<u64>,
    created_at: Option<&'a Json>,
}

impl<'a> View for Comment<'a> {
    type V = CommentTree;

    closed spec fn view(&self) -> CommentTree {
        CommentTree {
            repo: self.repo@,
            number: self.number,
            sender: self.sender@,
            body: self.body@,
            comment_id: self.comment_id,
            created_at: tree_of(self.created_at),
        }
    }
}

/// The comment that a payload reports as created, where the issue or pull
/// request that it is on is described under the key `subject`.
pub open spec fn comment_of(payload: JsonTree, subject: Seq<char>) -> Option<CommentTree> {
    let comment = field(payload, "comment"@);
    let repo = trimmed_non_empty(
        text_of(field_of(field(payload, "repository"@), "full_name"@)),
    );
    let number = u64_of(field_of(field(payload, subject), "number"@));
    let sender = trimmed_non_empty(
        text_of(field_of(field_of(comment, "user"@), "login"@)),
    );
    if text_of(field(payload, "action"@)) == Some("created"@) && repo is Some && number is Some
        && sender is Some {
        Some(
            CommentTree {
                repo: repo->0,
                number: number->0,
                sender: sender->0,
                body: match text_of(field_of(comment, "body"@)) {
                    Some(body) => body,
                    None => seq![],
                },
                comment_id: u64_of(field_of(comment, "id"@)),
                created_at: field_of(comment, "created_at"@),
            },
        )
    } else {
        None
    }
}

/// The comment that an event reports.
pub open spec fn webhook_comment(event: Seq<char>, payload: JsonTree) -> Option<CommentTree> {
    if event == "issue_comment"@ {
        comment_of(payload, "issue"@)
    } else if event == "pull_request_review_comment"@ {
        comment_of(payload, "pull_request"@)
    } else {
        None
    }
}

/// Tells whether a channel takes a text: it is not blank, the repository and
/// the sender are allowed, and the sender is not the bot itself.
pub open spec fn takes(
    channel: ChannelTree,
    repo: Seq<char>,
    sender: Seq<char>,
    content: Seq<char>,
) -> bool {
    &&& trimmed(content).len() > 0
    &&& allows(channel.allowed_repos, repo)
    &&& allows(channel.allowed_users, sender)
    &&& !is_own_login(channel, sender)
}

/// Why a text is not taken.
#[derive(Debug, Clone, Copy, PartialEq, Eq, Structural)]
pub enum Refusal {
    /// The text is blank.
    Blank,
    /// The repository is not allowed.
    Repository,
    /// The sender is not allowed.
    Sender,
    /// The sender is the bot itself.
    OwnComment,
}

/// Why a channel does not take a text: the first reason of those that hold, in
/// the order of [`Refusal`].
pub open spec fn refusal_of(
    channel: ChannelTree,
    repo: Seq<char>,
    sender: Seq<char>,
    content: Seq<char>,
) -> Option<Refusal> {
    if trimmed(content).len() == 0 {
        Some(Refusal::Blank)
    } else if !allows(channel.allowed_repos, repo) {
        Some(Refusal::Repository)
    } else if !allows(channel.allowed_users, sender) {
        Some(Refusal::Sender)
    } else if is_own_login(channel, sender) {
        Some(Refusal::OwnComment)
    } else {
        None
    }
}

/// A comment that is not taken, and why.
#[derive(Debug)]
pub struct RefusedComment {
    pub repo: String,
    pub sender: String,
    pub reason: Refusal,
}

/// Where a reply to a message goes: the repository and the number of the issue
/// or pull request.
pub open spec fn reply_target(repo: Seq<char>, number: u64) -> Seq<char> {
    repo + "#"@ + decimal(number as nat)
}

/// The message that is made of a text, given its id and its timestamp.
pub open spec fn message_tree(
    channel: Seq<char>,
    repo: Seq<char>,
    number: u64,
    sender: Seq<char>,
    content: Seq<char>,
    id: Seq<char>,
    timestamp: u64,
) -> MessageTree {
    MessageTree {
        id,
        sender,
        reply_target: reply_target(repo, number),
        content: trimmed(content),
        channel,
        timestamp,
        thread_ts: Some(id),
    }
}

/// Tells whether `id` may be the id of a message: that of the comment, or a
/// random one where the comment has none.
pub open spec fn is_message_id(comment_id: Option<u64>, id: Seq<char>) -> bool {
    match comment_id {
        Some(n) => id == decimal(n as nat),
        None => is_random_uuid(id),
    }
}

/// Tells whether `message` is made of `comment` by the channel `github`. Where
/// the comment does not say when it was created, any timestamp will do.
pub open spec fn is_message_of(comment: CommentTree, message: MessageTree) -> bool {
    &&& message == message_tree(
        "github"@,
        comment.repo,
        comment.number,
        comment.sender,
        comment.body,
        message.id,
        message.timestamp,
    )
    &&& is_message_id(comment.comment_id, message.id)
    &&& created_timestamp(comment.created_at) matches Some(t) ==> message.timestamp == t
}

/// Builds the message that is made of a text, given its id and its timestamp.
pub fn compose_message(
    channel: &str,
    repo: &str,
    issue_or_pr_number: u64,
    sender: &str,
    content: &str,
    id: String,
    timestamp: u64,
) -> (r: ChannelMessage)
    ensures
        r@ == message_tree(
            channel@,
            repo@,
            issue_or_pr_number,
            sender@,
            content@,
            id@,
            timestamp,
        ),
{
    let mut reply_target = adjoin(repo, "#");
    reply_target.append(decimal_text(issue_or_pr_number).as_str());
    ChannelMessage {
        id: id.clone(),
        sender: sender.to_owned(),
        reply_target,
        content: trim(content).to_owned(),
        channel: channel.to_owned(),
        timestamp,
        thread_ts: Some(id),
    }
}

fn get<'a>(value: Option<&'a Json>, key: &str) -> (r: Option<&'a Json>)
    ensures
        tree_of(r) == field_of(tree_of(value), key@),
{
    match value {
        Some(inner) => inner.get(key),
        None => None,
    }
}

fn text<'a>(value: Option<&'a Json>) -> (r: Option<&'a str>)
    ensures
        chars_of_option(r) == text_of(tree_of(value)),
{
    match value {
        Some(inner) => inner.as_str(),
        None => None,
    }
}

fn number(value: Option<&Json>) -> (r: Option<u64>)
    ensures
        r == u64_of(tree_of(value)),
{
    match value {
        Some(inner) => inner.as_u64(),
        None => None,
    }
}

fn trimmed_text<'a>(value: Option<&'a Json>) -> (r: Option<&'a str>)
    ensures
        chars_of_option(r) == trimmed_non_empty(text_of(tree_of(value))),
{
    match text(value) {
        Some(s) => {
            let part = trim(s);
            if part.is_empty() {
                None
            } else {
                Some(part)
            }
        },
        None => None,
    }
}

fn read_comment<'a>(payload: &'a Json, subject: &str) -> (r: Option<Comment<'a>>)
    ensures
        match r {
            Some(comment) => comment_of(payload@, subject@) == Some(comment@),
            None => comment_of(payload@, subject@) is None,
        },
{
    match text(payload.get("action")) {
        Some(action) => if !same_text(action, "created") {
            return None;
        },
        None => {
            return None;
        },
    }
    let repo = match trimmed_text(get(payload.get("repository"), "full_name")) {
        Some(repo) => repo,
        None => {
            return None;
        },
    };
    let subject_number: u64 = match number(get(payload.get(subject), "number")) {
        Some(n) => n,
        None => {
            return None;
        },
    };
    let comment = payload.get("comment");
    let sender = match trimmed_text(get(get(comment, "user"), "login")) {
        Some(sender) => sender,
        None => {
            return None;
        },
    };
    proof {
        reveal_strlit("");
    }
    let body = match text(get(comment, "body")) {
        Some(body) => body,
        None => "",
    };
    assert(text_of(field_of(tree_of(comment), "body"@)) is None ==> body@ =~= seq![]);
    Some(
        Comment {
            repo,
            number: subject_number,
            sender,
            body,
            comment_id: number(get(comment, "id")),
            created_at: get(comment, "created_at"),
        },
    )
}

fn read_webhook<'a>(event: &str, payload: &'a Json) -> (r: Option<Comment<'a>>)
    ensures
        match r {
            Some(comment) => webhook_comment(event@, payload@) == Some(comment@),
            None => webhook_comment(event@, payload@) is None,
        },
{
    if same_text(event, "issue_comment") {
        read_comment(payload, "issue")
    } else if same_text(event, "pull_request_review_comment") {
        read_comment(payload, "pull_request")
    } else {
        None
    }
}

impl GitHubChannel {
    /// The timestamp of a message that was created at `value`: that time, if
    /// it is one, and else the present.
    pub fn parse_timestamp_secs(value: Option<&Json>) -> (r: u64)
        ensures
            created_timestamp(tree_of(value)) matches Some(t) ==> r == t,
    {
        let parsed = match text(value) {
            Some(raw) => rfc3339_timestamp(raw),
            None => None,
        };
        timestamp_or(parsed, now_unix_secs())
    }

    /// Tells why a text is not taken, if it is not.
    pub fn refusal(&self, repo: &str, sender: &str, content: &str) -> (r: Option<Refusal>)
        ensures
            r == refusal_of(self@, repo@, sender@, content@),
            r is None <==> takes(self@, repo@, sender@, content@),
    {
        if trim(content).is_empty() {
            Some(Refusal::Blank)
        } else if !self.is_repo_allowed(repo) {
            Some(Refusal::Repository)
        } else if !self.is_user_allowed(sender) {
            Some(Refusal::Sender)
        } else if self.is_self_message(sender) {
            Some(Refusal::OwnComment)
        } else {
            None
        }
    }

    /// Tells whether a text is taken.
    pub fn takes_message(&self, repo: &str, sender: &str, content: &str) -> (r: bool)
        ensures
            r == takes(self@, repo@, sender@, content@),
    {
        self.refusal(repo, sender, content).is_none()
    }

    /// Builds the message that is made of a text, if it is taken.
    pub fn build_message(
        &self,
        channel: &str,
        repo: &str,
        issue_or_pr_number: u64,
        sender: &str,
        content: &str,
        comment_id: Option<u64>,
        created_at: Option<&Json>,
    ) -> (r: Option<ChannelMessage>)
        ensures
            r is Some <==> takes(self@, repo@, sender@, content@),
            r matches Some(message) ==> {
                &&& message@ == message_tree(
                    channel@,
                    repo@,
                    issue_or_pr_number,
                    sender@,
                    content@,
                    message@.id,
                    message@.timestamp,
                )
                &&& is_message_id(comment_id, message@.id)
                &&& created_timestamp(tree_of(created_at)) matches Some(t) ==> message@.timestamp
                    == t
            },
    {
        if !self.takes_message(repo, sender, content) {
            return None;
        }
        let id = match comment_id {
            Some(n) => decimal_text(n),
            None => random_uuid(),
        };
        let timestamp = Self::parse_timestamp_secs(created_at);
        Some(compose_message(channel, repo, issue_or_pr_number, sender, content, id, timestamp))
    }

    fn parse_comment(&self, payload: &Json, subject: &str) -> (r: Option<ChannelMessage>)
        ensures
            match comment_of(payload@, subject@) {
                Some(comment) => {
                    &&& r is Some <==> takes(self@, comment.repo, comment.sender, comment.body)
                    &&& r matches Some(message) ==> is_message_of(comment, message@)
                },
                None => r is None,
            },
    {
        match read_comment(payload, subject) {
            Some(comment) => self.build_message(
                "github",
                comment.repo,
                comment.number,
                comment.sender,
                comment.body,
                comment.comment_id,
                comment.created_at,
            ),
            None => None,
        }
    }

    /// The message in an event that reports a comment on an issue.
    pub fn parse_issue_comment(&self, payload: &Json) -> (r: Option<ChannelMessage>)
        ensures
            match comment_of(payload@, "issue"@) {
                Some(comment) => {
                    &&& r is Some <==> takes(self@, comment.repo, comment.sender, comment.body)
                    &&& r matches Some(message) ==> is_message_of(comment, message@)
                },
                None => r is None,
            },
    {
        self.parse_comment(payload, "issue")
    }

    /// The message in an event that reports a comment on a pull request.
    pub fn parse_review_comment(&self, payload: &Json) -> (r: Option<ChannelMessage>)
        ensures
            match comment_of(payload@, "pull_request"@) {
                Some(comment) => {
                    &&& r is Some <==> takes(self@, comment.repo, comment.sender, comment.body)
                    &&& r matches Some(message) ==> is_message_of(comment, message@)
                },
                None => r is None,
            },
    {
        self.parse_comment(payload, "pull_request")
    }

    /// The messages in an event: one, if it reports a comment that is taken.
    pub fn parse_webhook_payload(&self, event: &str, payload: &Json) -> (r: Vec<ChannelMessage>)
        ensures
            match webhook_comment(event@, payload@) {
                Some(comment) => if takes(self@, comment.repo, comment.sender, comment.body) {
                    r@.len() == 1 && is_message_of(comment, r@[0]@)
                } else {
                    r@.len() == 0
                },
                None => r@.len() == 0,
            },
    {
        let parsed = if same_text(event, "issue_comment") {
            self.parse_issue_comment(payload)
        } else if same_text(event, "pull_request_review_comment") {
            self.parse_review_comment(payload)
        } else {
            None
        };
        let mut messages: Vec<ChannelMessage> = Vec::new();
        if let Some(message) = parsed {
            messages.push(message);
        }
        messages
    }

    /// The comment in an event that is not taken, and why: none, if the event
    /// reports no comment, or one that is taken.
    pub fn webhook_refusal(&self, event: &str, payload: &Json) -> (r: Option<RefusedComment>)
        ensures
            match webhook_comment(event@, payload@) {
                Some(comment) => match refusal_of(
                    self@,
                    comment.repo,
                    comment.sender,
                    comment.body,
                ) {
                    Some(reason) => r matches Some(refused) && refused.repo@ == comment.repo
                        && refused.sender@ == comment.sender && refused.reason == reason,
                    None => r is None,
                },
                None => r is None,
            },
    {
        let comment = match read_webhook(event, payload) {
            Some(comment) => comment,
            None => {
                return None;
            },
        };
        match self.refusal(comment.repo, comment.sender, comment.body) {
            Some(reason) => Some(
                RefusedComment {
                    repo: comment.repo.to_owned(),
                    sender: comment.sender.to_owned(),
                    reason,
                },
            ),
            None => None,
        }
    }
}

/// A comment that may not be taken is never taken: one that is blank, one from
/// a repository or a sender that is not allowed, and one of the bot itself.
pub proof fn law_unauthorized_ignored(channel: ChannelTree, comment: CommentTree)
    requires
        trimmed(comment.body).len() == 0 || !allows(channel.allowed_repos, comment.repo)
            || !allows(channel.allowed_users, comment.sender) || is_own_login(
            channel,
            comment.sender,
        ),
    ensures
        !takes(channel, comment.repo, comment.sender, comment.body),
{
}

/// A comment is refused for a reason if and only if it is not taken, and the
/// reason holds of it.
pub proof fn law_refusal_reason(
    channel: ChannelTree,
    repo: Seq<char>,
    sender: Seq<char>,
    content: Seq<char>,
)
    ensures
        refusal_of(channel, repo, sender, content) is None <==> takes(
            channel,
            repo,
            sender,
            content,
        ),
        match refusal_of(channel, repo, sender, content) {
            Some(Refusal::Blank) => trimmed(content).len() == 0,
            Some(Refusal::Repository) => !allows(channel.allowed_repos, repo),
            Some(Refusal::Sender) => !allows(channel.allowed_users, sender),
            Some(Refusal::OwnComment) => is_own_login(channel, sender),
            None => true,
        },
{
}

/// Whether a comment is taken does not depend on the case of the ASCII letters
/// in the repository and the sender.
pub proof fn law_takes_ignores_case(
    channel: ChannelTree,
    repo: Seq<char>,
    other_repo: Seq<char>,
    sender: Seq<char>,
    other_sender: Seq<char>,
    content: Seq<char>,
)
    requires
        ascii_folded(repo) == ascii_folded(other_repo),
        ascii_folded(sender) == ascii_folded(other_sender),
    ensures
        takes(channel, repo, sender, content) == takes(channel, other_repo, other_sender, content),
{
    law_allowlist_ignores_case(channel.allowed_repos, repo, other_repo);
    law_allowlist_ignores_case(channel.allowed_users, sender, other_sender);
}

/// A message says what the comment says, all of it: the body of the comment is
/// the content with blank texts around it. The content is not empty, and neither
/// starts nor ends with white space.
pub proof fn law_message_content(
    channel: ChannelTree,
    comment: CommentTree,
    message: MessageTree,
)
    requires
        takes(channel, comment.repo, comment.sender, comment.body),
        is_message_of(comment, message),
    ensures
        message.content.len() > 0,
        trimmed(message.content) == message.content,
        !is_space(message.content.first()),
        !is_space(message.content.last()),
        exists|a: Seq<char>, b: Seq<char>|
            is_blank(a) && is_blank(b) && comment.body == #[trigger] (a + message.content + b),
{
    lemma_trimmed_parts(comment.body);
    law_trim_keeps_the_rest(comment.body);
}

/// A message that is made of given parts holds each of them: the content is all
/// of the text but for white space at its ends, a reply goes to the repository
/// and the number, and the thread is the message itself.
pub proof fn law_message_parts(
    channel: Seq<char>,
    repo: Seq<char>,
    number: u64,
    sender: Seq<char>,
    content: Seq<char>,
    id: Seq<char>,
    timestamp: u64,
)
    ensures
        ({
            let message = message_tree(channel, repo, number, sender, content, id, timestamp);
            &&& message.channel == channel
            &&& message.sender == sender
            &&& message.id == id
            &&& message.thread_ts == Some(id)
            &&& message.timestamp == timestamp
            &&& message.reply_target == repo + seq!['#'] + decimal(number as nat)
            &&& message.content.len() > 0 ==> !is_space(message.content.first()) && !is_space(
                message.content.last(),
            )
            &&& exists|a: Seq<char>, b: Seq<char>|
                is_blank(a) && is_blank(b) && content == #[trigger] (a + message.content + b)
        }),
{
    reveal_strlit("#");
    assert("#"@ =~= seq!['#']);
    law_trim_keeps_the_rest(content);
}

/// A message names the comment that it was made of: its sender, its id in
/// decimal digits where it has one, and the issue or pull request that it is on.
/// The time is that at which the comment was created, where that can be read,
/// in seconds before or behind 1970.
pub proof fn law_message_source(comment: CommentTree, message: MessageTree)
    requires
        is_message_of(comment, message),
    ensures
        message.channel == "github"@,
        message.sender == comment.sender,
        message.reply_target == comment.repo + seq!['#'] + decimal(comment.number as nat),
        message.thread_ts == Some(message.id),
        comment.comment_id matches Some(n) ==> message.id == decimal(n as nat),
        comment.comment_id is None ==> is_random_uuid(message.id),
        comment.created_at matches Some(JsonTree::Text(text)) ==> {
            rfc3339_seconds(text) matches Some(seconds) ==> {
                &&& seconds >= 0 ==> message.timestamp == seconds
                &&& seconds < 0 ==> message.timestamp == -seconds
            }
        },
{
    reveal_strlit("#");
    assert("#"@ =~= seq!['#']);
}

/// A time that can be read gives its distance from 1970, whatever the sign; what
/// is no text, or no time, gives none.
pub proof fn law_created_timestamp(created_at: Option<JsonTree>, text: Seq<char>, seconds: i64)
    ensures
        seconds >= 0 ==> distance(seconds) == seconds,
        seconds < 0 ==> distance(seconds) == -seconds,
        created_at == Some(JsonTree::Text(text)) && rfc3339_seconds(text) == Some(seconds)
            ==> created_timestamp(created_at) == Some(distance(seconds)),
        created_at == Some(JsonTree::Text(text)) && rfc3339_seconds(text) is None
            ==> created_timestamp(created_at) is None,
        !(created_at matches Some(value) && value is Text) ==> created_timestamp(created_at) is None,
{
}

/// Tells whether events of one kind describe what a comment is on under
/// `subject`.
pub open spec fn is_subject_of(event: Seq<char>, subject: Seq<char>) -> bool {
    ||| event == "issue_comment"@ && subject == "issue"@
    ||| event == "pull_request_review_comment"@ && subject == "pull_request"@
}

proof fn lemma_event_names()
    ensures
        "issue_comment"@ != "pull_request_review_comment"@,
{
    reveal_strlit("issue_comment");
    reveal_strlit("pull_request_review_comment");
    assert("issue_comment"@.len() != "pull_request_review_comment"@.len());
}

/// An event that says that a comment was created, where, by whom and on what,
/// reports that comment: the names without the white space around them, the
/// numbers and the time as they are, and the body as it is, or empty where it is
/// no text.
pub proof fn law_comment_reported(
    event: Seq<char>,
    subject: Seq<char>,
    payload: JsonTree,
    full_name: Seq<char>,
    number: u64,
    login: Seq<char>,
)
    requires
        is_subject_of(event, subject),
        field(payload, "action"@) == Some(JsonTree::Text("created"@)),
        field_of(field(payload, "repository"@), "full_name"@) == Some(JsonTree::Text(full_name)),
        field_of(field(payload, subject), "number"@) == Some(JsonTree::Integer(number as int)),
        field_of(field_of(field(payload, "comment"@), "user"@), "login"@) == Some(
            JsonTree::Text(login),
        ),
        !is_blank(full_name),
        !is_blank(login),
    ensures
        ({
            let parts = field(payload, "comment"@);
            &&& webhook_comment(event, payload) matches Some(comment)
            &&& comment.repo == trimmed(full_name)
            &&& comment.number == number
            &&& comment.sender == trimmed(login)
            &&& field_of(parts, "body"@) matches Some(JsonTree::Text(body)) ==> comment.body == body
            &&& !(field_of(parts, "body"@) matches Some(body) && body is Text) ==> comment.body
                == Seq::<char>::empty()
            &&& field_of(parts, "id"@) matches Some(JsonTree::Integer(n)) ==> comment.comment_id
                == if 0 <= n <= u64::MAX {
                Some(n as u64)
            } else {
                None
            }
            &&& !(field_of(parts, "id"@) matches Some(id) && id is Integer) ==> comment.comment_id
                is None
            &&& comment.created_at == field_of(parts, "created_at"@)
        }),
{
    lemma_event_names();
    lemma_trimmed_blank(full_name);
    lemma_trimmed_blank(login);
}

/// An event reports a comment only if it is of one of the two kinds, and says
/// that a comment was created, in which repository, on which issue or pull
/// request, and by whom.
pub proof fn law_no_other_comment(event: Seq<char>, payload: JsonTree)
    requires
        webhook_comment(event, payload) is Some,
    ensures
        event == "issue_comment"@ || event == "pull_request_review_comment"@,
        field(payload, "action"@) == Some(JsonTree::Text("created"@)),
        field_of(field(payload, "repository"@), "full_name"@) matches Some(JsonTree::Text(name))
            && !is_blank(name),
        field_of(field_of(field(payload, "comment"@), "user"@), "login"@) matches Some(
            JsonTree::Text(login),
        ) && !is_blank(login),
        forall|subject: Seq<char>| #[trigger]
            is_subject_of(event, subject) ==> {
                field_of(field(payload, subject), "number"@) matches Some(JsonTree::Integer(n)) && 0
                    <= n <= u64::MAX
            },
{
    lemma_event_names();
    lemma_trimmed_blank(text_of(field_of(field(payload, "repository"@), "full_name"@))->0);
    lemma_trimmed_blank(
        text_of(field_of(field_of(field(payload, "comment"@), "user"@), "login"@))->0,
    );
}

/// A comment that says something, from a repository and a sender that are
/// allowed, is taken, unless it is one of the bot itself.
pub proof fn law_allowed_taken(
    channel: ChannelTree,
    repo: Seq<char>,
    sender: Seq<char>,
    content: Seq<char>,
)
    requires
        !is_blank(content),
        allows(channel.allowed_repos, repo),
        allows(channel.allowed_users, sender),
        !is_own_login(channel, sender),
    ensures
        takes(channel, repo, sender, content),
{
    lemma_trimmed_blank(content);
}

/// The reason for a refusal is the first that holds: the text is looked at
/// before the repository, the repository before the sender, and both before
/// whose comment it is.
pub proof fn law_refusal_order(
    channel: ChannelTree,
    repo: Seq<char>,
    sender: Seq<char>,
    content: Seq<char>,
)
    ensures
        refusal_of(channel, repo, sender, content) == Some(Refusal::Blank) <==> is_blank(content),
        refusal_of(channel, repo, sender, content) == Some(Refusal::Repository) <==> !is_blank(
            content,
        ) && !allows(channel.allowed_repos, repo),
        refusal_of(channel, repo, sender, content) == Some(Refusal::Sender) <==> !is_blank(content)
            && allows(channel.allowed_repos, repo) && !allows(channel.allowed_users, sender),
{
    lemma_trimmed_blank(content);
}

} // verus!
