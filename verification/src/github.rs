//! The GitHub channel: comments on issues and pull requests, received by
//! webhook and sent by the REST API.

use crate::json::chars_of_option;
use crate::text::{
    ascii_folded, eq_ignore_ascii_case, is_blank, is_space, law_run_taken_from_end,
    law_trim_takes_blank_ends, lemma_trimmed_blank, lemma_trimmed_fixed, lemma_trimmed_parts,
    same_text, texts, trim, trim_end_of, trimmed, trimmed_end_of,
};
use vstd::prelude::*;
use vstd::string::*;

verus! {

/// The base of the REST API where none is configured.
pub const GITHUB_API_BASE: &'static str = "https://api.github.com";

/// The header `User-Agent` of a request.
pub const GITHUB_USER_AGENT: &'static str = "zeroclaw-github-channel";

/// The header `Accept` of a request.
pub const GITHUB_ACCEPT: &'static str = "application/vnd.github+json";

/// The header `X-GitHub-Api-Version` of a comment.
pub const GITHUB_API_VERSION: &'static str = "2022-11-28";

/// A message that a channel received.
#[derive(Debug)]
pub struct ChannelMessage {
    pub id: String,
    pub sender: String,
    pub reply_target: String,
    pub content: String,
    pub channel: String,
    pub timestamp: u64,
    pub thread_ts: Option<String>,
}

/// What a message says.
pub struct MessageTree {
    pub id: Seq<char>,
    pub sender: Seq<char>,
    pub reply_target: Seq<char>,
    pub content: Seq<char>,
    pub channel: Seq<char>,
    pub timestamp: u64,
    pub thread_ts: Option<Seq<char>>,
}

/// The characters of a string that may be missing.
pub open spec fn owned_chars(value: Option<String>) -> Option<Seq<char>> {
    match value {
        Some(s) => Some(s@),
        None => None,
    }
}

impl View for ChannelMessage {
    type V = MessageTree;

    open spec fn view(&self) -> MessageTree {
        MessageTree {
            id: self.id@,
            sender: self.sender@,
            reply_target: self.reply_target@,
            content: self.content@,
            channel: self.channel@,
            timestamp: self.timestamp,
            thread_ts: owned_chars(self.thread_ts),
        }
    }
}

/// GitHub channel in webhook mode.
///
/// Incoming messages are received by gateway endpoint `/github`.
/// Outbound replies are sent as issue/PR comments via GitHub REST API.
pub struct GitHubChannel {
    api_token: String,
    api_base_url: String,
    webhook_secret: Option<String>,
    allowed_repos: Vec<String>,
    allowed_users: Vec<String>,
    bot_login: Option<String>,
}

/// The configuration of a channel.
pub struct ChannelTree {
    pub api_token: Seq<char>,
    pub api_base_url: Seq<char>,
    pub webhook_secret: Option<Seq<char>>,
    pub allowed_repos: Seq<Seq<char>>,
    pub allowed_users: Seq<Seq<char>>,
    pub bot_login: Option<Seq<char>>,
}

impl View for GitHubChannel {
    type V = ChannelTree;

    closed spec fn view(&self) -> ChannelTree {
        ChannelTree {
            api_token: self.api_token@,
            api_base_url: self.api_base_url@,
            webhook_secret: owned_chars(self.webhook_secret),
            allowed_repos: texts(self.allowed_repos@),
            allowed_users: texts(self.allowed_users@),
            bot_login: owned_chars(self.bot_login),
        }
    }
}

/// A text without its leading and trailing white space, if there is a text.
pub open spec fn trimmed_option(value: Option<Seq<char>>) -> Option<Seq<char>> {
    match value {
        Some(s) => Some(trimmed(s)),
        None => None,
    }
}

/// A text without its leading and trailing white space, if there is a text and
/// something is left of it.
pub open spec fn trimmed_non_empty(value: Option<Seq<char>>) -> Option<Seq<char>> {
    match value {
        Some(s) if trimmed(s).len() > 0 => Some(trimmed(s)),
        _ => None,
    }
}

/// The base of the REST API: what is configured, unless that is blank.
pub open spec fn api_base(channel: ChannelTree) -> Seq<char> {
    if trimmed(channel.api_base_url).len() == 0 {
        GITHUB_API_BASE@
    } else {
        channel.api_base_url
    }
}

/// Tells whether an entry of a list allows `value`: it is `*`, or is equal to
/// it but for the case of ASCII letters.
pub open spec fn entry_allows(entry: Seq<char>, value: Seq<char>) -> bool {
    &&& trimmed(entry).len() > 0
    &&& trimmed(entry) == "*"@ || ascii_folded(trimmed(entry)) == ascii_folded(value)
}

/// Tells whether a list allows `value`: one of its entries does.
pub open spec fn allows(list: Seq<Seq<char>>, value: Seq<char>) -> bool {
    exists|i: int| 0 <= i < list.len() && entry_allows(#[trigger] list[i], value)
}

/// Tells whether `login` is the login of the bot itself.
pub open spec fn is_own_login(channel: ChannelTree, login: Seq<char>) -> bool {
    match trimmed_non_empty(channel.bot_login) {
        Some(bot) => ascii_folded(bot) == ascii_folded(login),
        None => false,
    }
}

fn trimmed_owned(value: Option<String>) -> (r: Option<String>)
    ensures
        owned_chars(r) == trimmed_option(owned_chars(value)),
{
    match value {
        Some(s) => Some(trim(s.as_str()).to_owned()),
        None => None,
    }
}

fn trimmed_part(value: &Option<String>) -> (r: Option<&str>)
    ensures
        chars_of_option(r) == trimmed_non_empty(owned_chars(*value)),
{
    match value {
        Some(s) => {
            let part = trim(s.as_str());
            if part.is_empty() {
                None
            } else {
                Some(part)
            }
        },
        None => None,
    }
}

impl GitHubChannel {
    /// A channel with the given configuration.
    pub fn new(
        api_token: String,
        api_base_url: String,
        webhook_secret: Option<String>,
        allowed_repos: Vec<String>,
        allowed_users: Vec<String>,
        bot_login: Option<String>,
    ) -> (r: Self)
        ensures
            r@ == configured(
                api_token@,
                api_base_url@,
                owned_chars(webhook_secret),
                texts(allowed_repos@),
                texts(allowed_users@),
                owned_chars(bot_login),
            ),
    {
        GitHubChannel {
            api_token: trim(api_token.as_str()).to_owned(),
            api_base_url: trim_end_of(api_base_url.as_str(), '/').to_owned(),
            webhook_secret: trimmed_owned(webhook_secret),
            allowed_repos,
            allowed_users,
            bot_login: trimmed_owned(bot_login),
        }
    }

    /// The secret that webhooks are signed with, if one is configured.
    pub fn webhook_secret(&self) -> (r: Option<&str>)
        ensures
            chars_of_option(r) == trimmed_non_empty(self@.webhook_secret),
    {
        trimmed_part(&self.webhook_secret)
    }

    /// The token for the REST API.
    pub fn api_token(&self) -> (r: &str)
        ensures
            r@ == self@.api_token,
    {
        self.api_token.as_str()
    }

    /// The base of the REST API.
    pub fn api_base_url(&self) -> (r: &str)
        ensures
            r@ == api_base(self@),
    {
        if trim(self.api_base_url.as_str()).is_empty() {
            GITHUB_API_BASE
        } else {
            self.api_base_url.as_str()
        }
    }

    /// Tells whether a list allows `value`. An empty list allows nothing.
    pub fn allowlist_matches(allowlist: &[String], value: &str) -> (r: bool)
        ensures
            r == allows(texts(allowlist@), value@),
    {
        for i in 0..allowlist.len()
            invariant
                forall|j: int| 0 <= j < i ==> !entry_allows(#[trigger] texts(allowlist@)[j], value@),
        {
            let entry = trim(allowlist[i].as_str());
            assert(texts(allowlist@)[i as int] == allowlist@[i as int]@);
            if !entry.is_empty() && (same_text(entry, "*") || eq_ignore_ascii_case(entry, value)) {
                assert(entry_allows(texts(allowlist@)[i as int], value@));
                return true;
            }
        }
        false
    }

    /// Tells whether messages from `repo` are taken.
    pub fn is_repo_allowed(&self, repo: &str) -> (r: bool)
        ensures
            r == allows(self@.allowed_repos, repo@),
    {
        Self::allowlist_matches(self.allowed_repos.as_slice(), repo)
    }

    /// Tells whether messages from `login` are taken.
    pub fn is_user_allowed(&self, login: &str) -> (r: bool)
        ensures
            r == allows(self@.allowed_users, login@),
    {
        Self::allowlist_matches(self.allowed_users.as_slice(), login)
    }

    /// Tells whether `login` is the login of the bot itself.
    pub fn is_self_message(&self, login: &str) -> (r: bool)
        ensures
            r == is_own_login(self@, login@),
    {
        match trimmed_part(&self.bot_login) {
            Some(bot) => eq_ignore_ascii_case(bot, login),
            None => false,
        }
    }

    /// The name of the channel.
    pub fn name(&self) -> (r: &'static str)
        ensures
            r@ == "github"@,
    {
        "github"
    }
}

/// A list without entries allows nothing.
pub proof fn law_empty_allowlist(value: Seq<char>)
    ensures
        !allows(seq![], value),
{
}

/// A list with the entry `*`, whatever white space is around it, allows
/// everything.
pub proof fn law_wildcard_allowlist(list: Seq<Seq<char>>, i: int, value: Seq<char>)
    requires
        0 <= i < list.len(),
        trimmed(list[i]) == "*"@,
    ensures
        allows(list, value),
{
    reveal_strlit("*");
    assert(entry_allows(list[i], value));
}

/// Whether a list allows a name does not depend on the case of its ASCII
/// letters.
pub proof fn law_allowlist_ignores_case(
    list: Seq<Seq<char>>,
    value: Seq<char>,
    other: Seq<char>,
)
    requires
        ascii_folded(value) == ascii_folded(other),
    ensures
        allows(list, value) == allows(list, other),
{
    assert forall|i: int| 0 <= i < list.len() implies entry_allows(#[trigger] list[i], value)
        == entry_allows(list[i], other) by {}
    if allows(list, value) {
        let i = choose|i: int| 0 <= i < list.len() && entry_allows(#[trigger] list[i], value);
        assert(entry_allows(list[i], other));
    }
    if allows(list, other) {
        let i = choose|i: int| 0 <= i < list.len() && entry_allows(#[trigger] list[i], other);
        assert(entry_allows(list[i], value));
    }
}

/// The configuration that `GitHubChannel::new` makes.
pub open spec fn configured(
    api_token: Seq<char>,
    api_base_url: Seq<char>,
    webhook_secret: Option<Seq<char>>,
    allowed_repos: Seq<Seq<char>>,
    allowed_users: Seq<Seq<char>>,
    bot_login: Option<Seq<char>>,
) -> ChannelTree {
    ChannelTree {
        api_token: trimmed(api_token),
        api_base_url: trimmed_end_of(api_base_url, '/'),
        webhook_secret: trimmed_option(webhook_secret),
        allowed_repos,
        allowed_users,
        bot_login: trimmed_option(bot_login),
    }
}

/// However a channel is configured, the base of its API is not blank and does
/// not end with a slash; its secret is the one configured, without the white
/// space around it, and is missing if nothing else is in it.
pub proof fn law_configuration(
    api_token: Seq<char>,
    api_base_url: Seq<char>,
    webhook_secret: Option<Seq<char>>,
    allowed_repos: Seq<Seq<char>>,
    allowed_users: Seq<Seq<char>>,
    bot_login: Option<Seq<char>>,
)
    ensures
        ({
            let channel = configured(
                api_token,
                api_base_url,
                webhook_secret,
                allowed_repos,
                allowed_users,
                bot_login,
            );
            &&& trimmed(api_base(channel)).len() > 0
            &&& api_base(channel).len() > 0
            &&& api_base(channel).last() != '/'
            &&& trimmed_non_empty(channel.webhook_secret) == trimmed_non_empty(webhook_secret)
            &&& trimmed_non_empty(channel.bot_login) == trimmed_non_empty(bot_login)
        }),
{
    reveal_strlit("https://api.github.com");
    let base = trimmed_end_of(api_base_url, '/');
    lemma_trimmed_fixed(GITHUB_API_BASE@);
    lemma_no_such_end(api_base_url, '/');
    if base.len() == 0 {
        assert(trimmed(base).len() == 0);
    }
    if let Some(secret) = webhook_secret {
        lemma_trimmed_parts(secret);
    }
    if let Some(bot) = bot_login {
        lemma_trimmed_parts(bot);
    }
}

proof fn lemma_no_such_end(s: Seq<char>, c: char)
    ensures
        trimmed_end_of(s, c).len() > 0 ==> trimmed_end_of(s, c).last() != c,
    decreases s.len(),
{
    if s.len() > 0 && s.last() == c {
        lemma_no_such_end(s.drop_last(), c);
    }
}

/// A list allows each name that is in it, at any position, whatever the case of
/// its ASCII letters and the white space around the entry.
pub proof fn law_listed_name_allowed(list: Seq<Seq<char>>, i: int, value: Seq<char>)
    requires
        0 <= i < list.len(),
        !is_blank(list[i]),
        ascii_folded(trimmed(list[i])) == ascii_folded(value),
    ensures
        allows(list, value),
{
    lemma_trimmed_blank(list[i]);
    assert(entry_allows(list[i], value));
}

/// A list without the entry `*` allows no name that equals none of its entries.
pub proof fn law_unlisted_name_refused(list: Seq<Seq<char>>, value: Seq<char>)
    requires
        forall|i: int|
            0 <= i < list.len() ==> {
                ||| is_blank(#[trigger] list[i])
                ||| trimmed(list[i]) != "*"@ && ascii_folded(trimmed(list[i])) != ascii_folded(value)
            },
    ensures
        !allows(list, value),
{
    assert forall|i: int| 0 <= i < list.len() implies !entry_allows(#[trigger] list[i], value) by {
        lemma_trimmed_blank(list[i]);
    }
}

/// Two lists allow together what each of them allows, and nothing more.
pub proof fn law_allowlists_add_up(a: Seq<Seq<char>>, b: Seq<Seq<char>>, value: Seq<char>)
    ensures
        allows(a + b, value) <==> allows(a, value) || allows(b, value),
{
    if allows(a, value) {
        let i = choose|i: int| 0 <= i < a.len() && entry_allows(#[trigger] a[i], value);
        assert((a + b)[i] == a[i]);
    }
    if allows(b, value) {
        let i = choose|i: int| 0 <= i < b.len() && entry_allows(#[trigger] b[i], value);
        assert((a + b)[a.len() + i] == b[i]);
    }
    if allows(a + b, value) {
        let i = choose|i: int|
            0 <= i < (a + b).len() && entry_allows(#[trigger] (a + b)[i], value);
        if i < a.len() {
            assert(entry_allows(a[i], value));
        } else {
            assert(entry_allows(b[i - a.len()], value));
        }
    }
}

/// The base of the API is the one that is configured, without the slashes at
/// its end, and that of GitHub only where nothing else is in what is configured.
pub proof fn law_configured_base(
    api_token: Seq<char>,
    base: Seq<char>,
    slashes: nat,
    webhook_secret: Option<Seq<char>>,
    allowed_repos: Seq<Seq<char>>,
    allowed_users: Seq<Seq<char>>,
    bot_login: Option<Seq<char>>,
)
    requires
        base.len() > 0 ==> base.last() != '/',
    ensures
        ({
            let channel = configured(
                api_token,
                base + Seq::new(slashes, |i: int| '/'),
                webhook_secret,
                allowed_repos,
                allowed_users,
                bot_login,
            );
            &&& !is_blank(base) ==> api_base(channel) == base
            &&& is_blank(base) ==> api_base(channel) == "https://api.github.com"@
        }),
{
    law_run_taken_from_end(base, slashes, '/');
    lemma_trimmed_blank(base);
}

/// The lists are taken as they are configured, each for what it is for, and the
/// token without the white space around it.
pub proof fn law_configured_access(
    before: Seq<char>,
    token: Seq<char>,
    after: Seq<char>,
    api_base_url: Seq<char>,
    webhook_secret: Option<Seq<char>>,
    allowed_repos: Seq<Seq<char>>,
    allowed_users: Seq<Seq<char>>,
    bot_login: Option<Seq<char>>,
)
    requires
        is_blank(before),
        is_blank(after),
        token.len() > 0 ==> !is_space(token.first()) && !is_space(token.last()),
    ensures
        ({
            let channel = configured(
                before + token + after,
                api_base_url,
                webhook_secret,
                allowed_repos,
                allowed_users,
                bot_login,
            );
            &&& channel.api_token == token
            &&& channel.allowed_repos == allowed_repos
            &&& channel.allowed_users == allowed_users
        }),
{
    law_trim_takes_blank_ends(before, token, after);
}

/// The secret is the one that is configured, without the white space around it,
/// whatever else is configured; what is missing or blank is none.
pub proof fn law_configured_secret(
    before: Seq<char>,
    secret: Seq<char>,
    after: Seq<char>,
    api_token: Seq<char>,
    api_base_url: Seq<char>,
    allowed_repos: Seq<Seq<char>>,
    allowed_users: Seq<Seq<char>>,
    bot_login: Option<Seq<char>>,
)
    requires
        is_blank(before),
        is_blank(after),
        secret.len() > 0 ==> !is_space(secret.first()) && !is_space(secret.last()),
    ensures
        ({
            let with = |webhook_secret: Option<Seq<char>>|
                configured(
                    api_token,
                    api_base_url,
                    webhook_secret,
                    allowed_repos,
                    allowed_users,
                    bot_login,
                ).webhook_secret;
            let read = trimmed_non_empty(with(Some(before + secret + after)));
            &&& secret.len() > 0 ==> read == Some(secret)
            &&& secret.len() == 0 ==> read is None
            &&& trimmed_non_empty(with(None)) is None
        }),
{
    law_trim_takes_blank_ends(before, secret, after);
    lemma_trimmed_fixed(secret);
}

/// A comment is one of the bot itself if and only if a login of the bot is
/// configured and the sender has that login, whatever the case of its ASCII
/// letters, the white space around what is configured, and what else is.
pub proof fn law_configured_bot(
    before: Seq<char>,
    bot: Seq<char>,
    after: Seq<char>,
    api_token: Seq<char>,
    api_base_url: Seq<char>,
    webhook_secret: Option<Seq<char>>,
    allowed_repos: Seq<Seq<char>>,
    allowed_users: Seq<Seq<char>>,
    login: Seq<char>,
)
    requires
        is_blank(before),
        is_blank(after),
        bot.len() > 0 ==> !is_space(bot.first()) && !is_space(bot.last()),
    ensures
        ({
            let with = |bot_login: Option<Seq<char>>|
                configured(
                    api_token,
                    api_base_url,
                    webhook_secret,
                    allowed_repos,
                    allowed_users,
                    bot_login,
                );
            &&& is_own_login(with(Some(before + bot + after)), login) <==> bot.len() > 0
                && ascii_folded(bot) == ascii_folded(login)
            &&& !is_own_login(with(None), login)
        }),
{
    law_trim_takes_blank_ends(before, bot, after);
    lemma_trimmed_fixed(bot);
}

/// A message says what its fields hold, each as it is.
pub proof fn law_message_view(message: ChannelMessage)
    ensures
        message@.id == message.id@,
        message@.sender == message.sender@,
        message@.reply_target == message.reply_target@,
        message@.content == message.content@,
        message@.channel == message.channel@,
        message@.timestamp == message.timestamp,
        message.thread_ts matches Some(thread) ==> message@.thread_ts == Some(thread@),
        message.thread_ts is None ==> message@.thread_ts is None,
{
}

/// The headers of a request are those that GitHub asks for.
pub proof fn law_headers()
    ensures
        GITHUB_API_BASE@ == "https://api.github.com"@,
        GITHUB_USER_AGENT@ == "zeroclaw-github-channel"@,
        GITHUB_ACCEPT@ == "application/vnd.github+json"@,
        GITHUB_API_VERSION@ == "2022-11-28"@,
{
}

} // verus!
