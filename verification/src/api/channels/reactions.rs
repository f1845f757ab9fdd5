//! The reaction endpoints of a message: what each request asks of the server.

use vstd::prelude::*;

use crate::snowflake::{decimal, Snowflake};

verus! {

/// A partial emoji as it appears in a reaction: a custom emoji has an id, a
/// unicode emoji only a name.
pub struct Emoji {
    pub id: Option<Snowflake>,
    pub name: Option<String>,
}

/// A reaction on a message: the emoji, how many users reacted with it, and
/// whether the current user is one of them.
pub struct Reaction {
    pub count: u32,
    pub me: bool,
    pub emoji: Emoji,
}

/// A [`Reaction`] together with the message and channel it belongs to.
pub struct ReactionMeta {
    pub message_id: Snowflake,
    pub channel_id: Snowflake,
    pub reaction: Reaction,
}

/// The HTTP methods the reaction endpoints use.
#[derive(Clone, Copy, Debug, PartialEq, Eq, Structural)]
pub enum HttpMethod {
    Get,
    Delete,
}

/// A request to the HTTP API: the method, the full URL and the bearer token
/// that authorizes it. The caller sends it under the channel rate limit.
pub struct ApiRequest {
    pub method: HttpMethod,
    pub url: String,
    pub bearer_token: String,
}

/// `{api}/channels/{channel}/messages/{message}/reactions/`
pub open spec fn reactions_url(api: Seq<char>, channel: Snowflake, message: Snowflake) -> Seq<char> {
    api + "/channels/"@ + decimal(channel.0 as nat) + "/messages/"@ + decimal(message.0 as nat)
        + "/reactions/"@
}

/// `{api}/channels/{channel}/messages/{message}/reactions/{emoji}/`
pub open spec fn emoji_reactions_url(
    api: Seq<char>,
    channel: Snowflake,
    message: Snowflake,
    emoji: Seq<char>,
) -> Seq<char> {
    reactions_url(api, channel, message) + emoji + "/"@
}

impl ReactionMeta {
    /// The URL of all reactions on this message.
    fn reactions_url(&self, api_url: &str) -> (url: String)
        ensures
            url@ == reactions_url(api_url@, self.channel_id, self.message_id),
    {
        let mut url = api_url.to_owned();
        url.append("/channels/");
        let channel = self.channel_id.to_string();
        url.append(channel.as_str());
        url.append("/messages/");
        let message = self.message_id.to_string();
        url.append(message.as_str());
        url.append("/reactions/");
        url
    }

    /// The URL of the reactions with one emoji on this message.
    fn emoji_reactions_url(&self, emoji: &str, api_url: &str) -> (url: String)
        ensures
            url@ == emoji_reactions_url(api_url@, self.channel_id, self.message_id, emoji@),
    {
        let mut url = self.reactions_url(api_url);
        url.append(emoji);
        url.append("/");
        url
    }

    /// Deletes all reactions for a message: `DELETE` on the message's
    /// reactions. `api_url` is the base URL of the instance's API and `token`
    /// the user's token.
    pub fn delete_all(&self, api_url: &str, token: &str) -> (request: ApiRequest)
        ensures
            request.method == HttpMethod::Delete,
            request.url@ == reactions_url(api_url@, self.channel_id, self.message_id),
            request.bearer_token@ == token@,
    {
        ApiRequest { method: HttpMethod::Delete, url: self.reactions_url(api_url), bearer_token: token.to_owned() }
    }

    /// Gets the users that reacted with `emoji` to a message: `GET` on the
    /// emoji's reactions. The emoji must be URL encoded (a custom emoji as
    /// `name:id`), else the server answers 10014: Unknown Emoji.
    pub fn get(&self, emoji: &str, api_url: &str, token: &str) -> (request: ApiRequest)
        ensures
            request.method == HttpMethod::Get,
            request.url@ == emoji_reactions_url(api_url@, self.channel_id, self.message_id, emoji@),
            request.bearer_token@ == token@,
    {
        ApiRequest { method: HttpMethod::Get, url: self.emoji_reactions_url(emoji, api_url), bearer_token: token.to_owned() }
    }

    /// Deletes all the reactions with `emoji` on a message: `DELETE` on the
    /// emoji's reactions. Needs the MANAGE_MESSAGES permission and fires a
    /// `Message Reaction Remove Emoji` gateway event.
    pub fn delete_emoji(&self, emoji: &str, api_url: &str, token: &str) -> (request: ApiRequest)
        ensures
            request.method == HttpMethod::Delete,
            request.url@ == emoji_reactions_url(api_url@, self.channel_id, self.message_id, emoji@),
            request.bearer_token@ == token@,
    {
        ApiRequest { method: HttpMethod::Delete, url: self.emoji_reactions_url(emoji, api_url), bearer_token: token.to_owned() }
    }
}

/// Reading the reactions with an emoji and deleting them address the same
/// resource, and that resource lies under the URL of all the message's
/// reactions: the requests differ only in their method.
pub proof fn lemma_emoji_requests_share_resource(
    api: Seq<char>,
    channel: Snowflake,
    message: Snowflake,
    emoji: Seq<char>,
)
    ensures
        emoji_reactions_url(api, channel, message, emoji).subrange(
            0,
            reactions_url(api, channel, message).len() as int,
        ) == reactions_url(api, channel, message),
        emoji_reactions_url(api, channel, message, emoji).len() == reactions_url(
            api,
            channel,
            message,
        ).len() + emoji.len() + 1,
{
    reveal_strlit("/");
    let base = reactions_url(api, channel, message);
    assert(emoji_reactions_url(api, channel, message, emoji).subrange(0, base.len() as int) =~= base);
}

} // verus!
