use chorus::api::channels::reactions::{Emoji, HttpMethod, Reaction, ReactionMeta};
use chorus::snowflake::{decimal_string, Snowflake};

fn meta(channel: u64, message: u64) -> ReactionMeta {
    ReactionMeta {
        message_id: Snowflake(message),
        channel_id: Snowflake(channel),
        reaction: Reaction {
            count: 1,
            me: true,
            emoji: Emoji { id: None, name: Some("👍".to_string()) },
        },
    }
}

#[test]
fn delete_all_targets_all_reactions_of_the_message() {
    let request = meta(1087, 42).delete_all("http://localhost:3001/api", "tok");
    assert_eq!(request.method, HttpMethod::Delete);
    assert_eq!(request.url, "http://localhost:3001/api/channels/1087/messages/42/reactions/");
    assert_eq!(request.bearer_token, "tok");
}

#[test]
fn get_targets_the_reactions_with_the_emoji() {
    let request = meta(7, 9).get("%F0%9F%91%8D", "https://example.com/api", "secret");
    assert_eq!(request.method, HttpMethod::Get);
    assert_eq!(request.url, "https://example.com/api/channels/7/messages/9/reactions/%F0%9F%91%8D/");
    assert_eq!(request.bearer_token, "secret");
}

#[test]
fn delete_emoji_targets_the_same_resource_as_get() {
    let reaction = meta(1234567890123456789, 0);
    let get = reaction.get("blob:1099", "api", "t");
    let delete = reaction.delete_emoji("blob:1099", "api", "t");
    assert_eq!(delete.method, HttpMethod::Delete);
    assert_eq!(delete.url, get.url);
    assert_eq!(delete.url, "api/channels/1234567890123456789/messages/0/reactions/blob:1099/");
    assert!(delete.url.starts_with(&reaction.delete_all("api", "t").url));
}

#[test]
fn snowflakes_render_in_decimal() {
    assert_eq!(decimal_string(0), "0");
    assert_eq!(decimal_string(7), "7");
    assert_eq!(decimal_string(10), "10");
    assert_eq!(decimal_string(1000000), "1000000");
    assert_eq!(decimal_string(u64::MAX), "18446744073709551615");
    assert_eq!(Snowflake(1107280541347954688).to_string(), "1107280541347954688");
}
