use tweety_rs::api::bookmark::{
    bookmark_post_url, delete_bookmark_url, get_user_bookmark_url, BookmarkParams, Expansions,
    MediaFields, TweetFields,
};
use tweety_rs::api::client::TweetyClient;
use tweety_rs::api::hide_replies::{hide_tweet_url, HideTweet};

#[test]
fn bookmark_lookup_url_embeds_the_user_id() {
    assert_eq!(
        get_user_bookmark_url("2244994945"),
        "https://api.x.com/2/users/2244994945/bookmarks"
    );
}

#[test]
fn bookmark_post_url_uses_the_same_template() {
    assert_eq!(
        bookmark_post_url("2244994945"),
        "https://api.x.com/2/users/2244994945/bookmarks"
    );
}

#[test]
fn delete_bookmark_url_embeds_user_and_tweet() {
    assert_eq!(
        delete_bookmark_url("2244994945", "1460323737035677698"),
        "https://api.x.com/2/users/2244994945/bookmarks/1460323737035677698"
    );
}

#[test]
fn hide_tweet_url_embeds_the_tweet_id() {
    assert_eq!(
        hide_tweet_url("1460323737035677698"),
        "https://api.x.com/2/tweets/1460323737035677698/hidden"
    );
}

#[test]
fn hide_tweet_body_serializes_both_states() {
    assert_eq!(HideTweet { hidden: true }.to_json(), "{\"hidden\":true}");
    assert_eq!(HideTweet { hidden: false }.to_json(), "{\"hidden\":false}");
}

#[test]
fn new_stores_every_credential_field() {
    let client = TweetyClient::new("ck", "at", "cks", "ats", "addr", "user", "pass");
    assert_eq!(client.consumer_key, "ck");
    assert_eq!(client.access_token, "at");
    assert_eq!(client.consumer_key_secret, "cks");
    assert_eq!(client.access_token_secret, "ats");
    assert_eq!(client.proxy_addr, "addr");
    assert_eq!(client.proxy_username, "user");
    assert_eq!(client.proxy_password, "pass");
}

#[test]
fn bookmark_params_hold_their_fields() {
    let params = BookmarkParams {
        expansions: Some(vec![
            Expansions::AuthorId,
            Expansions::EntitiesMentionsUsername("somebody".to_string()),
        ]),
        max_results: Some(25),
        media_fields: Some(vec![MediaFields::Url, MediaFields::AltText]),
        pagination_token: Some("next-page".to_string()),
        place_fields: None,
        poll_fields: None,
        tweet_fields: Some(vec![TweetFields::CreatedAt]),
        user_fields: None,
    };
    assert_eq!(params.max_results, Some(25));
    assert_eq!(params.pagination_token.as_deref(), Some("next-page"));
    assert_eq!(
        params.expansions,
        Some(vec![
            Expansions::AuthorId,
            Expansions::EntitiesMentionsUsername("somebody".to_string()),
        ])
    );
}
