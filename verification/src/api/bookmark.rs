use vstd::prelude::*;

verus! {

/// Closed vocabulary of expansion query-parameter values; one variant
/// carries the username it mentions.
#[derive(Debug, Clone, PartialEq, Eq)]
pub enum Expansions {
    AttachmentsPollIds,
    AttachmentsMediaKeys,
    AuthorId,
    EditHistoryTweetIds,
    EntitiesMentionsUsername(String),
    GeoPlaceId,
    InReplyToUserId,
    ReferencedTweetsId,
    ReferencedTweetsIdAuthorId,
}

/// Closed vocabulary of media-field query-parameter values.
#[derive(Debug, Clone, Copy, PartialEq, Eq, Structural)]
pub enum MediaFields {
    DurationMs,
    Height,
    MediaKey,
    PreviewImageUrl,
    Type,
    Url,
    Width,
    PublicMetrics,
    NonPublicMetrics,
    OrganicMetrics,
    PromotedMetrics,
    AltText,
    Variants,
}

/// Closed vocabulary of place-field query-parameter values.
#[derive(Debug, Clone, Copy, PartialEq, Eq, Structural)]
pub enum PlaceFields {
    ContainedWithin,
    Country,
    CountryCode,
    FullName,
    Geo,
    Id,
    Name,
    PlaceType,
}

/// Closed vocabulary of poll-field query-parameter values.
#[derive(Debug, Clone, Copy, PartialEq, Eq, Structural)]
pub enum PollFields {
    DurationMinutes,
    EndDatetime,
    Id,
    Options,
    VotingStatus,
}

/// Closed vocabulary of tweet-field query-parameter values.
#[derive(Debug, Clone, Copy, PartialEq, Eq, Structural)]
pub enum TweetFields {
    Attachments,
    AuthorId,
    ContextAnnotations,
    ConversationId,
    CreatedAt,
    Entities,
    EditControls,
    Geo,
    Id,
    InReplyToUserId,
    Lang,
    NonPublicMetrics,
    PublicMetrics,
    OrganicMetrics,
    PromotedMetrics,
    PossiblySensitive,
    ReferencedTweets,
    ReplySettings,
    Source,
    Text,
    Withheld,
}

/// Closed vocabulary of user-field query-parameter values.
#[derive(Debug, Clone, Copy, PartialEq, Eq, Structural)]
pub enum UserFields {
    CreatedAt,
    Description,
    Entities,
    Id,
    Location,
    MostRecentTweetId,
    Name,
    PinnedTweetId,
    ProfileImageUrl,
    Protected,
    PublicMetrics,
    Url,
    Username,
    Verified,
    VerifiedType,
    Withheld,
}

/// Optional query parameters of a bookmarks lookup.
#[derive(Debug, Clone, PartialEq, Eq)]
pub struct BookmarkParams {
    pub expansions: Option<Vec<Expansions>>,
    pub max_results: Option<u32>,
    pub media_fields: Option<Vec<MediaFields>>,
    pub pagination_token: Option<String>,
    pub place_fields: Option<Vec<PlaceFields>>,
    pub poll_fields: Option<Vec<PollFields>>,
    pub tweet_fields: Option<Vec<TweetFields>>,
    pub user_fields: Option<Vec<UserFields>>,
}

/// The bookmarks collection URL of the given user.
pub open spec fn user_bookmarks_url_spec(user_id: Seq<char>) -> Seq<char> {
    "https://api.x.com/2/users/"@ + user_id + "/bookmarks"@
}

/// One bookmarked tweet's URL under the given user.
pub open spec fn bookmark_entry_url_spec(user_id: Seq<char>, tweet_id: Seq<char>) -> Seq<char> {
    "https://api.x.com/2/users/"@ + user_id + "/bookmarks/"@ + tweet_id
}

/// URL for looking up a user's bookmarks.
pub fn get_user_bookmark_url(user_id: &str) -> (url: String)
    ensures
        url@ == user_bookmarks_url_spec(user_id@),
{
    let mut url = "https://api.x.com/2/users/".to_owned();
    url.append(user_id);
    url.append("/bookmarks");
    proof {
        assert(url@ =~= user_bookmarks_url_spec(user_id@));
    }
    url
}

/// URL for adding a bookmark of a post.
pub fn bookmark_post_url(post_id: &str) -> (url: String)
    ensures
        url@ == user_bookmarks_url_spec(post_id@),
{
    get_user_bookmark_url(post_id)
}

/// URL for removing one bookmarked tweet of a user.
pub fn delete_bookmark_url(user_id: &str, tweet_id: &str) -> (url: String)
    ensures
        url@ == bookmark_entry_url_spec(user_id@, tweet_id@),
{
    let mut url = "https://api.x.com/2/users/".to_owned();
    url.append(user_id);
    url.append("/bookmarks/");
    url.append(tweet_id);
    proof {
        assert(url@ =~= bookmark_entry_url_spec(user_id@, tweet_id@));
    }
    url
}

} // verus!
