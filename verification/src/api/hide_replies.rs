use vstd::prelude::*;

verus! {

/// Body of the hide-replies endpoint: whether the reply is to be hidden
/// or unhidden.
#[derive(Debug, Clone, Copy, PartialEq, Eq, Structural)]
pub struct HideTweet {
    pub hidden: bool,
}

impl HideTweet {
    /// The JSON text this body serializes to.
    pub open spec fn json_spec(&self) -> Seq<char> {
        if self.hidden {
            "{\"hidden\":true}"@
        } else {
            "{\"hidden\":false}"@
        }
    }

    /// Serializes the body to its JSON text.
    pub fn to_json(&self) -> (text: String)
        ensures
            text@ == self.json_spec(),
    {
        if self.hidden {
            "{\"hidden\":true}".to_owned()
        } else {
            "{\"hidden\":false}".to_owned()
        }
    }
}

/// The hidden-state URL of the given tweet.
pub open spec fn hide_tweet_url_spec(tweet_id: Seq<char>) -> Seq<char> {
    "https://api.x.com/2/tweets/"@ + tweet_id + "/hidden"@
}

/// URL for hiding or unhiding a reply to the given tweet.
pub fn hide_tweet_url(tweet_id: &str) -> (url: String)
    ensures
        url@ == hide_tweet_url_spec(tweet_id@),
{
    let mut url = "https://api.x.com/2/tweets/".to_owned();
    url.append(tweet_id);
    url.append("/hidden");
    proof {
        assert(url@ =~= hide_tweet_url_spec(tweet_id@));
    }
    url
}

} // verus!
