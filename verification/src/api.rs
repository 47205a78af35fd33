//! What is asked of the board, and what its answers mean.

use crate::model::Vote;
use crate::text::decimal;
use crate::text::push_decimal;
use crate::text::push_signed_decimal;
use crate::text::signed_decimal;
use vstd::prelude::*;
use vstd::string::*;

verus! {

/// Where a list of posts starts: at a page, or before or after a post.
#[derive(Clone, Copy, Debug, PartialEq, Eq, Structural)]
pub enum FetchPoint {
    Page(usize),
    Before(u32),
    After(u32),
}

/// The part of a request that names `point`: `&page=` and the page's number,
/// or `b` or `a` and the post's id.
pub open spec fn page_query_text(point: FetchPoint) -> Seq<char> {
    match point {
        FetchPoint::Page(page) => "&page="@ + decimal(page as nat),
        FetchPoint::Before(id) => "&page=b"@ + decimal(id as nat),
        FetchPoint::After(id) => "&page=a"@ + decimal(id as nat),
    }
}

impl FetchPoint {
    /// The part of a request that names the point.
    pub fn page_query(&self) -> (query: String)
        ensures
            query@ == page_query_text(*self),
    {
        match self {
            FetchPoint::Page(page) => {
                let mut query = String::from_str("&page=");
                push_decimal(&mut query, *page as u64);
                query
            },
            FetchPoint::Before(id) => {
                let mut query = String::from_str("&page=b");
                push_decimal(&mut query, *id as u64);
                query
            },
            FetchPoint::After(id) => {
                let mut query = String::from_str("&page=a");
                push_decimal(&mut query, *id as u64);
                query
            },
        }
    }
}

/// The page to ask for when more posts of the query are wanted: the one after
/// the page that was fetched last, or the second where none is known.
pub fn next_page(page: Option<usize>) -> (next: usize)
    requires
        page matches Some(p) ==> p < usize::MAX,
    ensures
        next == (match page {
            Some(p) => p + 1,
            None => 2,
        }),
{
    match page {
        Some(p) => p + 1,
        None => 2,
    }
}

/// The request for the posts with `tag`, from `fetch_point` on.
pub open spec fn posts_request(tag: Seq<char>, fetch_point: Option<FetchPoint>) -> Seq<char> {
    "https://e621.net/posts.json?tags="@ + tag + match fetch_point {
        Some(point) => page_query_text(point),
        None => Seq::empty(),
    }
}

/// The URL that lists the posts with `tag`, from `fetch_point` on.
pub fn posts_url(tag: &str, fetch_point: Option<FetchPoint>) -> (url: String)
    ensures
        url@ == posts_request(tag@, fetch_point),
{
    let mut url = String::from_str("https://e621.net/posts.json?tags=");
    url.append(tag);
    match fetch_point {
        Some(point) => {
            let query = point.page_query();
            url.append(query.as_str());
        },
        None => {
            assert(url@ =~= posts_request(tag@, fetch_point));
        },
    }
    url
}

/// The page of comments that is asked for: the first one where none is
/// named, and otherwise the named one, but no less than 1 and no more than
/// 750.
pub open spec fn comments_page(page: Option<u32>) -> u32 {
    match page {
        None => 1,
        Some(p) => if p < 1 {
            1
        } else if p > 750 {
            750
        } else {
            p
        },
    }
}

/// The request for a page of the comments on the post `post_id`, oldest
/// first.
pub open spec fn comments_request(post_id: u32, page: Option<u32>) -> Seq<char> {
    "https://e621.net/comments.json?group_by=comment&search[post_id]="@ + decimal(post_id as nat)
        + "&search[order]=id_asc&page="@ + decimal(comments_page(page) as nat)
}

/// The URL that lists a page of the comments on the post `post_id`.
pub fn comments_url(post_id: u32, page: Option<u32>) -> (url: String)
    ensures
        url@ == comments_request(post_id, page),
{
    let page: u32 = match page {
        Some(p) => if p < 1 {
            1
        } else if p > 750 {
            750
        } else {
            p
        },
        None => 1,
    };
    let mut url = String::from_str(
        "https://e621.net/comments.json?group_by=comment&search[post_id]=",
    );
    push_decimal(&mut url, post_id as u64);
    url.append("&search[order]=id_asc&page=");
    push_decimal(&mut url, page as u64);
    url
}

/// The URL at which votes on the post `id` are cast and taken back.
pub fn votes_url(id: u32) -> (url: String)
    ensures
        url@ == "https://e621.net/posts/"@ + decimal(id as nat) + "/votes.json"@,
{
    let mut url = String::from_str("https://e621.net/posts/");
    push_decimal(&mut url, id as u64);
    url.append("/votes.json");
    url
}

/// The URL at which a post is made a favorite.
pub fn favorites_url() -> (url: String)
    ensures
        url@ == "https://e621.net/favorites.json"@,
{
    String::from_str("https://e621.net/favorites.json")
}

/// The URL at which the post `id` stops being a favorite.
pub fn favorite_url(id: u32) -> (url: String)
    ensures
        url@ == "https://e621.net/favorites/"@ + decimal(id as nat) + ".json"@,
{
    let mut url = String::from_str("https://e621.net/favorites/");
    push_decimal(&mut url, id as u64);
    url.append(".json");
    url
}

/// The page of a post on the board, for the clipboard.
pub fn post_page_url(id: u32) -> (url: String)
    ensures
        url@ == "https://e621.net/posts/"@ + decimal(id as nat),
{
    let mut url = String::from_str("https://e621.net/posts/");
    push_decimal(&mut url, id as u64);
    url
}

/// Why a request to the board failed.
#[derive(Debug)]
pub enum ApiError {
    /// The request could not be made or was not answered.
    Request(String),
    /// The answer could not be read.
    Deserialize(String),
    /// The board refused a vote or a favorite, or answered it in a way that
    /// makes no sense.
    VoteError(String),
}

/// What an `ApiError` holds.
pub enum ApiErrorView {
    Request(Seq<char>),
    Deserialize(Seq<char>),
    VoteError(Seq<char>),
}

impl View for ApiError {
    type V = ApiErrorView;

    open spec fn view(&self) -> ApiErrorView {
        match self {
            ApiError::Request(why) => ApiErrorView::Request(why@),
            ApiError::Deserialize(why) => ApiErrorView::Deserialize(why@),
            ApiError::VoteError(why) => ApiErrorView::VoteError(why@),
        }
    }
}

impl ApiError {
    /// What went wrong, in words.
    pub fn to_string(&self) -> (text: String)
        ensures
            text@ == (match self@ {
                ApiErrorView::Request(why) => "Request failed: "@ + why,
                ApiErrorView::Deserialize(why) => "Deserialization failed: "@ + why,
                ApiErrorView::VoteError(why) => "Voting error: "@ + why,
            }),
    {
        match self {
            ApiError::Request(why) => {
                let mut text = String::from_str("Request failed: ");
                text.append(why.as_str());
                text
            },
            ApiError::Deserialize(why) => {
                let mut text = String::from_str("Deserialization failed: ");
                text.append(why.as_str());
                text
            },
            ApiError::VoteError(why) => {
                let mut text = String::from_str("Voting error: ");
                text.append(why.as_str());
                text
            },
        }
    }
}

/// The vote that stands after the board answered with `our_score`, if the
/// score is one that the board can give.
pub open spec fn vote_of_score(our_score: i8) -> Option<Option<Vote>> {
    if our_score == 1 {
        Some(Some(Vote::Upvote))
    } else if our_score == -1 {
        Some(Some(Vote::Downvote))
    } else if our_score == 0 {
        Some(None)
    } else {
        None
    }
}

/// What the board's answer to a vote means: 1 is an upvote, -1 a downvote,
/// 0 no vote. Any other score is an error that names it.
pub fn confirmed_vote(our_score: i8) -> (vote: Result<Option<Vote>, ApiError>)
    ensures
        match vote_of_score(our_score) {
            Some(stands) => vote == Ok::<Option<Vote>, ApiError>(stands),
            None => vote is Err && vote->Err_0@ == ApiErrorView::VoteError(
                "Vote failed: unexpected value "@ + signed_decimal(our_score as int),
            ),
        },
{
    if our_score == 1 {
        Ok(Some(Vote::Upvote))
    } else if our_score == -1 {
        Ok(Some(Vote::Downvote))
    } else if our_score == 0 {
        Ok(None)
    } else {
        let mut why = String::from_str("Vote failed: unexpected value ");
        push_signed_decimal(&mut why, our_score as i64);
        Err(ApiError::VoteError(why))
    }
}

/// What the board's answer to a request without content means: success if
/// the board said so, and otherwise an error with what the board wrote.
pub fn request_outcome(success: bool, error_text: String) -> (outcome: Result<(), ApiError>)
    ensures
        success ==> outcome is Ok,
        !success ==> outcome is Err && outcome->Err_0@ == ApiErrorView::VoteError(error_text@),
{
    if success {
        Ok(())
    } else {
        Err(ApiError::VoteError(error_text))
    }
}

/// Whether `message` is what the board writes when a post that is to become
/// a favorite is one already.
pub open spec fn says_already_favorited(message: Option<Seq<char>>) -> bool {
    message == Some("You have already favorited this post"@)
}

/// What the board's answer to making a post a favorite means: success if the
/// board said so, or if it refused because the post is a favorite already.
/// `message` is the message of the board's refusal, where it could be read.
pub fn favorite_outcome(success: bool, error_text: String, message: Option<String>) -> (outcome:
    Result<(), ApiError>)
    ensures
        success || says_already_favorited(message.deep_view()) ==> outcome is Ok,
        !success && !says_already_favorited(message.deep_view()) ==> outcome is Err
            && outcome->Err_0@ == ApiErrorView::VoteError(error_text@),
{
    if success {
        return Ok(());
    }
    match message {
        Some(text) => {
            if text.as_str().eq("You have already favorited this post") {
                return Ok(());
            }
        },
        None => {},
    }
    Err(ApiError::VoteError(error_text))
}

} // verus!
