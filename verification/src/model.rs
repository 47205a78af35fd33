//! Posts, comments and votes, as the board's API describes them.

use crate::text::copy_text;
use crate::text::copy_texts;
use vstd::prelude::*;
use vstd::string::*;

verus! {

/// A point in time: whole seconds since the Unix epoch, and the nanoseconds
/// into that second.
#[derive(Clone, Copy, Debug, PartialEq, Eq, Structural)]
pub struct Timestamp {
    pub secs: i64,
    pub nanos: u32,
}

/// How explicit a post is.
#[derive(Clone, Copy, Debug, PartialEq, Eq, Structural)]
pub enum Rating {
    Safe,
    Questionable,
    Explicit,
}

impl Rating {
    /// The rating as the bar above a post shows it.
    pub fn label(&self) -> (text: &'static str)
        ensures
            text@ == (match self {
                Rating::Safe => "Rating: Safe"@,
                Rating::Questionable => "Rating: Questionable"@,
                Rating::Explicit => "Rating: Explicit"@,
            }),
    {
        match self {
            Rating::Safe => "Rating: Safe",
            Rating::Questionable => "Rating: Questionable",
            Rating::Explicit => "Rating: Explicit",
        }
    }

    /// The letter that stands for the rating on a tile of the grid.
    pub fn letter(&self) -> (text: &'static str)
        ensures
            text@ == (match self {
                Rating::Safe => "S"@,
                Rating::Questionable => "Q"@,
                Rating::Explicit => "E"@,
            }),
    {
        match self {
            Rating::Safe => "S",
            Rating::Questionable => "Q",
            Rating::Explicit => "E",
        }
    }
}

/// The file of a post: its extension, and where to get it.
#[derive(Debug)]
pub struct File {
    pub ext: Option<String>,
    pub url: Option<String>,
}

/// What a `File` holds.
pub struct FileView {
    pub ext: Option<Seq<char>>,
    pub url: Option<Seq<char>>,
}

impl View for File {
    type V = FileView;

    open spec fn view(&self) -> FileView {
        FileView { ext: self.ext.deep_view(), url: self.url.deep_view() }
    }
}

impl Clone for File {
    fn clone(&self) -> (copy: Self)
        ensures
            copy@ == self@,
    {
        File { ext: copy_text(&self.ext), url: copy_text(&self.url) }
    }
}

/// The thumbnail of a post.
#[derive(Debug)]
pub struct Preview {
    pub url: Option<String>,
}

impl View for Preview {
    type V = Option<Seq<char>>;

    open spec fn view(&self) -> Option<Seq<char>> {
        self.url.deep_view()
    }
}

impl Clone for Preview {
    fn clone(&self) -> (copy: Self)
        ensures
            copy@ == self@,
    {
        Preview { url: copy_text(&self.url) }
    }
}

/// The reduced image of a post, where the board made one.
#[derive(Debug)]
pub struct Sample {
    pub has: bool,
    pub url: Option<String>,
}

/// What a `Sample` holds.
pub struct SampleView {
    pub has: bool,
    pub url: Option<Seq<char>>,
}

impl View for Sample {
    type V = SampleView;

    open spec fn view(&self) -> SampleView {
        SampleView { has: self.has, url: self.url.deep_view() }
    }
}

impl Clone for Sample {
    fn clone(&self) -> (copy: Self)
        ensures
            copy@ == self@,
    {
        Sample { has: self.has, url: copy_text(&self.url) }
    }
}

/// The score of a post.
#[derive(Clone, Copy, Debug, PartialEq, Eq, Structural)]
pub struct Score {
    pub total: i32,
}

/// The tags of a post, by group.
#[derive(Debug)]
pub struct Tags {
    pub general: Vec<String>,
    pub artist: Vec<String>,
    pub copyright: Vec<String>,
    pub character: Vec<String>,
    pub species: Vec<String>,
    pub invalid: Vec<String>,
    pub meta: Vec<String>,
    pub lore: Vec<String>,
}

/// What a `Tags` holds.
pub struct TagsView {
    pub general: Seq<Seq<char>>,
    pub artist: Seq<Seq<char>>,
    pub copyright: Seq<Seq<char>>,
    pub character: Seq<Seq<char>>,
    pub species: Seq<Seq<char>>,
    pub invalid: Seq<Seq<char>>,
    pub meta: Seq<Seq<char>>,
    pub lore: Seq<Seq<char>>,
}

impl View for Tags {
    type V = TagsView;

    open spec fn view(&self) -> TagsView {
        TagsView {
            general: self.general.deep_view(),
            artist: self.artist.deep_view(),
            copyright: self.copyright.deep_view(),
            character: self.character.deep_view(),
            species: self.species.deep_view(),
            invalid: self.invalid.deep_view(),
            meta: self.meta.deep_view(),
            lore: self.lore.deep_view(),
        }
    }
}

impl Clone for Tags {
    fn clone(&self) -> (copy: Self)
        ensures
            copy@ == self@,
    {
        Tags {
            general: copy_texts(&self.general),
            artist: copy_texts(&self.artist),
            copyright: copy_texts(&self.copyright),
            character: copy_texts(&self.character),
            species: copy_texts(&self.species),
            invalid: copy_texts(&self.invalid),
            meta: copy_texts(&self.meta),
            lore: copy_texts(&self.lore),
        }
    }
}

/// The groups of `tags` with their names, in the order in which they are
/// shown: artist, copyright, character, species, general, invalid, meta, lore.
pub open spec fn tag_groups(tags: TagsView) -> Seq<(Seq<char>, Seq<Seq<char>>)> {
    seq![
        ("artist"@, tags.artist),
        ("copyright"@, tags.copyright),
        ("character"@, tags.character),
        ("species"@, tags.species),
        ("general"@, tags.general),
        ("invalid"@, tags.invalid),
        ("meta"@, tags.meta),
        ("lore"@, tags.lore),
    ]
}

/// The names and tags of `groups`.
pub open spec fn groups_view(groups: Seq<(&'static str, &Vec<String>)>) -> Seq<
    (Seq<char>, Seq<Seq<char>>),
> {
    Seq::new(groups.len(), |i: int| (groups[i].0@, groups[i].1.deep_view()))
}

impl Tags {
    /// The tag groups with their names, in the order in which they are shown.
    pub fn iter(&self) -> (groups: Vec<(&'static str, &Vec<String>)>)
        ensures
            groups_view(groups@) == tag_groups(self@),
    {
        let mut groups: Vec<(&'static str, &Vec<String>)> = Vec::new();
        groups.push(("artist", &self.artist));
        groups.push(("copyright", &self.copyright));
        groups.push(("character", &self.character));
        groups.push(("species", &self.species));
        groups.push(("general", &self.general));
        groups.push(("invalid", &self.invalid));
        groups.push(("meta", &self.meta));
        groups.push(("lore", &self.lore));
        assert(groups_view(groups@) =~= tag_groups(self@));
        groups
    }
}

/// What kind of media a post holds.
#[derive(Clone, Copy, Debug, PartialEq, Eq, Structural)]
pub enum PostType {
    Image,
    Gif,
    Video,
    Flash,
}

/// The kind of media that a file extension stands for: `gif` is a GIF,
/// `webm` and `mp4` are videos, `swf` is Flash, anything else is an image.
/// Without an extension there is no kind.
pub open spec fn post_type_of(ext: Option<Seq<char>>) -> Option<PostType> {
    match ext {
        None => None,
        Some(e) => Some(
            if e == "gif"@ {
                PostType::Gif
            } else if e == "webm"@ || e == "mp4"@ {
                PostType::Video
            } else if e == "swf"@ {
                PostType::Flash
            } else {
                PostType::Image
            },
        ),
    }
}

/// A post of the board.
#[derive(Debug)]
pub struct Post {
    pub id: u32,
    pub created_at: Timestamp,
    pub updated_at: Timestamp,
    pub file: File,
    pub preview: Preview,
    pub sample: Sample,
    pub score: Score,
    pub tags: Tags,
    pub rating: Rating,
    pub is_favorited: bool,
    pub fav_count: u32,
    pub description: String,
}

/// What a `Post` holds.
pub struct PostView {
    pub id: u32,
    pub created_at: Timestamp,
    pub updated_at: Timestamp,
    pub file: FileView,
    pub preview: Option<Seq<char>>,
    pub sample: SampleView,
    pub score: Score,
    pub tags: TagsView,
    pub rating: Rating,
    pub is_favorited: bool,
    pub fav_count: u32,
    pub description: Seq<char>,
}

impl View for Post {
    type V = PostView;

    open spec fn view(&self) -> PostView {
        PostView {
            id: self.id,
            created_at: self.created_at,
            updated_at: self.updated_at,
            file: self.file@,
            preview: self.preview@,
            sample: self.sample@,
            score: self.score,
            tags: self.tags@,
            rating: self.rating,
            is_favorited: self.is_favorited,
            fav_count: self.fav_count,
            description: self.description@,
        }
    }
}

impl Clone for Post {
    fn clone(&self) -> (copy: Self)
        ensures
            copy@ == self@,
    {
        Post {
            id: self.id,
            created_at: self.created_at,
            updated_at: self.updated_at,
            file: self.file.clone(),
            preview: self.preview.clone(),
            sample: self.sample.clone(),
            score: self.score,
            tags: self.tags.clone(),
            rating: self.rating,
            is_favorited: self.is_favorited,
            fav_count: self.fav_count,
            description: self.description.clone(),
        }
    }
}

impl Post {
    /// The kind of media that the post holds, by its file extension.
    pub fn get_type(&self) -> (kind: Option<PostType>)
        ensures
            kind == post_type_of(self@.file.ext),
    {
        match &self.file.ext {
            None => None,
            Some(ext) => {
                let ext = ext.as_str();
                if ext.eq("gif") {
                    Some(PostType::Gif)
                } else if ext.eq("webm") || ext.eq("mp4") {
                    Some(PostType::Video)
                } else if ext.eq("swf") {
                    Some(PostType::Flash)
                } else {
                    Some(PostType::Image)
                }
            },
        }
    }

    /// The post's name in a log or a title: `post #` and its id.
    pub fn to_string(&self) -> (text: String)
        ensures
            text@ == "post #"@ + crate::text::decimal(self.id as nat),
    {
        let mut text = String::from_str("post #");
        crate::text::push_decimal(&mut text, self.id as u64);
        text
    }
}

/// The number that stands for a missing favorite count.
pub fn _default_0u32() -> (count: u32)
    ensures
        count == 0,
{
    0u32
}

/// A vote on a post.
#[derive(Clone, Copy, Debug, PartialEq, Eq, Structural)]
pub enum Vote {
    Upvote,
    Downvote,
}

/// The vote that a flag stands for: up where it is set, down where it is not.
pub open spec fn vote_of(upvoted: bool) -> Vote {
    if upvoted {
        Vote::Upvote
    } else {
        Vote::Downvote
    }
}

/// The flag that stands for a vote: set for an upvote.
pub open spec fn is_upvote(vote: Vote) -> bool {
    vote == Vote::Upvote
}

impl Vote {
    /// The score that the board counts for the vote: 1 up, -1 down.
    pub fn score(self) -> (score: i8)
        ensures
            score == (if self == Vote::Upvote {
                1i8
            } else {
                -1i8
            }),
    {
        match self {
            Vote::Upvote => 1,
            Vote::Downvote => -1,
        }
    }
}

impl From<Vote> for bool {
    fn from(value: Vote) -> (upvoted: bool)
        ensures
            upvoted == is_upvote(value),
    {
        match value {
            Vote::Upvote => true,
            Vote::Downvote => false,
        }
    }
}

impl vstd::std_specs::convert::FromSpecImpl<Vote> for bool {
    open spec fn obeys_from_spec() -> bool {
        true
    }

    open spec fn from_spec(value: Vote) -> bool {
        is_upvote(value)
    }
}

impl vstd::std_specs::convert::FromSpecImpl<bool> for Vote {
    open spec fn obeys_from_spec() -> bool {
        true
    }

    open spec fn from_spec(value: bool) -> Vote {
        vote_of(value)
    }
}

impl From<bool> for Vote {
    fn from(value: bool) -> (vote: Vote)
        ensures
            vote == vote_of(value),
    {
        if value {
            Vote::Upvote
        } else {
            Vote::Downvote
        }
    }
}

/// A flag and a vote stand for each other.
pub proof fn lemma_vote_flag_round_trip(vote: Vote, upvoted: bool)
    ensures
        vote_of(is_upvote(vote)) == vote,
        is_upvote(vote_of(upvoted)) == upvoted,
{
}

/// A comment on a post.
#[derive(Debug)]
pub struct Comment {
    pub id: u32,
    pub post_id: u32,
    pub creator_name: String,
    pub body: String,
    pub score: i32,
    pub created_at: Timestamp,
    pub updated_at: Timestamp,
}

/// What a `Comment` holds.
pub struct CommentView {
    pub id: u32,
    pub post_id: u32,
    pub creator_name: Seq<char>,
    pub body: Seq<char>,
    pub score: i32,
    pub created_at: Timestamp,
    pub updated_at: Timestamp,
}

impl View for Comment {
    type V = CommentView;

    open spec fn view(&self) -> CommentView {
        CommentView {
            id: self.id,
            post_id: self.post_id,
            creator_name: self.creator_name@,
            body: self.body@,
            score: self.score,
            created_at: self.created_at,
            updated_at: self.updated_at,
        }
    }
}

impl Clone for Comment {
    fn clone(&self) -> (copy: Self)
        ensures
            copy@ == self@,
    {
        Comment {
            id: self.id,
            post_id: self.post_id,
            creator_name: self.creator_name.clone(),
            body: self.body.clone(),
            score: self.score,
            created_at: self.created_at,
            updated_at: self.updated_at,
        }
    }
}

impl PartialEq for Comment {
    /// Two comments are the same comment when they have the same id.
    fn eq(&self, other: &Self) -> (same: bool) {
        self.id == other.id
    }
}

impl vstd::std_specs::cmp::PartialEqSpecImpl for Comment {
    open spec fn obeys_eq_spec() -> bool {
        true
    }

    open spec fn eq_spec(&self, other: &Self) -> bool {
        self.id == other.id
    }
}

} // verus!
