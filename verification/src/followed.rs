//! The tags that are followed.

use crate::api::FetchPoint;
use crate::model::Post;
use crate::model::PostView;
use crate::store::post_views;
use crate::text::trim;
use crate::text::trimmed;
use rustc_hash::FxHashMap;
use vstd::prelude::*;
use vstd::string::*;

verus! {

/// A tag that is followed, and the newest post of it that was seen.
#[derive(Debug, PartialEq)]
pub struct FollowedTag {
    pub tag: String,
    pub last_seen: Option<u32>,
}

/// What a `FollowedTag` holds.
pub struct FollowedTagView {
    pub tag: Seq<char>,
    pub last_seen: Option<u32>,
}

impl View for FollowedTag {
    type V = FollowedTagView;

    open spec fn view(&self) -> FollowedTagView {
        FollowedTagView { tag: self.tag@, last_seen: self.last_seen }
    }
}

impl Clone for FollowedTag {
    fn clone(&self) -> (copy: Self)
        ensures
            copy == *self,
    {
        FollowedTag { tag: self.tag.clone(), last_seen: self.last_seen }
    }
}

impl FollowedTag {
    /// The tag and the newest post of it that was seen.
    pub fn decompose(self) -> (parts: (String, Option<u32>))
        ensures
            parts == (self.tag, self.last_seen),
    {
        (self.tag, self.last_seen)
    }

    /// From where to ask the board for the posts of the tag: after the
    /// newest one that was seen, or from the start where none was.
    pub fn fetch_point(&self) -> (point: Option<FetchPoint>)
        ensures
            point == (match self.last_seen {
                Some(id) => Some(FetchPoint::After(id)),
                None => None,
            }),
    {
        match self.last_seen {
            None => None,
            Some(id) => Some(FetchPoint::After(id)),
        }
    }
}

/// What a table of followed tags holds: for each tag, by its text, the
/// newest post of it that was seen.
pub uninterp spec fn tag_table(table: FxHashMap<String, Option<u32>>) -> Map<
    Seq<char>,
    Option<u32>,
>;

/// Makes an empty `rustc_hash::FxHashMap`, by `Default::default`.
///
/// Trusted: the table holds nothing.
#[verifier::external_body]
fn empty_table() -> (table: FxHashMap<String, Option<u32>>)
    ensures
        tag_table(table) == (Map::<Seq<char>, Option<u32>>::empty()),
{
    FxHashMap::default()
}

/// Binds `tag` in `table`, by `HashMap::insert`.
///
/// Trusted: afterwards the table holds `last_seen` for the text of `tag`,
/// in place of what it held for that text, and everything else as before.
#[verifier::external_body]
fn put_tag(table: &mut FxHashMap<String, Option<u32>>, tag: String, last_seen: Option<u32>)
    ensures
        tag_table(*final(table)) == tag_table(*old(table)).insert(tag@, last_seen),
{
    table.insert(tag, last_seen);
}

/// Asks `table` for `tag`, by `HashMap::contains_key`.
///
/// Trusted: the answer is whether the table holds something for the text of
/// `tag`.
#[verifier::external_body]
fn holds_tag(table: &FxHashMap<String, Option<u32>>, tag: &str) -> (held: bool)
    ensures
        held == tag_table(*table).contains_key(tag@),
{
    table.contains_key(tag)
}

/// Unbinds `tag` in `table`, by `HashMap::remove`.
///
/// Trusted: afterwards the table holds nothing for the text of `tag`, and
/// everything else as before.
#[verifier::external_body]
fn drop_tag(table: &mut FxHashMap<String, Option<u32>>, tag: &str)
    ensures
        tag_table(*final(table)) == tag_table(*old(table)).remove(tag@),
{
    table.remove(tag);
}

/// What the tags in `tags` hold.
pub open spec fn tag_views(tags: Seq<FollowedTag>) -> Seq<FollowedTagView> {
    tags.map_values(|t: FollowedTag| t@)
}

/// The texts of `tags`, in their order.
pub open spec fn tag_texts(tags: Seq<FollowedTagView>) -> Seq<Seq<char>> {
    tags.map_values(|t: FollowedTagView| t.tag)
}

/// Whether `tags` lists what `table` holds: every tag of the table once,
/// with what the table holds for it, and nothing else.
pub open spec fn lists_table(tags: Seq<FollowedTagView>, table: Map<Seq<char>, Option<u32>>) -> bool {
    &&& tag_texts(tags).no_duplicates()
    &&& tag_texts(tags).to_set() == table.dom()
    &&& forall|i: int| 0 <= i < tags.len() ==> table[(#[trigger] tags[i]).tag] == tags[i].last_seen
}

/// What the entries in `entries` hold.
pub open spec fn entry_views(entries: Seq<(String, Option<u32>)>) -> Seq<FollowedTagView> {
    entries.map_values(|e: (String, Option<u32>)| FollowedTagView { tag: e.0@, last_seen: e.1 })
}

/// Copies out what `table` holds, by `HashMap::iter`, in the order in which
/// the table walks its entries.
///
/// Trusted: the walk meets every entry of the table once.
#[verifier::external_body]
fn table_entries(table: &FxHashMap<String, Option<u32>>) -> (entries: Vec<(String, Option<u32>)>)
    ensures
        lists_table(entry_views(entries@), tag_table(*table)),
{
    table.iter().map(|(tag, last_seen)| (tag.clone(), *last_seen)).collect()
}

/// The table that binding each of `tags` in turn gives: where a tag occurs
/// twice, the later one counts.
pub open spec fn table_of(tags: Seq<FollowedTagView>) -> Map<Seq<char>, Option<u32>>
    decreases tags.len(),
{
    if tags.len() == 0 {
        Map::empty()
    } else {
        table_of(tags.drop_last()).insert(tags.last().tag, tags.last().last_seen)
    }
}

/// The followed tags of `map` as a list, in the order in which the table
/// walks them.
pub fn compose_vec(map: FxHashMap<String, Option<u32>>) -> (tags: Vec<FollowedTag>)
    ensures
        lists_table(tag_views(tags@), tag_table(map)),
{
    let entries = table_entries(&map);
    let ghost all = entries@;
    let mut tags: Vec<FollowedTag> = Vec::new();
    for entry in it: entries.into_iter()
        invariant
            it.seq() == all,
            tag_views(tags@) == entry_views(all).take(it.index()),
    {
        let ghost before = tags@;
        tags.push(FollowedTag { tag: entry.0, last_seen: entry.1 });
        assert(tag_views(tags@) =~= tag_views(before).push(entry_views(all)[it.index()]));
        assert(tag_views(tags@) =~= entry_views(all).take(it.index() + 1));
    }
    assert(entry_views(all).take(all.len() as int) =~= entry_views(all));
    tags
}

/// The followed tags of `vec` as a table.
pub fn compose_hashmap(vec: Vec<FollowedTag>) -> (map: FxHashMap<String, Option<u32>>)
    ensures
        tag_table(map) == table_of(tag_views(vec@)),
{
    let mut map = empty_table();
    let mut i: usize = 0;
    while i < vec.len()
        invariant
            i <= vec.len(),
            tag_table(map) == table_of(tag_views(vec@).take(i as int)),
        decreases vec.len() - i,
    {
        proof {
            let next = tag_views(vec@).take(i as int + 1);
            assert(next.drop_last() =~= tag_views(vec@).take(i as int));
            assert(next.last() == vec@[i as int]@);
        }
        put_tag(&mut map, vec[i].tag.clone(), vec[i].last_seen);
        i += 1;
    }
    assert(tag_views(vec@).take(vec.len() as int) =~= tag_views(vec@));
    map
}

/// Follows the tag that was typed into the field, if it is one and is not
/// followed yet: white space around it does not count, nothing was seen of
/// it. Says whether the tag was added.
pub fn add_tag(table: &mut FxHashMap<String, Option<u32>>, typed: &str) -> (added: bool)
    ensures
        added == (trim(typed@).len() > 0 && !tag_table(*old(table)).contains_key(trim(typed@))),
        tag_table(*final(table)) == (if added {
            tag_table(*old(table)).insert(trim(typed@), None)
        } else {
            tag_table(*old(table))
        }),
{
    let tag = trimmed(typed);
    if !tag.as_str().is_empty() && !holds_tag(table, tag.as_str()) {
        put_tag(table, tag, None);
        true
    } else {
        false
    }
}

/// Follows `tag` as if nothing was seen of it yet, whether or not it was
/// followed before.
pub fn follow_tag(table: &mut FxHashMap<String, Option<u32>>, tag: &str)
    ensures
        tag_table(*final(table)) == tag_table(*old(table)).insert(tag@, None),
{
    put_tag(table, String::from_str(tag), None);
}

/// Stops following `tag`.
pub fn remove_tag(table: &mut FxHashMap<String, Option<u32>>, tag: &str)
    ensures
        tag_table(*final(table)) == tag_table(*old(table)).remove(tag@),
{
    drop_tag(table, tag);
}

/// What is known of what was seen after the posts `posts` were seen for
/// `tag`: the first of them is the newest that was seen, if there is one
/// and the tag is followed.
pub open spec fn seen(table: Map<Seq<char>, Option<u32>>, tag: Seq<char>, posts: Seq<PostView>) -> Map<
    Seq<char>,
    Option<u32>,
> {
    if posts.len() > 0 && table.contains_key(tag) {
        table.insert(tag, Some(posts[0].id))
    } else {
        table
    }
}

/// What the updates in `updates` hold.
pub open spec fn update_views(updates: Seq<(String, Vec<Post>)>) -> Seq<(Seq<char>, Seq<PostView>)> {
    updates.map_values(|u: (String, Vec<Post>)| (u.0@, post_views(u.1@)))
}

/// What is known of what was seen after everything in `updates` was seen.
pub open spec fn all_seen(
    table: Map<Seq<char>, Option<u32>>,
    updates: Seq<(Seq<char>, Seq<PostView>)>,
) -> Map<Seq<char>, Option<u32>>
    decreases updates.len(),
{
    if updates.len() == 0 {
        table
    } else {
        seen(all_seen(table, updates.drop_last()), updates.last().0, updates.last().1)
    }
}

/// Marks the new posts of the followed tags as seen: for each tag that is
/// followed and has new posts, the first of them is now the newest that was
/// seen.
pub fn mark_seen(table: &mut FxHashMap<String, Option<u32>>, updates: &Vec<(String, Vec<Post>)>)
    ensures
        tag_table(*final(table)) == all_seen(tag_table(*old(table)), update_views(updates@)),
{
    let mut i: usize = 0;
    while i < updates.len()
        invariant
            i <= updates.len(),
            tag_table(*table) == all_seen(
                tag_table(*old(table)),
                update_views(updates@).take(i as int),
            ),
        decreases updates.len() - i,
    {
        proof {
            let next = update_views(updates@).take(i as int + 1);
            assert(next.drop_last() =~= update_views(updates@).take(i as int));
            assert(next.last() == (updates@[i as int].0@, post_views(updates@[i as int].1@)));
        }
        let tag = &updates[i].0;
        let posts = &updates[i].1;
        if posts.len() > 0 && holds_tag(table, tag.as_str()) {
            put_tag(table, tag.clone(), Some(posts[0].id));
        }
        i += 1;
    }
    assert(update_views(updates@).take(updates.len() as int) =~= update_views(updates@));
}

} // verus!
