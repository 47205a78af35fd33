//! For each query, the posts that it found.

use crate::store::PostStore;
use crate::store::StoreView;
use rustc_hash::FxHashMap;
use vstd::prelude::*;
use vstd::string::*;

verus! {

/// What a table of results holds: for each query, by its text, the ids of
/// the posts that it found, in their order.
pub uninterp spec fn result_table(table: FxHashMap<String, Vec<u32>>) -> Map<Seq<char>, Seq<u32>>;

/// Makes an empty `rustc_hash::FxHashMap`, by `Default::default`.
///
/// Trusted: the table holds nothing.
#[verifier::external_body]
pub(crate) fn empty_results() -> (table: FxHashMap<String, Vec<u32>>)
    ensures
        result_table(table) == (Map::<Seq<char>, Seq<u32>>::empty()),
{
    FxHashMap::default()
}

/// Binds `query` in `table`, by `HashMap::insert`.
///
/// Trusted: afterwards the table holds `ids` for the text of `query`, in
/// place of what it held for that text, and everything else as before.
#[verifier::external_body]
fn put_result(table: &mut FxHashMap<String, Vec<u32>>, query: String, ids: Vec<u32>)
    ensures
        result_table(*final(table)) == result_table(*old(table)).insert(query@, ids@),
{
    table.insert(query, ids);
}

/// Looks `query` up in `table`, by `HashMap::get`.
///
/// Trusted: what is handed out is what the table holds for the text of
/// `query`, and nothing is handed out where it holds nothing for it.
#[verifier::external_body]
fn find_result<'a>(table: &'a FxHashMap<String, Vec<u32>>, query: &str) -> (found: Option<
    &'a Vec<u32>,
>)
    ensures
        found is Some == result_table(*table).contains_key(query@),
        found is Some ==> found->0@ == result_table(*table)[query@],
{
    table.get(query)
}

/// `list`, followed by those of `ids` that are not in it yet: each of them
/// once, where it first occurs.
pub open spec fn appended_new(list: Seq<u32>, ids: Seq<u32>) -> Seq<u32>
    decreases ids.len(),
{
    if ids.len() == 0 {
        list
    } else {
        let before = appended_new(list, ids.drop_last());
        if before.contains(ids.last()) {
            before
        } else {
            before.push(ids.last())
        }
    }
}

/// The result of a query after `ids` came in for it: what it held before,
/// if it had a result, with what is new of `ids` after it, each id once.
pub open spec fn updated_result(earlier: Option<Seq<u32>>, ids: Seq<u32>) -> Seq<u32> {
    appended_new(
        match earlier {
            Some(list) => list,
            None => Seq::empty(),
        },
        ids,
    )
}

/// `store` after `ids` came in for `query`.
pub open spec fn with_update<H, F>(store: StoreView<H, F>, query: Seq<char>, ids: Seq<u32>) -> StoreView<
    H,
    F,
> {
    StoreView {
        results: store.results.insert(query, updated_result(store.results.get(query), ids)),
        ..store
    }
}

impl<H, F> PostStore<H, F> {
    /// Makes `posts` the result of `query`, in place of any earlier result.
    pub fn insert_results(&mut self, query: &str, posts: &[u32])
        ensures
            final(self)@ == (StoreView {
                results: old(self)@.results.insert(query@, posts@),
                ..old(self)@
            }),
    {
        let list = vstd::slice::slice_to_vec(posts);
        put_result(&mut self.results, String::from_str(query), list);
    }

    /// Adds to the result of `query` those of `posts` that it does not hold
    /// yet, each once and in their order, after what it holds. A query
    /// without a result starts from none.
    pub fn update_results(&mut self, query: &str, posts: &[u32])
        ensures
            final(self)@ == with_update(old(self)@, query@, posts@),
    {
        let mut list: Vec<u32> = match find_result(&self.results, query) {
            Some(list) => list.clone(),
            None => Vec::new(),
        };
        let ghost earlier: Seq<u32> = match old(self)@.results.get(query@) {
            Some(held) => held,
            None => Seq::empty(),
        };
        assert(list@ =~= earlier);
        let mut i: usize = 0;
        while i < posts.len()
            invariant
                i <= posts.len(),
                list@ == appended_new(earlier, posts@.take(i as int)),
            decreases posts.len() - i,
        {
            let post = posts[i];
            proof {
                assert(posts@.take(i as int + 1).drop_last() =~= posts@.take(i as int));
            }
            if !holds(&list, post) {
                list.push(post);
            }
            i += 1;
        }
        assert(posts@.take(posts.len() as int) =~= posts@);
        put_result(&mut self.results, String::from_str(query), list);
    }

    /// The result of `query`, if it has one. A query without a result was
    /// never asked; one with an empty result found nothing.
    pub fn get_results(&self, query: &str) -> (found: Option<&Vec<u32>>)
        ensures
            found is Some == self@.results.contains_key(query@),
            found matches Some(list) ==> list@ == self@.results[query@],
    {
        find_result(&self.results, query)
    }
}

/// What came in for a query is in its result afterwards, and what the result
/// held before is still at its start, in the same order.
pub proof fn lemma_appended_new_holds(list: Seq<u32>, ids: Seq<u32>)
    ensures
        list.is_prefix_of(appended_new(list, ids)),
        forall|i: int| 0 <= i < ids.len() ==> appended_new(list, ids).contains(#[trigger] ids[i]),
        forall|id: u32|
            #[trigger] appended_new(list, ids).contains(id) ==> list.contains(id) || ids.contains(
                id,
            ),
    decreases ids.len(),
{
    if ids.len() > 0 {
        let front = ids.drop_last();
        let before = appended_new(list, front);
        let after = appended_new(list, ids);
        lemma_appended_new_holds(list, front);
        assert forall|i: int| 0 <= i < ids.len() implies after.contains(#[trigger] ids[i]) by {
            if i < front.len() {
                assert(before.contains(front[i]));
                let k = choose|k: int| 0 <= k < before.len() && before[k] == front[i];
                assert(after[k] == ids[i]);
            } else if !before.contains(ids.last()) {
                assert(after[before.len() as int] == ids[i]);
            }
        }
        assert forall|id: u32| #[trigger] after.contains(id) implies list.contains(id)
            || ids.contains(id) by {
            let k = choose|k: int| 0 <= k < after.len() && after[k] == id;
            if k < before.len() {
                assert(before.contains(id));
                if front.contains(id) {
                    let j = choose|j: int| 0 <= j < front.len() && front[j] == id;
                    assert(ids[j] == id);
                }
            } else {
                assert(ids[ids.len() - 1] == id);
            }
        }
    }
}

/// Where a result holds all that comes in, it stays as it is.
pub proof fn lemma_appended_new_of_held(list: Seq<u32>, ids: Seq<u32>)
    requires
        forall|i: int| 0 <= i < ids.len() ==> list.contains(#[trigger] ids[i]),
    ensures
        appended_new(list, ids) == list,
    decreases ids.len(),
{
    if ids.len() > 0 {
        let front = ids.drop_last();
        assert forall|i: int| 0 <= i < front.len() implies list.contains(#[trigger] front[i]) by {
            assert(front[i] == ids[i]);
        }
        lemma_appended_new_of_held(list, front);
        assert(list.contains(ids[ids.len() - 1]));
    }
}

/// A result without repeats stays without repeats.
pub proof fn lemma_appended_new_no_duplicates(list: Seq<u32>, ids: Seq<u32>)
    requires
        list.no_duplicates(),
    ensures
        appended_new(list, ids).no_duplicates(),
    decreases ids.len(),
{
    if ids.len() > 0 {
        lemma_appended_new_no_duplicates(list, ids.drop_last());
    }
}

/// Taking the same ids in twice for a query gives the result that taking
/// them in once gives.
pub proof fn lemma_update_results_idempotent(earlier: Option<Seq<u32>>, ids: Seq<u32>)
    ensures
        updated_result(Some(updated_result(earlier, ids)), ids) == updated_result(earlier, ids),
{
    let held = match earlier {
        Some(list) => list,
        None => Seq::empty(),
    };
    lemma_appended_new_holds(held, ids);
    lemma_appended_new_of_held(updated_result(earlier, ids), ids);
}

/// No id occurs twice in the result of a query after ids came in for it, if
/// none did before: whatever comes in, and however often.
pub proof fn lemma_update_has_no_duplicates(earlier: Option<Seq<u32>>, ids: Seq<u32>)
    requires
        earlier matches Some(list) ==> list.no_duplicates(),
    ensures
        updated_result(earlier, ids).no_duplicates(),
{
    let held = match earlier {
        Some(list) => list,
        None => Seq::empty(),
    };
    lemma_appended_new_no_duplicates(held, ids);
}

/// Taking the same ids in twice for a query leaves the cache as taking them
/// in once leaves it.
pub proof fn lemma_update_twice_is_once<H, F>(store: StoreView<H, F>, query: Seq<char>, ids: Seq<u32>)
    ensures
        with_update(with_update(store, query, ids), query, ids) == with_update(store, query, ids),
{
    lemma_update_results_idempotent(store.results.get(query), ids);
    let once = with_update(store, query, ids);
    assert(with_update(once, query, ids).results =~= once.results);
}

/// Whether every post that a result of `store` names is a post of `store`.
pub open spec fn results_within_posts<H, F>(store: StoreView<H, F>) -> bool {
    forall|query: Seq<char>, i: int|
        store.results.contains_key(query) && 0 <= i < store.results[query].len()
            ==> store.posts.contains_key(#[trigger] store.results[query][i])
}

/// Results name posts of the cache only, as long as the ids that are taken
/// in for a query are those of posts of the cache.
pub proof fn lemma_update_keeps_results_within_posts<H, F>(
    store: StoreView<H, F>,
    query: Seq<char>,
    ids: Seq<u32>,
)
    requires
        results_within_posts(store),
        forall|i: int| 0 <= i < ids.len() ==> store.posts.contains_key(#[trigger] ids[i]),
    ensures
        results_within_posts(with_update(store, query, ids)),
        results_within_posts(StoreView { results: store.results.insert(query, ids), ..store }),
{
    let merged = updated_result(store.results.get(query), ids);
    let after = StoreView { results: store.results.insert(query, merged), ..store };
    assert forall|q: Seq<char>, i: int|
        after.results.contains_key(q) && 0 <= i < after.results[q].len()
        implies after.posts.contains_key(#[trigger] after.results[q][i]) by {
        if q == query {
            let id = merged[i];
            assert(merged.contains(id));
            let list = match store.results.get(query) {
                Some(held) => held,
                None => Seq::empty(),
            };
            lemma_appended_new_holds(list, ids);
            if list.contains(id) {
                let k = choose|k: int| 0 <= k < list.len() && list[k] == id;
                assert(store.posts.contains_key(store.results[query][k]));
            } else {
                let k = choose|k: int| 0 <= k < ids.len() && ids[k] == id;
                assert(store.posts.contains_key(ids[k]));
            }
        } else {
            assert(store.posts.contains_key(store.results[q][i]));
        }
    }
    let replaced = StoreView { results: store.results.insert(query, ids), ..store };
    assert forall|q: Seq<char>, i: int|
        replaced.results.contains_key(q) && 0 <= i < replaced.results[q].len()
        implies replaced.posts.contains_key(#[trigger] replaced.results[q][i]) by {
        if q != query {
            assert(store.posts.contains_key(store.results[q][i]));
        }
    }
}

/// Results name posts of the cache only, whatever post is put into it.
pub proof fn lemma_insert_post_keeps_results_within_posts<H, F>(
    store: StoreView<H, F>,
    post: crate::model::PostView,
)
    requires
        results_within_posts(store),
    ensures
        results_within_posts(crate::store::with_post(store, post)),
{
    let after = crate::store::with_post(store, post);
    assert forall|q: Seq<char>, i: int|
        after.results.contains_key(q) && 0 <= i < after.results[q].len()
        implies after.posts.contains_key(#[trigger] after.results[q][i]) by {
        assert(store.posts.contains_key(store.results[q][i]));
    }
}

/// Whether `list` holds `id`.
fn holds(list: &Vec<u32>, id: u32) -> (found: bool)
    ensures
        found == list@.contains(id),
{
    let mut i: usize = 0;
    while i < list.len()
        invariant
            i <= list.len(),
            !list@.take(i as int).contains(id),
        decreases list.len() - i,
    {
        if list[i] == id {
            return true;
        }
        assert(list@.take(i as int + 1) =~= list@.take(i as int).push(list@[i as int]));
        i += 1;
    }
    assert(list@.take(list.len() as int) =~= list@);
    false
}

} // verus!
