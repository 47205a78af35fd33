//! The posts that are not shown.

use crate::model::Post;
use crate::model::TagsView;
use crate::text::blank;
use crate::text::copy_texts;
use crate::text::is_blank;
use crate::text::trim;
use crate::text::trimmed;
use vstd::prelude::*;
use vstd::string::*;

verus! {

/// The rules that say which posts are not shown.
///
/// A rule is a list of words with white space between them. A word is a tag
/// that a post must have, or, with a minus sign in front, a tag that it must
/// not have. A post is not shown if it meets every word of some rule.
#[derive(Debug, PartialEq)]
pub struct Blacklist {
    pub rules: Vec<String>,
}

impl Default for Blacklist {
    fn default() -> (blacklist: Self)
        ensures
            blacklist.rules@.len() == 0,
    {
        Blacklist { rules: Vec::new() }
    }
}

impl Clone for Blacklist {
    fn clone(&self) -> (copy: Self)
        ensures
            copy.rules.deep_view() == self.rules.deep_view(),
    {
        Blacklist { rules: copy_texts(&self.rules) }
    }
}

/// A word of a rule: a tag, and whether it must be missing.
#[derive(Debug)]
pub struct Term {
    pub tag: String,
    pub negated: bool,
}

/// What a `Term` holds.
pub struct TermView {
    pub tag: Seq<char>,
    pub negated: bool,
}

impl View for Term {
    type V = TermView;

    open spec fn view(&self) -> TermView {
        TermView { tag: self.tag@, negated: self.negated }
    }
}

/// What the terms in `terms` hold.
pub open spec fn term_views(terms: Seq<Term>) -> Seq<TermView> {
    terms.map_values(|t: Term| t@)
}

/// How far reading a text for its words has come: the words that are
/// complete, and the characters of the word that is being read.
pub struct Scan {
    pub words: Seq<Seq<char>>,
    pub word: Seq<char>,
}

/// Reads `text` for its words: white space ends a word, anything else goes
/// on with one.
pub open spec fn scan(text: Seq<char>) -> Scan
    decreases text.len(),
{
    if text.len() == 0 {
        Scan { words: Seq::empty(), word: Seq::empty() }
    } else {
        let before = scan(text.drop_last());
        if !is_blank(text.last()) {
            Scan { words: before.words, word: before.word.push(text.last()) }
        } else if before.word.len() > 0 {
            Scan { words: before.words.push(before.word), word: Seq::empty() }
        } else {
            before
        }
    }
}

/// The words of `text`: its longest stretches without white space, in
/// their order.
pub open spec fn words(text: Seq<char>) -> Seq<Seq<char>> {
    let end = scan(text);
    if end.word.len() > 0 {
        end.words.push(end.word)
    } else {
        end.words
    }
}

/// The term that `word` stands for: with a minus sign in front, the rest of
/// it as a tag that must be missing; without, all of it as a tag that must
/// be there.
pub open spec fn term_of(word: Seq<char>) -> TermView {
    if word.len() > 0 && word[0] == '-' {
        TermView { tag: word.skip(1), negated: true }
    } else {
        TermView { tag: word, negated: false }
    }
}

/// The terms of `rule`, in their order.
pub open spec fn terms_of(rule: Seq<char>) -> Seq<TermView> {
    words(rule).map_values(|w: Seq<char>| term_of(w))
}

/// Whether `tag` is among `tags`, in whatever group.
pub open spec fn has_tag(tags: TagsView, tag: Seq<char>) -> bool {
    ||| tags.artist.contains(tag)
    ||| tags.copyright.contains(tag)
    ||| tags.character.contains(tag)
    ||| tags.species.contains(tag)
    ||| tags.general.contains(tag)
    ||| tags.invalid.contains(tag)
    ||| tags.meta.contains(tag)
    ||| tags.lore.contains(tag)
}

/// Whether a post with `tags` meets `term`.
pub open spec fn meets(tags: TagsView, term: TermView) -> bool {
    has_tag(tags, term.tag) != term.negated
}

/// Whether a post with `tags` meets every term of `terms`.
pub open spec fn meets_all(tags: TagsView, terms: Seq<TermView>) -> bool {
    forall|i: int| 0 <= i < terms.len() ==> meets(tags, #[trigger] terms[i])
}

/// Whether some rule of `rules` applies to a post with `tags`.
pub open spec fn blacklisted(tags: TagsView, rules: Seq<Seq<char>>) -> bool {
    exists|i: int| 0 <= i < rules.len() && meets_all(tags, terms_of(#[trigger] rules[i]))
}

/// The terms of `rule`, in their order.
pub fn parse_rule(rule: &str) -> (terms: Vec<Term>)
    ensures
        term_views(terms@) == terms_of(rule@),
{
    broadcast use vstd::string::group_string_axioms;

    let mut terms: Vec<Term> = Vec::new();
    let mut tag = String::new();
    let mut negated = false;
    let mut in_word = false;
    for c in it: rule.chars()
        invariant
            it.seq() == rule@,
            term_views(terms@) == scan(rule@.take(it.index())).words.map_values(
                |w: Seq<char>| term_of(w),
            ),
            in_word == (scan(rule@.take(it.index())).word.len() > 0),
            in_word ==> term_of(scan(rule@.take(it.index())).word) == (TermView {
                tag: tag@,
                negated,
            }),
            !in_word ==> tag@.len() == 0 && !negated,
    {
        proof {
            assert(rule@.take(it.index() + 1).drop_last() =~= rule@.take(it.index()));
            assert(rule@.take(it.index() + 1).last() == c);
        }
        let ghost before = scan(rule@.take(it.index()));
        let ghost after = scan(rule@.take(it.index() + 1));
        if !blank(c) {
            if !in_word && c == '-' {
                negated = true;
                assert(after.word =~= seq!['-']);
                assert(after.word.skip(1) =~= tag@);
            } else {
                tag.push(c);
                proof {
                    if in_word {
                        assert(after.word == before.word.push(c));
                        assert(after.word[0] == before.word[0]);
                        if negated {
                            assert(after.word.skip(1) =~= before.word.skip(1).push(c));
                        }
                    } else {
                        assert(after.word =~= seq![c]);
                        assert(after.word[0] == c);
                        assert(tag@ =~= after.word);
                    }
                }
            }
            in_word = true;
        } else if in_word {
            let ghost done = terms@;
            terms.push(Term { tag, negated });
            tag = String::new();
            negated = false;
            in_word = false;
            proof {
                assert(term_views(terms@) =~= term_views(done).push(term_of(before.word)));
                assert(after.words.map_values(|w: Seq<char>| term_of(w)) =~= before.words.map_values(
                    |w: Seq<char>| term_of(w),
                ).push(term_of(before.word)));
            }
        }
    }
    proof {
        assert(rule@.take(rule@.len() as int) =~= rule@);
    }
    let ghost end = scan(rule@);
    if in_word {
        let ghost done = terms@;
        terms.push(Term { tag, negated });
        proof {
            assert(term_views(terms@) =~= term_views(done).push(term_of(end.word)));
            assert(terms_of(rule@) =~= end.words.map_values(|w: Seq<char>| term_of(w)).push(
                term_of(end.word),
            ));
        }
    }
    terms
}

/// Whether `tag` is among `list`.
fn lists(list: &Vec<String>, tag: &str) -> (found: bool)
    ensures
        found == list.deep_view().contains(tag@),
{
    let mut i: usize = 0;
    while i < list.len()
        invariant
            i <= list.len(),
            forall|j: int| 0 <= j < i ==> list.deep_view()[j] != tag@,
        decreases list.len() - i,
    {
        if list[i].as_str().eq(tag) {
            assert(list.deep_view()[i as int] == tag@);
            return true;
        }
        i += 1;
    }
    false
}

/// Whether `post` has `tag`, in whatever group.
pub fn post_has_tag(post: &Post, tag: &str) -> (found: bool)
    ensures
        found == has_tag(post@.tags, tag@),
{
    lists(&post.tags.artist, tag) || lists(&post.tags.copyright, tag) || lists(
        &post.tags.character,
        tag,
    ) || lists(&post.tags.species, tag) || lists(&post.tags.general, tag) || lists(
        &post.tags.invalid,
        tag,
    ) || lists(&post.tags.meta, tag) || lists(&post.tags.lore, tag)
}

/// Whether `post` meets every word of `rule`.
pub fn rule_applies(post: &Post, rule: &str) -> (applies: bool)
    ensures
        applies == meets_all(post@.tags, terms_of(rule@)),
{
    let terms = parse_rule(rule);
    let mut i: usize = 0;
    while i < terms.len()
        invariant
            i <= terms.len(),
            term_views(terms@) == terms_of(rule@),
            forall|j: int| 0 <= j < i ==> meets(post@.tags, #[trigger] terms_of(rule@)[j]),
        decreases terms.len() - i,
    {
        let found = post_has_tag(post, terms[i].tag.as_str());
        assert(term_views(terms@)[i as int] == terms[i as int]@);
        if found == terms[i].negated {
            assert(!meets(post@.tags, terms_of(rule@)[i as int]));
            return false;
        }
        i += 1;
    }
    true
}

/// Whether `post` is not shown: whether some rule of `blacklist` applies to
/// it.
pub fn is_blacklisted(post: &Post, blacklist: &Blacklist) -> (hidden: bool)
    ensures
        hidden == blacklisted(post@.tags, blacklist.rules.deep_view()),
{
    let mut i: usize = 0;
    while i < blacklist.rules.len()
        invariant
            i <= blacklist.rules.len(),
            forall|j: int|
                0 <= j < i ==> !meets_all(
                    post@.tags,
                    terms_of(#[trigger] blacklist.rules.deep_view()[j]),
                ),
        decreases blacklist.rules.len() - i,
    {
        if rule_applies(post, blacklist.rules[i].as_str()) {
            assert(blacklist.rules.deep_view()[i as int] == blacklist.rules[i as int]@);
            return true;
        }
        assert(blacklist.rules.deep_view()[i as int] == blacklist.rules[i as int]@);
        i += 1;
    }
    false
}

/// The line of `text` that is not ended yet: what follows its last line
/// break.
pub open spec fn open_line(text: Seq<char>) -> Seq<char>
    decreases text.len(),
{
    if text.len() == 0 {
        text
    } else if text.last() == '\n' {
        Seq::empty()
    } else {
        open_line(text.drop_last()).push(text.last())
    }
}

/// The lines of `text` that a line break ends, in their order.
pub open spec fn ended_lines(text: Seq<char>) -> Seq<Seq<char>>
    decreases text.len(),
{
    if text.len() == 0 {
        Seq::empty()
    } else if text.last() == '\n' {
        ended_lines(text.drop_last()).push(open_line(text.drop_last()))
    } else {
        ended_lines(text.drop_last())
    }
}

/// The rules among `lines`: each line without the white space around it,
/// unless nothing is left of it.
pub open spec fn rules_among(lines: Seq<Seq<char>>) -> Seq<Seq<char>>
    decreases lines.len(),
{
    if lines.len() == 0 {
        lines
    } else if trim(lines.last()).len() == 0 {
        rules_among(lines.drop_last())
    } else {
        rules_among(lines.drop_last()).push(trim(lines.last()))
    }
}

/// The rules that `text` holds, one to a line.
pub open spec fn rules_in(text: Seq<char>) -> Seq<Seq<char>> {
    rules_among(ended_lines(text).push(open_line(text)))
}

/// `rules` as a text, one to a line.
pub open spec fn rules_text(rules: Seq<Seq<char>>) -> Seq<char>
    decreases rules.len(),
{
    if rules.len() == 0 {
        Seq::empty()
    } else if rules.len() == 1 {
        rules[0]
    } else {
        rules_text(rules.drop_last()) + seq!['\n'] + rules.last()
    }
}

impl Blacklist {
    /// The blacklist that `text` holds, one rule to a line. White space
    /// around a rule does not count, and a line without a rule is skipped.
    pub fn from_text(text: &str) -> (blacklist: Self)
        ensures
            blacklist.rules.deep_view() == rules_in(text@),
    {
        broadcast use vstd::string::group_string_axioms;

        let mut rules: Vec<String> = Vec::new();
        let mut line = String::new();
        for c in it: text.chars()
            invariant
                it.seq() == text@,
                line@ == open_line(text@.take(it.index())),
                rules.deep_view() == rules_among(ended_lines(text@.take(it.index()))),
        {
            proof {
                assert(text@.take(it.index() + 1).drop_last() =~= text@.take(it.index()));
                assert(text@.take(it.index() + 1).last() == c);
            }
            if c == '\n' {
                let rule = trimmed(line.as_str());
                let ghost lines = ended_lines(text@.take(it.index() + 1));
                proof {
                    assert(lines.drop_last() =~= ended_lines(text@.take(it.index())));
                    assert(lines.last() == line@);
                }
                if !rule.as_str().is_empty() {
                    let ghost before = rules.deep_view();
                    rules.push(rule);
                    assert(rules.deep_view() =~= before.push(rule@));
                }
                line = String::new();
            } else {
                line.push(c);
            }
        }
        proof {
            assert(text@.take(text@.len() as int) =~= text@);
        }
        let rule = trimmed(line.as_str());
        let ghost lines = ended_lines(text@).push(open_line(text@));
        proof {
            assert(lines.drop_last() =~= ended_lines(text@));
            assert(lines.last() == line@);
        }
        if !rule.as_str().is_empty() {
            let ghost before = rules.deep_view();
            rules.push(rule);
            assert(rules.deep_view() =~= before.push(rule@));
        }
        Blacklist { rules }
    }

    /// The blacklist as a text, one rule to a line.
    pub fn to_text(&self) -> (text: String)
        ensures
            text@ == rules_text(self.rules.deep_view()),
    {
        let mut text = String::new();
        let mut i: usize = 0;
        while i < self.rules.len()
            invariant
                i <= self.rules.len(),
                text@ == rules_text(self.rules.deep_view().take(i as int)),
            decreases self.rules.len() - i,
        {
            proof {
                let next = self.rules.deep_view().take(i as int + 1);
                assert(next.drop_last() =~= self.rules.deep_view().take(i as int));
                assert(next.last() == self.rules[i as int]@);
                assert(next[0] == self.rules.deep_view()[0]);
                reveal_strlit("\n");
                assert("\n"@ =~= seq!['\n']);
            }
            if i > 0 {
                text.append("\n");
            }
            text.append(self.rules[i].as_str());
            proof {
                let next = self.rules.deep_view().take(i as int + 1);
                if i == 0 {
                    assert(text@ =~= next[0]);
                }
                assert(text@ =~= rules_text(next));
            }
            i += 1;
        }
        assert(self.rules.deep_view().take(self.rules.len() as int) =~= self.rules.deep_view());
        text
    }
}

} // verus!
