//! The board's markup.
//!
//! Marked-up text is a run of spans. A span opens with a tag, holds spans in
//! turn, and closes with the tag that answers its opening one. What is read
//! so far: `[b]`, `[i]`, `[s]`, `[u]`, `[sup]`, `[spoiler]` and the backtick.
//! A spoiler and what stands between backticks are kept as superscript.
//! Reading stops where no span begins; what is left is handed back.

use vstd::prelude::*;
use vstd::string::*;

verus! {

/// A piece of marked-up text.
#[derive(Debug)]
pub enum DTextSpan {
    Text(String),
    Bold(Vec<DTextSpan>),
    Italics(Vec<DTextSpan>),
    Strikeout(Vec<DTextSpan>),
    Underline(Vec<DTextSpan>),
    Superscript(Vec<DTextSpan>),
    Subscript(Vec<DTextSpan>),
    Spoiler(Vec<DTextSpan>),
    InlineCode(String),
    ColoredText { color: String, text: Vec<DTextSpan> },
    PostLink(u32),
}

/// What a `DTextSpan` holds.
pub enum SpanView {
    Text(Seq<char>),
    Bold(Seq<SpanView>),
    Italics(Seq<SpanView>),
    Strikeout(Seq<SpanView>),
    Underline(Seq<SpanView>),
    Superscript(Seq<SpanView>),
    Subscript(Seq<SpanView>),
    Spoiler(Seq<SpanView>),
    InlineCode(Seq<char>),
    ColoredText { color: Seq<char>, text: Seq<SpanView> },
    PostLink(u32),
}

/// What `span` holds.
pub open spec fn span_view(span: DTextSpan) -> SpanView
    decreases span,
{
    match span {
        DTextSpan::Text(text) => SpanView::Text(text@),
        DTextSpan::Bold(inner) => SpanView::Bold(spans_view(inner@)),
        DTextSpan::Italics(inner) => SpanView::Italics(spans_view(inner@)),
        DTextSpan::Strikeout(inner) => SpanView::Strikeout(spans_view(inner@)),
        DTextSpan::Underline(inner) => SpanView::Underline(spans_view(inner@)),
        DTextSpan::Superscript(inner) => SpanView::Superscript(spans_view(inner@)),
        DTextSpan::Subscript(inner) => SpanView::Subscript(spans_view(inner@)),
        DTextSpan::Spoiler(inner) => SpanView::Spoiler(spans_view(inner@)),
        DTextSpan::InlineCode(code) => SpanView::InlineCode(code@),
        DTextSpan::ColoredText { color, text } => SpanView::ColoredText {
            color: color@,
            text: spans_view(text@),
        },
        DTextSpan::PostLink(id) => SpanView::PostLink(id),
    }
}

/// What `spans` hold.
pub open spec fn spans_view(spans: Seq<DTextSpan>) -> Seq<SpanView>
    decreases spans,
{
    if spans.len() == 0 {
        Seq::empty()
    } else {
        spans_view(spans.drop_last()).push(span_view(spans.last()))
    }
}

/// A kind of span that is read.
#[derive(Clone, Copy, Debug, PartialEq, Eq, Structural)]
pub enum Form {
    Bold,
    Italics,
    Strikeout,
    Underline,
    Superscript,
    Spoiler,
    Code,
}

/// The tag that opens a span of `form`.
pub open spec fn opener(form: Form) -> Seq<char> {
    match form {
        Form::Bold => "[b]"@,
        Form::Italics => "[i]"@,
        Form::Strikeout => "[s]"@,
        Form::Underline => "[u]"@,
        Form::Superscript => "[sup]"@,
        Form::Spoiler => "[spoiler]"@,
        Form::Code => "`"@,
    }
}

/// The tag that closes a span of `form`.
pub open spec fn closer(form: Form) -> Seq<char> {
    match form {
        Form::Bold => "[/b]"@,
        Form::Italics => "[/i]"@,
        Form::Strikeout => "[/s]"@,
        Form::Underline => "[/u]"@,
        Form::Superscript => "[/sup]"@,
        Form::Spoiler => "[/spoiler]"@,
        Form::Code => "`"@,
    }
}

/// The span of `form` that holds `inner`.
pub open spec fn made(form: Form, inner: Seq<SpanView>) -> SpanView {
    match form {
        Form::Bold => SpanView::Bold(inner),
        Form::Italics => SpanView::Italics(inner),
        Form::Strikeout => SpanView::Strikeout(inner),
        Form::Underline => SpanView::Underline(inner),
        Form::Superscript => SpanView::Superscript(inner),
        Form::Spoiler => SpanView::Superscript(inner),
        Form::Code => SpanView::Superscript(inner),
    }
}

/// The forms, in the order in which they are tried.
pub open spec fn forms() -> Seq<Form> {
    seq![
        Form::Bold,
        Form::Italics,
        Form::Strikeout,
        Form::Underline,
        Form::Superscript,
        Form::Spoiler,
        Form::Code,
    ]
}

/// The spans that were read, and the text that is left after them.
pub struct Parsed {
    pub spans: Seq<SpanView>,
    pub rest: Seq<char>,
}

/// The span that was read, and the text that is left after it.
pub struct ParsedSpan {
    pub span: SpanView,
    pub rest: Seq<char>,
}

/// The spans at the start of `input`, as many as there are, and what is
/// left after them.
pub open spec fn parsed_spans(input: Seq<char>) -> Parsed
    decreases input.len(), 2nat, 0nat,
{
    match parsed_span(input, 0) {
        Some(first) => if first.rest.len() < input.len() {
            let more = parsed_spans(first.rest);
            Parsed { spans: seq![first.span] + more.spans, rest: more.rest }
        } else {
            Parsed { spans: Seq::empty(), rest: input }
        },
        None => Parsed { spans: Seq::empty(), rest: input },
    }
}

/// The span at the start of `input`, if one of the forms from the `from`th
/// on begins there and ends: the first such form counts.
pub open spec fn parsed_span(input: Seq<char>, from: nat) -> Option<ParsedSpan>
    decreases input.len(), 1nat, forms().len() - from,
{
    if from >= forms().len() {
        None
    } else {
        match parsed_form(input, forms()[from as int]) {
            Some(found) => Some(found),
            None => parsed_span(input, from + 1),
        }
    }
}

/// The span of `form` at the start of `input`, if `input` opens with the
/// form's tag and, after the spans that follow, closes with it.
pub open spec fn parsed_form(input: Seq<char>, form: Form) -> Option<ParsedSpan>
    decreases input.len(), 0nat, 0nat,
{
    if opener(form).len() > 0 && opener(form).is_prefix_of(input) {
        let inner = parsed_spans(input.skip(opener(form).len() as int));
        if closer(form).is_prefix_of(inner.rest) {
            Some(
                ParsedSpan {
                    span: made(form, inner.spans),
                    rest: inner.rest.skip(closer(form).len() as int),
                },
            )
        } else {
            None
        }
    } else {
        None
    }
}

/// Skipping twice is skipping once, by as much as both.
proof fn lemma_skip_skip(text: Seq<char>, first: int, second: int)
    requires
        0 <= first,
        0 <= second,
        first + second <= text.len(),
    ensures
        text.skip(first).skip(second) == text.skip(first + second),
{
    assert(text.skip(first).skip(second) =~= text.skip(first + second));
}

/// The characters of `text`.
fn to_chars(text: &str) -> (chars: Vec<char>)
    ensures
        chars@ == text@,
{
    broadcast use vstd::string::group_string_axioms;

    let mut chars: Vec<char> = Vec::new();
    for c in it: text.chars()
        invariant
            it.seq() == text@,
            chars@ == text@.take(it.index()),
    {
        chars.push(c);
        assert(chars@ =~= text@.take(it.index() + 1));
    }
    assert(text@.take(text@.len() as int) =~= text@);
    chars
}

/// The text that `chars` hold from `from` on.
fn text_from(chars: &Vec<char>, from: usize) -> (text: String)
    requires
        from <= chars.len(),
    ensures
        text@ == chars@.skip(from as int),
{
    let mut text = String::new();
    let mut i: usize = from;
    while i < chars.len()
        invariant
            from <= i <= chars.len(),
            text@ == chars@.subrange(from as int, i as int),
        decreases chars.len() - i,
    {
        text.push(chars[i]);
        assert(text@ =~= chars@.subrange(from as int, i as int + 1));
        i += 1;
    }
    assert(text@ =~= chars@.skip(from as int));
    text
}

/// Where `word` ends in `chars` if it stands at `at`.
fn after(chars: &Vec<char>, at: usize, word: &str) -> (next: Option<usize>)
    requires
        at <= chars.len(),
    ensures
        next is Some == word@.is_prefix_of(chars@.skip(at as int)),
        next matches Some(end) ==> end == at + word@.len() && end <= chars.len(),
{
    broadcast use vstd::string::group_string_axioms;

    let ghost input = chars@.skip(at as int);
    let mut pos: usize = at;
    for c in it: word.chars()
        invariant
            it.seq() == word@,
            input == chars@.skip(at as int),
            at <= chars.len(),
            pos == at + it.index(),
            pos <= chars.len(),
            forall|j: int| 0 <= j < it.index() ==> input[j] == word@[j],
    {
        if pos >= chars.len() {
            assert(!word@.is_prefix_of(input));
            return None;
        }
        if chars[pos] != c {
            assert(input[it.index()] != word@[it.index()]);
            assert(!word@.is_prefix_of(input)) by {
                if word@.is_prefix_of(input) {
                    assert(input.subrange(0, word@.len() as int)[it.index()] == word@[it.index()]);
                }
            }
            return None;
        }
        assert(input[it.index()] == word@[it.index()]);
        pos += 1;
    }
    assert(word@ =~= input.subrange(0, word@.len() as int));
    Some(pos)
}

/// The tags that open and close a span of `form`.
fn tags(form: Form) -> (pair: (&'static str, &'static str))
    ensures
        pair.0@ == opener(form),
        pair.1@ == closer(form),
{
    match form {
        Form::Bold => ("[b]", "[/b]"),
        Form::Italics => ("[i]", "[/i]"),
        Form::Strikeout => ("[s]", "[/s]"),
        Form::Underline => ("[u]", "[/u]"),
        Form::Superscript => ("[sup]", "[/sup]"),
        Form::Spoiler => ("[spoiler]", "[/spoiler]"),
        Form::Code => ("`", "`"),
    }
}

/// The span of `form` that holds `inner`.
fn make(form: Form, inner: Vec<DTextSpan>) -> (span: DTextSpan)
    ensures
        span_view(span) == made(form, spans_view(inner@)),
{
    match form {
        Form::Bold => DTextSpan::Bold(inner),
        Form::Italics => DTextSpan::Italics(inner),
        Form::Strikeout => DTextSpan::Strikeout(inner),
        Form::Underline => DTextSpan::Underline(inner),
        Form::Superscript => DTextSpan::Superscript(inner),
        Form::Spoiler => DTextSpan::Superscript(inner),
        Form::Code => DTextSpan::Superscript(inner),
    }
}

/// What reading one span at a place gave: the span and where it ends, if
/// there is one.
spec fn span_read(chars: Seq<char>, read: Option<(DTextSpan, usize)>) -> Option<ParsedSpan> {
    match read {
        Some((span, end)) => Some(ParsedSpan { span: span_view(span), rest: chars.skip(end as int) }),
        None => None,
    }
}

/// Reads a span of `form` at `at`.
fn read_form(chars: &Vec<char>, at: usize, form: Form) -> (read: Option<(DTextSpan, usize)>)
    requires
        at <= chars.len(),
    ensures
        span_read(chars@, read) == parsed_form(chars@.skip(at as int), form),
        read matches Some(found) ==> at < found.1 <= chars.len(),
    decreases chars.len() - at, 0nat, 0nat,
{
    let (open, close) = tags(form);
    let inside = match after(chars, at, open) {
        Some(inside) => inside,
        None => {
            return None;
        },
    };
    if inside <= at {
        return None;
    }
    proof {
        lemma_skip_skip(chars@, at as int, inside - at);
    }
    let (inner, end) = read_spans(chars, inside);
    match after(chars, end, close) {
        Some(next) => {
            proof {
                lemma_skip_skip(chars@, end as int, next - end);
            }
            Some((make(form, inner), next))
        },
        None => None,
    }
}

/// Reads a span at `at`: one of the first form that begins there and ends.
fn read_span(chars: &Vec<char>, at: usize) -> (read: Option<(DTextSpan, usize)>)
    requires
        at <= chars.len(),
    ensures
        span_read(chars@, read) == parsed_span(chars@.skip(at as int), 0),
        read matches Some(found) ==> at < found.1 <= chars.len(),
    decreases chars.len() - at, 1nat, 0nat,
{
    let order = [
        Form::Bold,
        Form::Italics,
        Form::Strikeout,
        Form::Underline,
        Form::Superscript,
        Form::Spoiler,
        Form::Code,
    ];
    assert(order@ =~= forms());
    let ghost input = chars@.skip(at as int);
    let mut i: usize = 0;
    while i < 7
        invariant
            i <= 7,
            at <= chars.len(),
            order@ == forms(),
            input == chars@.skip(at as int),
            parsed_span(input, 0) == parsed_span(input, i as nat),
        decreases 7 - i,
    {
        match read_form(chars, at, order[i]) {
            Some(found) => {
                return Some(found);
            },
            None => {},
        }
        i += 1;
    }
    None
}

/// Reads spans from `at` on, as many as there are.
fn read_spans(chars: &Vec<char>, at: usize) -> (read: (Vec<DTextSpan>, usize))
    requires
        at <= chars.len(),
    ensures
        at <= read.1 <= chars.len(),
        parsed_spans(chars@.skip(at as int)) == (Parsed {
            spans: spans_view(read.0@),
            rest: chars@.skip(read.1 as int),
        }),
    decreases chars.len() - at, 2nat, 0nat,
{
    let mut spans: Vec<DTextSpan> = Vec::new();
    let mut pos: usize = at;
    let ghost whole = parsed_spans(chars@.skip(at as int));
    loop
        invariant
            at <= pos <= chars.len(),
            whole == parsed_spans(chars@.skip(at as int)),
            whole.spans == spans_view(spans@) + parsed_spans(chars@.skip(pos as int)).spans,
            whole.rest == parsed_spans(chars@.skip(pos as int)).rest,
        ensures
            at <= pos <= chars.len(),
            whole == (Parsed { spans: spans_view(spans@), rest: chars@.skip(pos as int) }),
        decreases chars.len() - pos,
    {
        match read_span(chars, pos) {
            Some((span, next)) => {
                let ghost before = spans@;
                let ghost tail = parsed_spans(chars@.skip(next as int));
                spans.push(span);
                proof {
                    assert(spans@.drop_last() =~= before);
                    assert(spans_view(spans@) == spans_view(before).push(span_view(span)));
                    assert(spans_view(spans@) + tail.spans =~= spans_view(before) + (seq![
                        span_view(span),
                    ] + tail.spans));
                }
                pos = next;
            },
            None => {
                assert(whole.spans =~= spans_view(spans@));
                break ;
            },
        }
    }
    (spans, pos)
}

/// Reads the spans at the start of `input`, as many as there are, and hands
/// back what is left of `input` after them, and the spans.
pub fn parse_dtext(input: &str) -> (read: (String, Vec<DTextSpan>))
    ensures
        parsed_spans(input@) == (Parsed { spans: spans_view(read.1@), rest: read.0@ }),
{
    let chars = to_chars(input);
    assert(chars@.skip(0) =~= chars@);
    let (spans, end) = read_spans(&chars, 0);
    (text_from(&chars, end), spans)
}

} // verus!
