//! What the screen shows, and where it has been.

use crate::text::decimal;
use crate::text::push_decimal;
use std::collections::VecDeque;
use vstd::prelude::*;
use vstd::string::*;

verus! {

/// A view of the program.
#[derive(Debug, PartialEq, Eq)]
pub enum ViewMode {
    /// The grid of the posts that a query found.
    Grid(String),
    /// One post, by its id.
    Detail(u32),
    Settings,
    Followed,
}

/// What a `ViewMode` holds.
pub enum ViewModeView {
    Grid(Seq<char>),
    Detail(u32),
    Settings,
    Followed,
}

impl View for ViewMode {
    type V = ViewModeView;

    open spec fn view(&self) -> ViewModeView {
        match self {
            ViewMode::Grid(query) => ViewModeView::Grid(query@),
            ViewMode::Detail(id) => ViewModeView::Detail(*id),
            ViewMode::Settings => ViewModeView::Settings,
            ViewMode::Followed => ViewModeView::Followed,
        }
    }
}

impl Clone for ViewMode {
    fn clone(&self) -> (copy: Self)
        ensures
            copy@ == self@,
    {
        match self {
            ViewMode::Grid(query) => ViewMode::Grid(query.clone()),
            ViewMode::Detail(id) => ViewMode::Detail(*id),
            ViewMode::Settings => ViewMode::Settings,
            ViewMode::Followed => ViewMode::Followed,
        }
    }
}

/// What the views in `views` hold.
pub open spec fn mode_views(views: Seq<ViewMode>) -> Seq<ViewModeView> {
    views.map_values(|v: ViewMode| v@)
}

/// The views that were left, for the buttons that go back and forward.
#[derive(Debug)]
pub struct ViewHistory {
    /// The views to go back to, the nearest last.
    pub backwards: Vec<ViewMode>,
    /// The views to go forward to again, the nearest last.
    pub forwards: Vec<ViewMode>,
}

/// What a `ViewHistory` holds.
pub struct ViewHistoryView {
    pub backwards: Seq<ViewModeView>,
    pub forwards: Seq<ViewModeView>,
}

impl View for ViewHistory {
    type V = ViewHistoryView;

    open spec fn view(&self) -> ViewHistoryView {
        ViewHistoryView {
            backwards: mode_views(self.backwards@),
            forwards: mode_views(self.forwards@),
        }
    }
}

impl Default for ViewHistory {
    fn default() -> (history: Self)
        ensures
            history@ == (ViewHistoryView { backwards: Seq::empty(), forwards: Seq::empty() }),
    {
        let history = ViewHistory { backwards: Vec::new(), forwards: Vec::new() };
        assert(history@.backwards =~= Seq::empty());
        assert(history@.forwards =~= Seq::empty());
        history
    }
}

impl ViewHistory {
    /// Goes back: hands out the view that was left last, and keeps `current`
    /// to go forward to. Where there is nothing to go back to, nothing
    /// changes.
    pub fn previous(&mut self, current: ViewMode) -> (view: Option<ViewMode>)
        ensures
            old(self)@.backwards.len() == 0 ==> view is None && final(self)@ == old(self)@,
            old(self)@.backwards.len() > 0 ==> view is Some && view.unwrap()@ == old(
                self,
            )@.backwards.last() && final(self)@ == (ViewHistoryView {
                backwards: old(self)@.backwards.drop_last(),
                forwards: old(self)@.forwards.push(current@),
            }),
    {
        match self.backwards.pop() {
            Some(x) => {
                self.forwards.push(current);
                assert(final(self)@.backwards =~= old(self)@.backwards.drop_last());
                assert(final(self)@.forwards =~= old(self)@.forwards.push(current@));
                Some(x)
            },
            None => None,
        }
    }

    /// Goes forward: hands out the view that going back left last, and keeps
    /// `old_view` to go back to. Where there is nothing to go forward to,
    /// nothing changes.
    pub fn next(&mut self, old_view: ViewMode) -> (view: Option<ViewMode>)
        ensures
            old(self)@.forwards.len() == 0 ==> view is None && final(self)@ == old(self)@,
            old(self)@.forwards.len() > 0 ==> view is Some && view.unwrap()@ == old(
                self,
            )@.forwards.last() && final(self)@ == (ViewHistoryView {
                backwards: old(self)@.backwards.push(old_view@),
                forwards: old(self)@.forwards.drop_last(),
            }),
    {
        match self.forwards.pop() {
            Some(x) => {
                self.backwards.push(old_view);
                assert(final(self)@.forwards =~= old(self)@.forwards.drop_last());
                assert(final(self)@.backwards =~= old(self)@.backwards.push(old_view@));
                Some(x)
            },
            None => None,
        }
    }

    /// Enters a new view: keeps `old_view` to go back to, and forgets what
    /// there was to go forward to.
    pub fn proceed(&mut self, old_view: ViewMode)
        ensures
            final(self)@ == (ViewHistoryView {
                backwards: old(self)@.backwards.push(old_view@),
                forwards: Seq::empty(),
            }),
    {
        self.backwards.push(old_view);
        self.forwards.clear();
        assert(final(self)@.backwards =~= old(self)@.backwards.push(old_view@));
        assert(final(self)@.forwards =~= Seq::empty());
    }
}

/// The state of the window.
#[derive(Debug)]
pub struct UiState {
    pub view_mode: ViewMode,
    pub window_width: u32,
    pub window_height: u32,
    pub history: ViewHistory,
}

/// The state of the search.
#[derive(Debug)]
pub struct SearchState {
    /// The text in the search bar.
    pub input: String,
    /// The query that is shown.
    pub query: String,
    /// The posts whose thumbnails are still to be fetched, the next one
    /// first.
    pub thumbnail_queue: VecDeque<u32>,
}

/// The program without a window of its own: a name for it.
#[derive(Debug)]
pub struct MSGui;

impl MSGui {
    /// The title of the program.
    pub fn title(&self) -> (title: String)
        ensures
            title@ == "MSG"@,
    {
        String::from_str("MSG")
    }
}

/// What the window's title says of `view`: the query of a grid, the number of
/// a post, or the name of the page.
pub open spec fn view_title(view: ViewModeView) -> Seq<char> {
    match view {
        ViewModeView::Grid(query) => query,
        ViewModeView::Followed => "Followed tags"@,
        ViewModeView::Settings => "Settings"@,
        ViewModeView::Detail(id) => "Post #"@ + decimal(id as nat),
    }
}

/// The title of the window: what it shows, then the program's name and
/// version.
pub fn title(view_mode: &ViewMode, name: &str, version: &str) -> (title: String)
    ensures
        title@ == view_title(view_mode@) + " | "@ + name@ + " v"@ + version@,
{
    let mut title = match view_mode {
        ViewMode::Grid(query) => query.clone(),
        ViewMode::Followed => String::from_str("Followed tags"),
        ViewMode::Settings => String::from_str("Settings"),
        ViewMode::Detail(id) => {
            let mut text = String::from_str("Post #");
            push_decimal(&mut text, *id as u64);
            text
        },
    };
    title.append(" | ");
    title.append(name);
    title.append(" v");
    title.append(version);
    title
}

} // verus!
