//! Going from view to view.

use crate::model::Post;
use crate::state::SearchState;
use crate::state::UiState;
use crate::state::ViewHistoryView;
use crate::state::ViewMode;
use crate::state::ViewModeView;
use crate::text::trim;
use crate::text::trimmed;
use vstd::prelude::*;
use vstd::string::*;

verus! {

/// What is to happen after the view was changed.
#[derive(Debug)]
pub enum Step {
    /// Nothing more.
    Nothing,
    /// The post is to be opened.
    ViewPost(u32),
    /// The posts of the query are to be fetched.
    LoadPosts(String),
    /// The settings are to be saved; that leaves the settings in turn.
    SaveSettings,
    /// The view is to be shown, without remembering the one that is left.
    ShowWithoutProceed(ViewMode),
}

/// What a `Step` holds.
pub enum StepView {
    Nothing,
    ViewPost(u32),
    LoadPosts(Seq<char>),
    SaveSettings,
    ShowWithoutProceed(ViewModeView),
}

impl View for Step {
    type V = StepView;

    open spec fn view(&self) -> StepView {
        match self {
            Step::Nothing => StepView::Nothing,
            Step::ViewPost(id) => StepView::ViewPost(*id),
            Step::LoadPosts(query) => StepView::LoadPosts(query@),
            Step::SaveSettings => StepView::SaveSettings,
            Step::ShowWithoutProceed(mode) => StepView::ShowWithoutProceed(mode@),
        }
    }
}

/// What a change of view comes to: what is to happen next, and whether the
/// video that plays is to be closed.
#[derive(Debug)]
pub struct Turn {
    pub step: Step,
    pub close_player: bool,
}

/// What of the program's state the way from view to view depends on.
pub struct Screen {
    pub view_mode: ViewModeView,
    pub history: ViewHistoryView,
    pub input: Seq<char>,
    pub query: Seq<char>,
    pub selected: Option<u32>,
}

/// What a `Turn` holds, with the screen that it leaves.
pub struct Outcome {
    pub screen: Screen,
    pub step: StepView,
    pub close_player: bool,
}

/// The screen that `ui`, `search` and `selected` make.
pub open spec fn screen_of(ui: UiState, search: SearchState, selected: Option<u32>) -> Screen {
    Screen {
        view_mode: ui.view_mode@,
        history: ui.history@,
        input: search.input@,
        query: search.query@,
        selected,
    }
}

/// The query that is shown where there is nothing to go back to.
pub open spec fn home() -> ViewModeView {
    ViewModeView::Grid("order:id_desc"@)
}

/// What showing `mode` on `screen` comes to, once the view that is left was
/// remembered or not.
///
/// A post is opened, and opening it changes the screen. A grid takes its
/// query to the search bar and has its posts fetched. Any other view is
/// shown as it is. Leaving for a view that is no post forgets the post
/// that was selected.
pub open spec fn entered(screen: Screen, mode: ViewModeView, proceed: bool) -> Outcome {
    match mode {
        ViewModeView::Detail(id) => Outcome {
            screen,
            step: StepView::ViewPost(id),
            close_player: false,
        },
        ViewModeView::Grid(query) => Outcome {
            screen: Screen {
                view_mode: mode,
                input: query,
                query,
                selected: if proceed {
                    None
                } else {
                    screen.selected
                },
                ..screen
            },
            step: StepView::LoadPosts(query),
            close_player: proceed,
        },
        _ => Outcome {
            screen: Screen { view_mode: mode, selected: None, ..screen },
            step: StepView::Nothing,
            close_player: true,
        },
    }
}

/// `screen` after the view that it shows was remembered to go back to.
pub open spec fn proceeded(screen: Screen) -> Screen {
    Screen {
        history: ViewHistoryView {
            backwards: screen.history.backwards.push(screen.view_mode),
            forwards: Seq::empty(),
        },
        ..screen
    }
}

/// What showing `mode` on `screen` comes to: the view that is left is
/// remembered, and `mode` is entered.
pub open spec fn shown(screen: Screen, mode: ViewModeView) -> Outcome {
    entered(proceeded(screen), mode, true)
}

/// What going back on `screen` comes to.
///
/// Where there is nothing to go back to, nothing happens. Leaving the
/// settings saves them, and saving them goes back. From any other view the
/// view that was left last is shown, and the view that is left is kept to
/// go forward to; a grid that is left takes its query to the search bar.
pub open spec fn went_back(screen: Screen) -> Outcome {
    if screen.history.backwards.len() == 0 {
        Outcome { screen, step: StepView::Nothing, close_player: false }
    } else if screen.view_mode is Settings {
        Outcome { screen, step: StepView::SaveSettings, close_player: true }
    } else {
        let search = match screen.view_mode {
            ViewModeView::Grid(query) => Screen { input: query, query, ..screen },
            _ => screen,
        };
        Outcome {
            screen: Screen {
                history: ViewHistoryView {
                    backwards: screen.history.backwards.drop_last(),
                    forwards: screen.history.forwards.push(screen.view_mode),
                },
                ..search
            },
            step: StepView::ShowWithoutProceed(screen.history.backwards.last()),
            close_player: true,
        }
    }
}

/// What going forward on `screen` comes to.
///
/// Where there is nothing to go forward to, nothing happens. Otherwise the
/// view that going back left last is next, and the view that is left is
/// kept to go back to: a post is opened, a grid takes its query to the
/// search bar and is shown, any other view is shown.
pub open spec fn went_forward(screen: Screen) -> Outcome {
    if screen.history.forwards.len() == 0 {
        Outcome { screen, step: StepView::Nothing, close_player: false }
    } else {
        let next = screen.history.forwards.last();
        let moved = Screen {
            history: ViewHistoryView {
                backwards: screen.history.backwards.push(screen.view_mode),
                forwards: screen.history.forwards.drop_last(),
            },
            ..screen
        };
        match next {
            ViewModeView::Detail(id) => Outcome {
                screen: moved,
                step: StepView::ViewPost(id),
                close_player: false,
            },
            ViewModeView::Grid(query) => Outcome {
                screen: Screen { input: query, query, ..moved },
                step: StepView::ShowWithoutProceed(next),
                close_player: false,
            },
            _ => Outcome {
                screen: moved,
                step: StepView::ShowWithoutProceed(next),
                close_player: false,
            },
        }
    }
}

/// Enters `mode`.
fn enter(
    ui: &mut UiState,
    search: &mut SearchState,
    selected: &mut Option<u32>,
    mode: ViewMode,
    proceed: bool,
) -> (turn: Turn)
    ensures
        screen_of(*final(ui), *final(search), *final(selected)) == entered(
            screen_of(*old(ui), *old(search), *old(selected)),
            mode@,
            proceed,
        ).screen,
        turn.step@ == entered(
            screen_of(*old(ui), *old(search), *old(selected)),
            mode@,
            proceed,
        ).step,
        turn.close_player == entered(
            screen_of(*old(ui), *old(search), *old(selected)),
            mode@,
            proceed,
        ).close_player,
        final(ui).window_width == old(ui).window_width,
        final(ui).window_height == old(ui).window_height,
        final(search).thumbnail_queue == old(search).thumbnail_queue,
{
    match mode {
        ViewMode::Detail(id) => Turn { step: Step::ViewPost(id), close_player: false },
        ViewMode::Grid(query) => {
            search.query = query.clone();
            search.input = query.clone();
            if proceed {
                *selected = None;
            }
            ui.view_mode = ViewMode::Grid(query.clone());
            Turn { step: Step::LoadPosts(query), close_player: proceed }
        },
        other => {
            *selected = None;
            ui.view_mode = other;
            Turn { step: Step::Nothing, close_player: true }
        },
    }
}

/// Shows `mode`, and remembers the view that is left.
pub fn show(
    ui: &mut UiState,
    search: &mut SearchState,
    selected: &mut Option<u32>,
    mode: ViewMode,
) -> (turn: Turn)
    ensures
        screen_of(*final(ui), *final(search), *final(selected)) == shown(
            screen_of(*old(ui), *old(search), *old(selected)),
            mode@,
        ).screen,
        turn.step@ == shown(screen_of(*old(ui), *old(search), *old(selected)), mode@).step,
        turn.close_player == shown(
            screen_of(*old(ui), *old(search), *old(selected)),
            mode@,
        ).close_player,
        final(ui).window_width == old(ui).window_width,
        final(ui).window_height == old(ui).window_height,
        final(search).thumbnail_queue == old(search).thumbnail_queue,
{
    let left = ui.view_mode.clone();
    ui.history.proceed(left);
    enter(ui, search, selected, mode, true)
}

/// Shows `mode` without remembering the view that is left.
pub fn show_without_proceed(
    ui: &mut UiState,
    search: &mut SearchState,
    selected: &mut Option<u32>,
    mode: ViewMode,
) -> (turn: Turn)
    ensures
        screen_of(*final(ui), *final(search), *final(selected)) == entered(
            screen_of(*old(ui), *old(search), *old(selected)),
            mode@,
            false,
        ).screen,
        turn.step@ == entered(
            screen_of(*old(ui), *old(search), *old(selected)),
            mode@,
            false,
        ).step,
        turn.close_player == entered(
            screen_of(*old(ui), *old(search), *old(selected)),
            mode@,
            false,
        ).close_player,
        final(ui).window_width == old(ui).window_width,
        final(ui).window_height == old(ui).window_height,
        final(search).thumbnail_queue == old(search).thumbnail_queue,
{
    enter(ui, search, selected, mode, false)
}

/// The view to show where there is nothing to go back to.
pub fn home_view() -> (mode: ViewMode)
    ensures
        mode@ == home(),
{
    ViewMode::Grid(String::from_str("order:id_desc"))
}

/// Goes back.
pub fn back(ui: &mut UiState, search: &mut SearchState) -> (turn: Turn)
    ensures
        screen_of(*final(ui), *final(search), None) == went_back(
            screen_of(*old(ui), *old(search), None),
        ).screen,
        turn.step@ == went_back(screen_of(*old(ui), *old(search), None)).step,
        turn.close_player == went_back(screen_of(*old(ui), *old(search), None)).close_player,
        final(ui).window_width == old(ui).window_width,
        final(ui).window_height == old(ui).window_height,
        final(search).thumbnail_queue == old(search).thumbnail_queue,
{
    if ui.history.backwards.len() == 0 {
        return Turn { step: Step::Nothing, close_player: false };
    }
    match &ui.view_mode {
        ViewMode::Settings => {
            return Turn { step: Step::SaveSettings, close_player: true };
        },
        ViewMode::Grid(query) => {
            search.query = query.clone();
            search.input = query.clone();
        },
        _ => {},
    }
    let left = ui.view_mode.clone();
    let step = match ui.history.previous(left) {
        Some(mode) => Step::ShowWithoutProceed(mode),
        None => Step::ShowWithoutProceed(home_view()),
    };
    Turn { step, close_player: true }
}

/// Goes forward.
pub fn forward(ui: &mut UiState, search: &mut SearchState) -> (turn: Turn)
    ensures
        screen_of(*final(ui), *final(search), None) == went_forward(
            screen_of(*old(ui), *old(search), None),
        ).screen,
        turn.step@ == went_forward(screen_of(*old(ui), *old(search), None)).step,
        turn.close_player == went_forward(screen_of(*old(ui), *old(search), None)).close_player,
        final(ui).window_width == old(ui).window_width,
        final(ui).window_height == old(ui).window_height,
        final(search).thumbnail_queue == old(search).thumbnail_queue,
{
    let left = ui.view_mode.clone();
    match ui.history.next(left) {
        None => Turn { step: Step::Nothing, close_player: false },
        Some(next) => {
            match &next {
                ViewMode::Detail(id) => {
                    return Turn { step: Step::ViewPost(*id), close_player: false };
                },
                ViewMode::Grid(query) => {
                    search.query = query.clone();
                    search.input = query.clone();
                },
                _ => {},
            }
            Turn { step: Step::ShowWithoutProceed(next), close_player: false }
        },
    }
}

/// The view to show once the settings were saved: the one that was left for
/// them, or the first view where none was.
pub fn leave_settings(ui: &mut UiState) -> (mode: ViewMode)
    ensures
        old(ui).history@.backwards.len() == 0 ==> mode@ == home() && final(ui).history@ == old(
            ui,
        ).history@,
        old(ui).history@.backwards.len() > 0 ==> mode@ == old(ui).history@.backwards.last()
            && final(ui).history@ == (ViewHistoryView {
            backwards: old(ui).history@.backwards.drop_last(),
            forwards: old(ui).history@.forwards.push(old(ui).view_mode@),
        }),
        final(ui).view_mode == old(ui).view_mode,
        final(ui).window_width == old(ui).window_width,
        final(ui).window_height == old(ui).window_height,
{
    let left = ui.view_mode.clone();
    match ui.history.previous(left) {
        Some(mode) => mode,
        None => home_view(),
    }
}

/// The window has a new size.
pub fn window_resized(ui: &mut UiState, width: u32, height: u32)
    ensures
        final(ui).window_width == width,
        final(ui).window_height == height,
        final(ui).view_mode == old(ui).view_mode,
        final(ui).history == old(ui).history,
{
    ui.window_width = width;
    ui.window_height = height;
}

/// A tag is added to the query: it comes after a blank, and the search bar
/// shows the query. The query to show is handed back.
pub fn add_tag_to_search(search: &mut SearchState, tag: &str) -> (query: String)
    ensures
        final(search).query@ == old(search).query@ + " "@ + tag@,
        final(search).input@ == final(search).query@,
        query@ == final(search).query@,
        final(search).thumbnail_queue == old(search).thumbnail_queue,
{
    search.query.append(" ");
    search.query.append(tag);
    search.input = search.query.clone();
    search.query.clone()
}

/// A tag is excluded from the query: it comes after a blank and a minus
/// sign, and the search bar shows the query. The query to show is handed
/// back.
pub fn negate_tag_from_search(search: &mut SearchState, tag: &str) -> (query: String)
    ensures
        final(search).query@ == old(search).query@ + " -"@ + tag@,
        final(search).input@ == final(search).query@,
        query@ == final(search).query@,
        final(search).thumbnail_queue == old(search).thumbnail_queue,
{
    search.query.append(" -");
    search.query.append(tag);
    search.input = search.query.clone();
    search.query.clone()
}

/// The search is submitted: the view that is left is remembered, and the
/// grid shows what the search bar holds, without the white space around it.
/// The query to fetch is handed back, unless it is empty.
pub fn submit(ui: &mut UiState, search: &mut SearchState) -> (query: Option<String>)
    ensures
        final(search).query@ == trim(old(search).input@),
        final(search).input == old(search).input,
        final(search).thumbnail_queue == old(search).thumbnail_queue,
        final(ui).view_mode@ == ViewModeView::Grid(trim(old(search).input@)),
        final(ui).history@ == (ViewHistoryView {
            backwards: old(ui).history@.backwards.push(old(ui).view_mode@),
            forwards: Seq::empty(),
        }),
        final(ui).window_width == old(ui).window_width,
        final(ui).window_height == old(ui).window_height,
        query.deep_view() == (if trim(old(search).input@).len() > 0 {
            Some(trim(old(search).input@))
        } else {
            None
        }),
{
    let left = ui.view_mode.clone();
    ui.history.proceed(left);
    let query = trimmed(search.input.as_str());
    search.query = query.clone();
    ui.view_mode = ViewMode::Grid(query.clone());
    if query.as_str().is_empty() {
        None
    } else {
        Some(query)
    }
}

/// The posts of `query` are about to be fetched: the grid shows the query,
/// no post is selected, and the search bar shows the query. The posts that
/// the grid shows are kept if the query is the one that was shown, and
/// dropped if it is another.
pub fn load_posts(
    ui: &mut UiState,
    search: &mut SearchState,
    selected: &mut Option<u32>,
    grid: &mut Vec<Post>,
    query: &str,
)
    ensures
        final(ui).view_mode@ == ViewModeView::Grid(query@),
        final(ui).history == old(ui).history,
        final(ui).window_width == old(ui).window_width,
        final(ui).window_height == old(ui).window_height,
        final(search).query@ == query@,
        final(search).input@ == query@,
        final(search).thumbnail_queue == old(search).thumbnail_queue,
        *final(selected) == None::<u32>,
        query@ == old(search).query@ ==> final(grid)@ == old(grid)@,
        query@ != old(search).query@ ==> final(grid)@.len() == 0,
{
    *selected = None;
    ui.view_mode = ViewMode::Grid(String::from_str(query));
    if !search.query.as_str().eq(query) {
        grid.clear();
    }
    search.query = String::from_str(query);
    search.input = String::from_str(query);
}

/// The query that finds the favorites of `username`.
pub fn favorites_query(username: &str) -> (query: String)
    ensures
        query@ == "fav:"@ + username@,
{
    let mut query = String::from_str("fav:");
    query.append(username);
    query
}

} // verus!
