//! What can happen to the program.

use crate::config::MsgTheme;
use crate::model::Vote;
use crate::state::ViewMode;
use vstd::prelude::*;

verus! {

/// What can happen to a post.
#[derive(Clone, Debug)]
pub enum PostMessage {
    /// The post is to be shown.
    View(u32),
    /// A vote is to be cast on the post, or taken back.
    Vote(u32, Option<Vote>),
    /// The board has answered a vote: this is the vote that now stands.
    VoteResult(u32, Option<Vote>),
    /// The post is to be made a favorite, or no longer one.
    Favorite(u32),
    /// The board has answered: the post is now a favorite, or is not.
    FavoriteResult(u32, bool),
}

/// What can happen to the view.
#[derive(Clone, Debug)]
pub enum ViewMessage {
    /// A view is to be shown, and the one that is left remembered.
    Show(ViewMode),
    /// A view is to be shown without remembering the one that is left.
    ShowWithoutProceed(ViewMode),
    /// The window has a new width and height.
    WindowResized(u32, u32),
    /// The back button of the mouse.
    Back,
    /// The forward button of the mouse.
    Forward,
    /// The theme is to be changed.
    UpdateTheme(MsgTheme),
}

} // verus!
