//! The arena on screen: a line of information, the panels of the characters,
//! and the map.

use vstd::prelude::*;
use crate::client::state::{GameStatus, State};
use crate::client::store::Action;
use crate::client::terminal::input::{InputEvent, KeyCode};

verus! {

/// The height of the line that tells the round and the points to win.
pub const ARENA_INFO_LABEL_HEIGHT: u16 = 1;

/// The width and the height of the panel of one character.
pub const CHARACTER_PANEL_DIMENSION: (u16, u16) = (18, 3);

/// The width of the column of character panels.
pub const CHARACTER_PANEL_LIST_WIDTH: u16 = 18;

/// The longest side of a map whose widget, with everything beside it, still
/// has a width that a `u16` holds.
pub const MAX_DRAWN_MAP_SIZE: u16 = 32_756;

/// What the arena asks for when `event` arrives while the game stands at
/// `status`: to close the game, if it has finished and the user presses
/// enter, and else nothing.
pub open spec fn arena_request(status: GameStatus, event: InputEvent) -> Option<Action> {
    match event {
        InputEvent::KeyPressed(key_event) => if key_event.code == KeyCode::Enter && status
            == GameStatus::Finished {
            Some(Action::CloseGame)
        } else {
            None
        },
        InputEvent::ResizeDisplay(_, _) => None,
    }
}

/// The part of the screen that shows a round.
pub struct Arena {}

impl Arena {
    /// Takes what the terminal reports, and says what the user asks for with
    /// it.
    pub fn process_event(&mut self, state: &State, event: InputEvent) -> (action: Option<Action>)
        ensures
            action == arena_request(state.server.game.status, event),
    {
        match event {
            InputEvent::KeyPressed(key_event) => match key_event.code {
                KeyCode::Enter => {
                    if let GameStatus::Finished = state.server.game.status {
                        return Some(Action::CloseGame);
                    }
                    None
                },
                _ => None,
            },
            InputEvent::ResizeDisplay(_, _) => None,
        }
    }

    /// Looks at the state of the client. The arena keeps nothing of it.
    pub fn update(&mut self, _state: &State) {
    }
}

/// The map on screen: a frame around cells that are two columns wide.
pub struct MapWidget<'a> {
    state: &'a State,
}

impl<'a> MapWidget<'a> {
    /// The width and the height of the map of side `map_size` on screen.
    pub open spec fn spec_dimension(map_size: u16) -> (u16, u16) {
        ((2 + map_size * 2 + 1) as u16, (2 + map_size) as u16)
    }

    /// The widget that draws the map of `state`.
    pub fn new(state: &'a State) -> (widget: MapWidget<'a>)
        ensures
            widget.state() == state,
    {
        MapWidget { state }
    }

    /// The state that the widget shows.
    pub closed spec fn state(&self) -> &'a State {
        self.state
    }

    /// The width and the height of the map of side `map_size` on screen: two
    /// columns for each cell and three for the frame, and a row for each
    /// cell and two for the frame.
    pub fn dimension(map_size: u16) -> (dimension: (u16, u16))
        requires
            map_size <= MAX_DRAWN_MAP_SIZE,
        ensures
            dimension == Self::spec_dimension(map_size),
            dimension.0 == 2 * map_size + 3,
            dimension.1 == map_size + 2,
    {
        (2 + map_size * 2 + 1, 2 + map_size)
    }
}

/// The whole view of a round.
pub struct ArenaWidget<'a> {
    state: &'a State,
    arena: &'a Arena,
}

impl<'a> ArenaWidget<'a> {
    /// The widget that draws `arena` for `state`.
    pub fn new(state: &'a State, arena: &'a Arena) -> (widget: ArenaWidget<'a>)
        ensures
            widget.state() == state,
    {
        ArenaWidget { state, arena }
    }

    /// The state that the widget shows.
    pub closed spec fn state(&self) -> &'a State {
        self.state
    }

    /// The state that the widget shows.
    pub fn shown(&self) -> (state: &'a State)
        ensures
            state == self.state(),
    {
        self.state
    }

    /// Whether the view of `state` can be measured: the server has told the
    /// size of the map, and it is one that can be drawn.
    pub open spec fn measurable(state: &State) -> bool {
        state.server.game_info matches Some(info) && info.map_size <= MAX_DRAWN_MAP_SIZE
    }

    /// The width and the height of the view for the game of `state`: the
    /// panels stand beside the map, a column apart, and the line of
    /// information above both.
    pub fn dimension(state: &State) -> (dimension: (u16, u16))
        requires
            Self::measurable(state),
        ensures
            dimension.0 == CHARACTER_PANEL_LIST_WIDTH + 1 + (2
                * state.server.game_info.unwrap().map_size + 3),
            dimension.1 == ARENA_INFO_LABEL_HEIGHT + (state.server.game_info.unwrap().map_size + 2),
    {
        let map_size = state.server.game_info().map_size as u16;
        let map_dim = MapWidget::dimension(map_size);
        (CHARACTER_PANEL_LIST_WIDTH + 1 + map_dim.0, ARENA_INFO_LABEL_HEIGHT + map_dim.1)
    }
}

} // verus!
