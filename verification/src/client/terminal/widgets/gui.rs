//! The whole screen: the menu, or the arena once a round is played.

use vstd::prelude::*;
use crate::client::configuration::Config;
use crate::client::state::State;
use crate::client::store::Action;
use crate::client::terminal::input::{InputEvent, KeyCode};
use crate::client::terminal::widgets::arena::{arena_request, Arena, ArenaWidget};
use crate::client::terminal::widgets::menu::{Menu, MenuView, MENU_DIMENSION};
use crate::client::terminal::widgets::util::{centered, centered_area, Area};

verus! {

/// What the screen shows.
#[derive(Clone, Copy, Debug, PartialEq, Eq, Structural)]
pub enum Screen {
    Menu,
    Arena,
}

/// What the screen shows for `state`: the arena while the server reports
/// one, and else the menu.
pub open spec fn screen_of(state: &State) -> Screen {
    if state.server.game.arena.is_some() {
        Screen::Arena
    } else {
        Screen::Menu
    }
}

/// Whether `event` is the key with which the user closes the client:
/// control and `c`.
pub open spec fn is_close_request(event: InputEvent) -> bool {
    event matches InputEvent::KeyPressed(key_event) && key_event.code == KeyCode::Char('c')
        && key_event.modifiers.control
}

/// The screen of the client.
pub struct Gui {
    menu: Menu,
    arena: Arena,
}

impl Gui {
    /// The menu of the screen.
    pub closed spec fn menu_view(&self) -> MenuView {
        self.menu@
    }

    /// A screen for a client with the settings `config`.
    pub fn new(config: &Config) -> (gui: Gui)
        ensures
            gui.menu_view() == Menu::new_view(config),
    {
        Gui { menu: Menu::new(config), arena: Arena {  } }
    }

    /// What the screen shows for `state`.
    pub fn view(&self, state: &State) -> (view: Screen)
        ensures
            view == screen_of(state),
    {
        match state.server.game.arena {
            Some(_) => Screen::Arena,
            None => Screen::Menu,
        }
    }

    /// Takes what the terminal reports, and says what the user asks for with
    /// it. Control and `c` asks to close the client, whatever is on screen.
    /// Everything else goes to the part that is on screen.
    pub fn process_event(&mut self, state: &State, event: InputEvent) -> (action: Option<Action>)
        ensures
            is_close_request(event) ==> action == Some(Action::Close) && final(self).menu_view()
                == old(self).menu_view(),
            !is_close_request(event) && screen_of(state) == Screen::Menu ==> action.is_none()
                && final(self).menu_view() == old(self).menu_view().after_event(event),
            !is_close_request(event) && screen_of(state) == Screen::Arena ==> action == arena_request(
                state.server.game.status,
                event,
            ) && final(self).menu_view() == old(self).menu_view(),
    {
        match event {
            InputEvent::KeyPressed(key_event) => match key_event.code {
                KeyCode::Char(character) => {
                    if character == 'c' && key_event.modifiers.control {
                        return Some(Action::Close);
                    }
                },
                _ => (),
            },
            InputEvent::ResizeDisplay(_, _) => {},
        }
        match self.view(state) {
            Screen::Menu => self.menu.process_event(state, event),
            Screen::Arena => self.arena.process_event(state, event),
        }
    }

    /// Lets the part that is on screen look at the state of the client.
    pub fn update(&mut self, state: &State)
        ensures
            screen_of(state) == Screen::Menu ==> final(self).menu_view() == old(self).menu_view().updated(
                state.server.connection_status
                    == crate::client::server_proxy::ConnectionStatus::Connected,
                state.user.login_status matches Some(crate::message::LoginStatus::Logged(_, _)),
            ),
            screen_of(state) == Screen::Arena ==> final(self).menu_view() == old(self).menu_view(),
    {
        match self.view(state) {
            Screen::Menu => self.menu.update(state),
            Screen::Arena => self.arena.update(state),
        }
    }

    /// The menu, for the front end to draw.
    pub fn menu(&self) -> (menu: &Menu)
        ensures
            menu@ == self.menu_view(),
    {
        &self.menu
    }

    /// The arena, for the front end to draw.
    pub fn arena(&self) -> (arena: &Arena) {
        &self.arena
    }
}

/// The whole screen, ready to be drawn.
pub struct GuiWidget<'a> {
    state: &'a State,
    gui: &'a Gui,
}

impl<'a> GuiWidget<'a> {
    /// The state that the widget shows.
    pub closed spec fn state(&self) -> &'a State {
        self.state
    }

    /// The screen that the widget draws.
    pub closed spec fn screen(&self) -> &'a Gui {
        self.gui
    }

    /// The widget that draws `gui` for `state`.
    pub fn new(state: &'a State, gui: &'a Gui) -> (widget: GuiWidget<'a>)
        ensures
            widget.state() == state,
            widget.screen() == gui,
    {
        GuiWidget { state, gui }
    }

    /// The state that the widget shows.
    pub fn shown(&self) -> (state: &'a State)
        ensures
            state == self.state(),
    {
        self.state
    }

    /// The screen that the widget draws.
    pub fn gui(&self) -> (gui: &'a Gui)
        ensures
            gui == self.screen(),
    {
        self.gui
    }

    /// Where on a terminal of `area` the screen is drawn: what is on screen
    /// is centered, in its own dimension.
    pub fn frame(&self, area: Area) -> (frame: Area)
        requires
            screen_of(self.state()) == Screen::Arena ==> ArenaWidget::measurable(self.state()),
        ensures
            screen_of(self.state()) == Screen::Menu ==> frame == centered(area, MENU_DIMENSION),
            screen_of(self.state()) == Screen::Arena ==> frame == centered(
                area,
                (
                    (22 + 2 * self.state().server.game_info.unwrap().map_size) as u16,
                    (3 + self.state().server.game_info.unwrap().map_size) as u16,
                ),
            ),
    {
        match self.gui.view(self.state) {
            Screen::Menu => centered_area(area, MENU_DIMENSION),
            Screen::Arena => {
                let dimension = ArenaWidget::dimension(self.state);
                centered_area(area, dimension)
            },
        }
    }
}

} // verus!
