//! The menu: where the user names a server and a character.

use vstd::prelude::*;
use crate::client::configuration::Config;
use crate::client::state::State;
use crate::client::store::Action;
use crate::client::terminal::input::InputEvent;
use crate::client::terminal::widgets::util::{
    InputCapitalLetter, InputCapitalLetterView, InputText, InputTextView,
};

verus! {

/// What a menu is: its two fields.
pub struct MenuView {
    pub server_addr_input: InputTextView,
    pub character_input: InputCapitalLetterView,
}

impl MenuView {
    /// The menu after `event`: a key goes to both fields, and the one that
    /// has the focus takes it. Anything else changes nothing.
    pub open spec fn after_event(self, event: InputEvent) -> MenuView {
        match event {
            InputEvent::KeyPressed(key_event) => MenuView {
                server_addr_input: self.server_addr_input.after_key(key_event.code),
                character_input: self.character_input.after_key(key_event.code),
            },
            InputEvent::ResizeDisplay(_, _) => self,
        }
    }

    /// The menu once it has looked at the state of the client. The field for
    /// the server has the focus as long as there is no connection. After
    /// that the field for the character has it, until the user is logged in.
    pub open spec fn updated(self, connected: bool, logged: bool) -> MenuView {
        MenuView {
            server_addr_input: self.server_addr_input.focused(!connected),
            character_input: InputCapitalLetterView {
                focus: connected && !logged,
                ..self.character_input
            },
        }
    }
}

/// The menu of the client.
pub struct Menu {
    server_addr_input: InputText,
    character_input: InputCapitalLetter,
}

impl View for Menu {
    type V = MenuView;

    closed spec fn view(&self) -> MenuView {
        MenuView {
            server_addr_input: self.server_addr_input@,
            character_input: self.character_input@,
        }
    }
}

/// The width and the height of the menu on screen.
pub const MENU_DIMENSION: (u16, u16) = (40, 6);

impl Menu {
    /// The menu that [`Menu::new`] makes.
    pub open spec fn new_view(config: &Config) -> MenuView {
        MenuView {
            server_addr_input: InputTextView { content: Seq::empty(), cursor: None },
            character_input: InputCapitalLetterView { content: config.character, focus: false },
        }
    }

    /// A menu that shows the character of the settings, and an empty field
    /// for the server. Neither field has the focus yet.
    pub fn new(config: &Config) -> (menu: Menu)
        ensures
            menu@ == Self::new_view(config),
    {
        Menu {
            server_addr_input: InputText::new(None),
            character_input: InputCapitalLetter::new(config.character),
        }
    }

    /// Takes what the terminal reports. The menu asks for nothing itself.
    pub fn process_event(&mut self, state: &State, event: InputEvent) -> (action: Option<Action>)
        ensures
            action.is_none(),
            final(self)@ == old(self)@.after_event(event),
    {
        match event {
            InputEvent::KeyPressed(key_event) => {
                self.server_addr_input.key_pressed(key_event);
                self.character_input.key_pressed(key_event);
            },
            InputEvent::ResizeDisplay(_, _) => {},
        }
        None
    }

    /// Moves the focus to the field that the user has to fill in next.
    pub fn update(&mut self, state: &State)
        ensures
            final(self)@ == old(self)@.updated(
                state.server.connection_status
                    == crate::client::server_proxy::ConnectionStatus::Connected,
                state.user.login_status matches Some(crate::message::LoginStatus::Logged(_, _)),
            ),
    {
        let connected = state.server.is_connected();
        let logged = state.user.is_logged();
        self.server_addr_input.focus(!connected);
        self.character_input.focus(connected && !logged);
    }

    /// The field for the address of the server.
    pub fn server_addr_input(&self) -> (input: &InputText)
        ensures
            input@ == self@.server_addr_input,
    {
        &self.server_addr_input
    }

    /// The field for the character.
    pub fn character_input(&self) -> (input: &InputCapitalLetter)
        ensures
            input@ == self@.character_input,
    {
        &self.character_input
    }
}

} // verus!
