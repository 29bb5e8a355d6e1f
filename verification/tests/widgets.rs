use std::collections::HashMap;

use asciiarena::client::configuration::{Config, HostAddress, ServerAddress};
use asciiarena::client::server_proxy::ConnectionStatus;
use asciiarena::client::state::{
    Arena as ArenaState, GameStatus, Server, State, StaticGameInfo, UserPlayer,
};
use asciiarena::client::store::Action;
use asciiarena::client::terminal::input::{InputEvent, KeyCode, KeyEvent, KeyModifiers};
use asciiarena::client::terminal::widgets::arena::{
    Arena, ArenaWidget, MapWidget, ARENA_INFO_LABEL_HEIGHT, CHARACTER_PANEL_DIMENSION,
    CHARACTER_PANEL_LIST_WIDTH, MAX_DRAWN_MAP_SIZE,
};
use asciiarena::client::terminal::widgets::gui::{Gui, GuiWidget, Screen};
use asciiarena::client::terminal::widgets::menu::{Menu, MENU_DIMENSION};
use asciiarena::client::terminal::widgets::util::{
    centered_area, to_capital, Area, InputCapitalLetter, InputText,
};
use asciiarena::direction::Direction;
use asciiarena::message::{LoggedKind, LoginStatus};

fn key(code: KeyCode) -> KeyEvent {
    KeyEvent::plain(code)
}

fn typed(input: &mut InputText, text: &str) {
    for character in text.chars() {
        input.key_pressed(key(KeyCode::Char(character)));
    }
}

fn config() -> Config {
    Config { character: Some('Q'), server_addr: None }
}

fn with_arena(state: &mut State, map_size: usize) {
    state.server.game_info = Some(StaticGameInfo { players_number: 2, map_size, winner_points: 10 });
    state.server.game.arena = Some(ArenaState {
        user_player: UserPlayer { player_id: 0, direction: Direction::Down },
        entities: HashMap::new(),
        spells: HashMap::new(),
        size: map_size,
        ground: Vec::new(),
    });
}

#[test]
fn text_field_starts_without_focus() {
    let input = InputText::new(None);
    assert_eq!(input.content(), "");
    assert!(!input.has_focus());
    assert_eq!(input.cursor_position(), None);
    let filled = InputText::new(Some(String::from("héllo")));
    assert_eq!(filled.content(), "héllo");
    assert_eq!(filled.cursor_position(), None);
}

#[test]
fn text_field_ignores_keys_without_focus() {
    let mut input = InputText::new(Some(String::from("abc")));
    typed(&mut input, "xyz");
    input.key_pressed(key(KeyCode::Backspace));
    input.key_pressed(key(KeyCode::Delete));
    input.key_pressed(key(KeyCode::End));
    assert_eq!(input.content(), "abc");
    assert_eq!(input.cursor_position(), None);
}

#[test]
fn focus_puts_the_cursor_before_the_text() {
    let mut input = InputText::new(Some(String::from("abc")));
    input.focus(true);
    assert!(input.has_focus());
    assert_eq!(input.cursor_position(), Some(0));
    input.key_pressed(key(KeyCode::Right));
    input.focus(true);
    assert_eq!(input.cursor_position(), Some(1));
    input.focus(false);
    assert!(!input.has_focus());
    assert_eq!(input.cursor_position(), None);
    input.focus(true);
    assert_eq!(input.cursor_position(), Some(0));
}

#[test]
fn characters_go_in_at_the_cursor() {
    let mut input = InputText::new(None);
    input.focus(true);
    typed(&mut input, "ac");
    assert_eq!(input.content(), "ac");
    assert_eq!(input.cursor_position(), Some(2));
    input.key_pressed(key(KeyCode::Left));
    typed(&mut input, "b");
    assert_eq!(input.content(), "abc");
    assert_eq!(input.cursor_position(), Some(2));
    input.key_pressed(key(KeyCode::Home));
    typed(&mut input, ">");
    assert_eq!(input.content(), ">abc");
    assert_eq!(input.cursor_position(), Some(1));
}

#[test]
fn delete_and_backspace_take_one_character() {
    let mut input = InputText::new(Some(String::from("abcd")));
    input.focus(true);
    input.key_pressed(key(KeyCode::Backspace));
    assert_eq!(input.content(), "abcd");
    assert_eq!(input.cursor_position(), Some(0));
    input.key_pressed(key(KeyCode::Delete));
    assert_eq!(input.content(), "bcd");
    assert_eq!(input.cursor_position(), Some(0));
    input.key_pressed(key(KeyCode::End));
    assert_eq!(input.cursor_position(), Some(3));
    input.key_pressed(key(KeyCode::Delete));
    assert_eq!(input.content(), "bcd");
    input.key_pressed(key(KeyCode::Backspace));
    assert_eq!(input.content(), "bc");
    assert_eq!(input.cursor_position(), Some(2));
    input.key_pressed(key(KeyCode::Left));
    input.key_pressed(key(KeyCode::Backspace));
    assert_eq!(input.content(), "c");
    assert_eq!(input.cursor_position(), Some(0));
}

#[test]
fn the_cursor_stops_at_the_ends() {
    let mut input = InputText::new(Some(String::from("ab")));
    input.focus(true);
    input.key_pressed(key(KeyCode::Left));
    assert_eq!(input.cursor_position(), Some(0));
    input.key_pressed(key(KeyCode::Right));
    input.key_pressed(key(KeyCode::Right));
    input.key_pressed(key(KeyCode::Right));
    assert_eq!(input.cursor_position(), Some(2));
    input.key_pressed(key(KeyCode::Home));
    assert_eq!(input.cursor_position(), Some(0));
    input.key_pressed(key(KeyCode::End));
    assert_eq!(input.cursor_position(), Some(2));
    input.key_pressed(key(KeyCode::Enter));
    input.key_pressed(key(KeyCode::F(3)));
    input.key_pressed(key(KeyCode::Other));
    assert_eq!(input.content(), "ab");
    assert_eq!(input.cursor_position(), Some(2));
}

#[test]
fn the_cursor_counts_characters_not_bytes() {
    let mut input = InputText::new(None);
    input.focus(true);
    typed(&mut input, "ñandú");
    assert_eq!(input.content(), "ñandú");
    assert_eq!(input.cursor_position(), Some(5));
    input.key_pressed(key(KeyCode::Home));
    input.key_pressed(key(KeyCode::Delete));
    assert_eq!(input.content(), "andú");
    input.key_pressed(key(KeyCode::End));
    input.key_pressed(key(KeyCode::Backspace));
    assert_eq!(input.content(), "and");
    typed(&mut input, "é");
    input.key_pressed(key(KeyCode::Left));
    typed(&mut input, "!");
    assert_eq!(input.content(), "and!é");
    assert_eq!(input.cursor_position(), Some(4));
}

#[test]
fn letter_field_takes_letters_as_capitals() {
    let mut input = InputCapitalLetter::new(None);
    assert_eq!(input.content(), None);
    assert!(!input.has_focus());
    input.key_pressed(key(KeyCode::Char('a')));
    assert_eq!(input.content(), None);
    input.focus(true);
    assert!(input.has_focus());
    input.key_pressed(key(KeyCode::Char('a')));
    assert_eq!(input.content(), Some('A'));
    input.key_pressed(key(KeyCode::Char('Z')));
    assert_eq!(input.content(), Some('Z'));
    input.key_pressed(key(KeyCode::Char('z')));
    assert_eq!(input.content(), Some('Z'));
    input.key_pressed(key(KeyCode::Char('7')));
    input.key_pressed(key(KeyCode::Char('é')));
    input.key_pressed(key(KeyCode::Char('[')));
    input.key_pressed(key(KeyCode::Char('`')));
    input.key_pressed(key(KeyCode::Char('{')));
    input.key_pressed(key(KeyCode::Char('@')));
    input.key_pressed(key(KeyCode::Enter));
    assert_eq!(input.content(), Some('Z'));
}

#[test]
fn letter_field_is_emptied_by_delete_and_backspace() {
    let mut input = InputCapitalLetter::new(Some('K'));
    assert_eq!(input.content(), Some('K'));
    input.key_pressed(key(KeyCode::Delete));
    assert_eq!(input.content(), Some('K'));
    input.focus(true);
    input.key_pressed(key(KeyCode::Delete));
    assert_eq!(input.content(), None);
    input.key_pressed(key(KeyCode::Char('m')));
    input.key_pressed(key(KeyCode::Backspace));
    assert_eq!(input.content(), None);
    input.key_pressed(key(KeyCode::Char('m')));
    input.focus(false);
    input.key_pressed(key(KeyCode::Backspace));
    assert_eq!(input.content(), Some('M'));
}

#[test]
fn capitals_of_all_letters() {
    for (lower, upper) in ('a'..='z').zip('A'..='Z') {
        assert_eq!(to_capital(lower), upper);
        assert_eq!(to_capital(upper), upper);
        assert_eq!(to_capital(lower), lower.to_ascii_uppercase());
    }
    assert_eq!(to_capital('1'), '1');
    assert_eq!(to_capital('ß'), 'ß');
    assert_eq!(to_capital('ñ'), 'ñ');
}

#[test]
fn centered_area_leaves_half_the_room_before() {
    let base = Area { x: 7, y: 9, width: 80, height: 24 };
    assert_eq!(centered_area(base, (40, 6)), Area { x: 20, y: 9, width: 40, height: 6 });
    assert_eq!(centered_area(base, (41, 7)), Area { x: 19, y: 8, width: 41, height: 7 });
    assert_eq!(centered_area(base, (80, 24)), Area { x: 0, y: 0, width: 80, height: 24 });
    assert_eq!(centered_area(base, (79, 23)), Area { x: 0, y: 0, width: 79, height: 23 });
}

#[test]
fn centered_area_cuts_what_does_not_fit() {
    let base = Area { x: 0, y: 0, width: 30, height: 10 };
    assert_eq!(centered_area(base, (40, 6)), Area { x: 0, y: 2, width: 30, height: 6 });
    assert_eq!(centered_area(base, (20, 60)), Area { x: 5, y: 0, width: 20, height: 10 });
    assert_eq!(centered_area(base, (31, 11)), Area { x: 0, y: 0, width: 30, height: 10 });
    assert_eq!(
        centered_area(Area { x: 0, y: 0, width: 0, height: 0 }, (4, 4)),
        Area { x: 0, y: 0, width: 0, height: 0 }
    );
}

#[test]
fn centered_area_keeps_the_largest_rectangle_that_counts() {
    let base = Area { x: 0, y: 0, width: 255, height: 257 };
    assert_eq!(centered_area(base, (255, 257)), Area { x: 0, y: 0, width: 255, height: 257 });
    let wide = Area { x: 0, y: 0, width: 65_535, height: 9 };
    assert_eq!(centered_area(wide, (65_535, 1)), Area { x: 0, y: 4, width: 65_535, height: 1 });
}

#[test]
fn centered_area_is_clipped_like_a_rectangle_of_the_terminal() {
    let base = Area { x: 0, y: 0, width: 1_000, height: 1_000 };
    let area = centered_area(base, (300, 300));
    assert_eq!(area, Area { x: 350, y: 350, width: 255, height: 255 });
    let area = centered_area(base, (400, 200));
    assert_eq!(area, Area { x: 300, y: 400, width: 362, height: 181 });
}

#[test]
fn arena_closes_a_finished_game_on_enter() {
    let mut state = State::new(&config());
    let mut arena = Arena {};
    let enter = InputEvent::KeyPressed(key(KeyCode::Enter));
    assert_eq!(arena.process_event(&state, enter), None);
    state.server.game.status = GameStatus::Started;
    assert_eq!(arena.process_event(&state, enter), None);
    state.server.game.status = GameStatus::Finished;
    assert_eq!(arena.process_event(&state, enter), Some(Action::CloseGame));
    assert_eq!(arena.process_event(&state, InputEvent::KeyPressed(key(KeyCode::Esc))), None);
    assert_eq!(arena.process_event(&state, InputEvent::ResizeDisplay(80, 24)), None);
    arena.update(&state);
}

#[test]
fn widget_measures_are_what_they_say() {
    assert_eq!(ARENA_INFO_LABEL_HEIGHT, 1);
    assert_eq!(CHARACTER_PANEL_DIMENSION, (18, 3));
    assert_eq!(CHARACTER_PANEL_LIST_WIDTH, 18);
    assert_eq!(MENU_DIMENSION, (40, 6));
    assert_eq!(MAX_DRAWN_MAP_SIZE, 32_756);
}

#[test]
fn map_widget_is_twice_as_wide_as_the_map() {
    assert_eq!(MapWidget::dimension(0), (3, 2));
    assert_eq!(MapWidget::dimension(1), (5, 3));
    assert_eq!(MapWidget::dimension(30), (63, 32));
    assert_eq!(MapWidget::dimension(MAX_DRAWN_MAP_SIZE), (65_515, 32_758));
}

#[test]
fn arena_widget_adds_panels_and_label() {
    let mut state = State::new(&config());
    with_arena(&mut state, 30);
    assert_eq!(ArenaWidget::dimension(&state), (18 + 1 + 63, 1 + 32));
    with_arena(&mut state, MAX_DRAWN_MAP_SIZE as usize);
    assert_eq!(ArenaWidget::dimension(&state), (65_534, 32_759));
    let arena = Arena {};
    let widget = ArenaWidget::new(&state, &arena);
    assert_eq!(widget.shown().server.game_info().map_size, 32_756);
}

#[test]
fn gui_shows_the_arena_once_there_is_one() {
    let mut state = State::new(&config());
    let gui = Gui::new(&config());
    assert_eq!(gui.view(&state), Screen::Menu);
    with_arena(&mut state, 10);
    assert_eq!(gui.view(&state), Screen::Arena);
}

#[test]
fn gui_closes_on_control_c_everywhere() {
    let mut state = State::new(&config());
    let mut gui = Gui::new(&config());
    let control_c = InputEvent::KeyPressed(KeyEvent {
        code: KeyCode::Char('c'),
        modifiers: KeyModifiers { shift: false, control: true, alt: false },
    });
    assert_eq!(gui.process_event(&state, control_c), Some(Action::Close));
    with_arena(&mut state, 10);
    state.server.game.status = GameStatus::Finished;
    assert_eq!(gui.process_event(&state, control_c), Some(Action::Close));
    let plain_c = InputEvent::KeyPressed(key(KeyCode::Char('c')));
    assert_eq!(gui.process_event(&state, plain_c), None);
    let alt_c = InputEvent::KeyPressed(KeyEvent {
        code: KeyCode::Char('c'),
        modifiers: KeyModifiers { shift: true, control: false, alt: true },
    });
    assert_eq!(gui.process_event(&state, alt_c), None);
    let control_d = InputEvent::KeyPressed(KeyEvent {
        code: KeyCode::Char('d'),
        modifiers: KeyModifiers { shift: false, control: true, alt: false },
    });
    assert_eq!(gui.process_event(&state, control_d), None);
}

#[test]
fn gui_hands_keys_to_what_is_on_screen() {
    let mut state = State::new(&config());
    let mut gui = Gui::new(&config());
    gui.update(&state);
    assert!(gui.menu().server_addr_input().has_focus());
    assert!(!gui.menu().character_input().has_focus());
    for character in "host".chars() {
        let event = InputEvent::KeyPressed(key(KeyCode::Char(character)));
        assert_eq!(gui.process_event(&state, event), None);
    }
    assert_eq!(gui.menu().server_addr_input().content(), "host");
    assert_eq!(gui.menu().character_input().content(), Some('Q'));
    let enter = InputEvent::KeyPressed(key(KeyCode::Enter));
    assert_eq!(gui.process_event(&state, enter), None);
    with_arena(&mut state, 10);
    state.server.game.status = GameStatus::Finished;
    assert_eq!(gui.process_event(&state, enter), Some(Action::CloseGame));
    let event = InputEvent::KeyPressed(key(KeyCode::Char('x')));
    assert_eq!(gui.process_event(&state, event), None);
    gui.update(&state);
    assert_eq!(gui.menu().server_addr_input().content(), "host");
    let _ = gui.arena();
}

#[test]
fn menu_moves_the_focus_with_the_connection() {
    let mut state = State::new(&config());
    let mut menu = Menu::new(&config());
    assert!(!menu.server_addr_input().has_focus());
    assert_eq!(menu.character_input().content(), Some('Q'));
    menu.update(&state);
    assert!(menu.server_addr_input().has_focus());
    assert!(!menu.character_input().has_focus());
    state.server.connection_status = ConnectionStatus::Connected;
    menu.update(&state);
    assert!(!menu.server_addr_input().has_focus());
    assert!(menu.character_input().has_focus());
    assert_eq!(menu.process_event(&state, InputEvent::KeyPressed(key(KeyCode::Char('w')))), None);
    assert_eq!(menu.character_input().content(), Some('W'));
    assert_eq!(menu.server_addr_input().content(), "");
    assert_eq!(menu.process_event(&state, InputEvent::ResizeDisplay(10, 10)), None);
    state.user.login_status = Some(LoginStatus::Logged(3, LoggedKind::FirstTime));
    menu.update(&state);
    assert!(!menu.server_addr_input().has_focus());
    assert!(!menu.character_input().has_focus());
}

#[test]
fn gui_widget_centers_what_is_on_screen() {
    let mut state = State::new(&config());
    let gui = Gui::new(&config());
    let terminal = Area { x: 0, y: 0, width: 100, height: 40 };
    {
        let widget = GuiWidget::new(&state, &gui);
        assert_eq!(widget.frame(terminal), Area { x: 30, y: 17, width: 40, height: 6 });
        assert!(widget.shown().server.game.arena.is_none());
        assert_eq!(widget.gui().view(&state), Screen::Menu);
    }
    with_arena(&mut state, 10);
    let widget = GuiWidget::new(&state, &gui);
    assert_eq!(widget.frame(terminal), Area { x: 29, y: 13, width: 42, height: 13 });
}

#[test]
fn settings_carry_the_server_address() {
    let address = ServerAddress { host: HostAddress::V4(0x7f00_0001), port: 3001 };
    let state = State::new(&Config { character: None, server_addr: Some(address) });
    assert_eq!(state.server.addr, Some(address));
    assert_eq!(state.user.character_symbol, None);
    let server: &Server = &state.server;
    assert!(!server.is_connected());
}
