//! Building blocks of the screen: areas, and fields that take input.

use vstd::prelude::*;
use crate::client::terminal::input::{KeyCode, KeyEvent};
use crate::text::{chars_of, text_of};

verus! {

/// A rectangle of cells on the screen.
#[derive(Clone, Copy, Debug, PartialEq, Eq, Structural)]
pub struct Area {
    pub x: u16,
    pub y: u16,
    pub width: u16,
    pub height: u16,
}

/// The width and height to which `tui::layout::Rect::new` cuts a rectangle
/// of `width` by `height` cells that has more cells than a `u16` counts.
pub uninterp spec fn clipped_extent(width: u16, height: u16) -> (u16, u16);

/// The rectangle that the terminal library makes of a corner and an extent:
/// these very values, unless the rectangle would have more cells than a `u16`
/// counts. Then the library cuts width and height down.
pub open spec fn framed(x: u16, y: u16, width: u16, height: u16) -> Area {
    if width * height <= u16::MAX {
        Area { x, y, width, height }
    } else {
        Area { x, y, width: clipped_extent(width, height).0, height: clipped_extent(width, height).1 }
    }
}

/// `tui::layout::Rect::new`: the rectangle with the given corner and extent.
/// The contract claims what the function's source shows: the corner is kept
/// as it is, and so is the extent as long as width times height is at most
/// `u16::MAX`. For a larger rectangle the function computes a smaller extent
/// from width and height alone; the contract only names that result.
#[verifier::external_body]
fn rect_new(x: u16, y: u16, width: u16, height: u16) -> (area: Area)
    ensures
        area.x == x,
        area.y == y,
        width * height <= u16::MAX ==> area.width == width && area.height == height,
        width * height > u16::MAX ==> (area.width, area.height) == clipped_extent(width, height),
{
    let rect = tui::layout::Rect::new(x, y, width, height);
    Area { x: rect.x, y: rect.y, width: rect.width, height: rect.height }
}

/// Where something of `dimension` (width, then height) goes when it is
/// centered in `base`: half of the room that is left lies before it. What is
/// larger than `base` is cut to the extent of `base`.
pub open spec fn centered(base: Area, dimension: (u16, u16)) -> Area {
    framed(
        if base.width > dimension.0 {
            ((base.width - dimension.0) / 2) as u16
        } else {
            0
        },
        if base.height > dimension.1 {
            ((base.height - dimension.1) / 2) as u16
        } else {
            0
        },
        if base.width > dimension.0 {
            dimension.0
        } else {
            base.width
        },
        if base.height > dimension.1 {
            dimension.1
        } else {
            base.height
        },
    )
}

/// The area of `dimension` (width, then height) that is centered in `base`.
pub fn centered_area(base: Area, dimension: (u16, u16)) -> (area: Area)
    ensures
        area == centered(base, dimension),
{
    let x: u16 = if base.width > dimension.0 { (base.width - dimension.0) / 2 } else { 0 };
    let y: u16 = if base.height > dimension.1 { (base.height - dimension.1) / 2 } else { 0 };
    let width: u16 = if base.width > dimension.0 { dimension.0 } else { base.width };
    let height: u16 = if base.height > dimension.1 { dimension.1 } else { base.height };
    rect_new(x, y, width, height)
}

/// What a text field is: its characters, and the place of the cursor while
/// the field has the focus. The cursor stands before the character whose
/// place it names, or behind the last one.
pub struct InputTextView {
    pub content: Seq<char>,
    pub cursor: Option<usize>,
}

impl InputTextView {
    /// The cursor stands within the text or right behind it.
    pub open spec fn wf(self) -> bool {
        self.cursor matches Some(cursor) ==> cursor <= self.content.len()
    }

    /// The field after the key `code` was pressed. A field without focus
    /// takes no keys. A character goes in at the cursor, which moves behind
    /// it. Delete takes out the character at the cursor, backspace the one
    /// before it. The arrows move the cursor by one where there is room, and
    /// home and end move it to the ends.
    pub open spec fn after_key(self, code: KeyCode) -> InputTextView {
        match self.cursor {
            None => self,
            Some(cursor) => match code {
                KeyCode::Char(character) => InputTextView {
                    content: self.content.insert(cursor as int, character),
                    cursor: Some((cursor + 1) as usize),
                },
                KeyCode::Delete => if cursor < self.content.len() {
                    InputTextView { content: self.content.remove(cursor as int), ..self }
                } else {
                    self
                },
                KeyCode::Backspace => if cursor > 0 {
                    InputTextView {
                        content: self.content.remove(cursor - 1),
                        cursor: Some((cursor - 1) as usize),
                    }
                } else {
                    self
                },
                KeyCode::Left => if cursor > 0 {
                    InputTextView { cursor: Some((cursor - 1) as usize), ..self }
                } else {
                    self
                },
                KeyCode::Right => if cursor < self.content.len() {
                    InputTextView { cursor: Some((cursor + 1) as usize), ..self }
                } else {
                    self
                },
                KeyCode::Home => InputTextView { cursor: Some(0), ..self },
                KeyCode::End => InputTextView { cursor: Some(self.content.len() as usize), ..self },
                _ => self,
            },
        }
    }

    /// The field after it was given the focus, or after the focus was taken
    /// from it. A field that gets the focus starts with the cursor before the
    /// text; one that already has it keeps its cursor.
    pub open spec fn focused(self, value: bool) -> InputTextView {
        if !value {
            InputTextView { cursor: None, ..self }
        } else if self.cursor.is_none() {
            InputTextView { cursor: Some(0), ..self }
        } else {
            self
        }
    }
}

/// A field for a line of text.
pub struct InputText {
    content: Vec<char>,
    cursor: Option<usize>,
}

impl View for InputText {
    type V = InputTextView;

    closed spec fn view(&self) -> InputTextView {
        InputTextView { content: self.content@, cursor: self.cursor }
    }
}

impl InputText {
    #[verifier::type_invariant]
    spec fn cursor_in_text(self) -> bool {
        self.cursor matches Some(cursor) ==> cursor <= self.content@.len()
    }

    /// A field that holds `content`, or nothing, and has no focus.
    pub fn new(content: Option<String>) -> (input: InputText)
        ensures
            input@.cursor.is_none(),
            input@.content == match content {
                Some(text) => text@,
                None => Seq::<char>::empty(),
            },
    {
        let content = match content {
            Some(text) => chars_of(text.as_str()),
            None => Vec::new(),
        };
        InputText { content, cursor: None }
    }

    /// Takes a key press: see [`InputTextView::after_key`].
    pub fn key_pressed(&mut self, key_event: KeyEvent)
        ensures
            final(self)@ == old(self)@.after_key(key_event.code),
            final(self)@.wf(),
    {
        proof {
            use_type_invariant(&*self);
        }
        if let Some(cursor) = self.cursor {
            // The text leaves the field while it changes, and the cursor goes
            // back in last: the field is sound at every step in between.
            self.cursor = None;
            let mut content: Vec<char> = Vec::new();
            std::mem::swap(&mut self.content, &mut content);
            let mut place: usize = cursor;
            match key_event.code {
                KeyCode::Char(character) => {
                    content.insert(place, character);
                    assert(place < content.len());
                    place = place + 1;
                },
                KeyCode::Delete => {
                    if place < content.len() {
                        content.remove(place);
                    }
                },
                KeyCode::Backspace => {
                    if place > 0 {
                        place = place - 1;
                        content.remove(place);
                    }
                },
                KeyCode::Left => {
                    if place > 0 {
                        place = place - 1;
                    }
                },
                KeyCode::Right => {
                    if place < content.len() {
                        place = place + 1;
                    }
                },
                KeyCode::Home => {
                    place = 0;
                },
                KeyCode::End => {
                    place = content.len();
                },
                _ => (),
            }
            self.content = content;
            self.cursor = Some(place);
        }
    }

    /// Gives the field the focus, or takes it away.
    pub fn focus(&mut self, value: bool)
        ensures
            final(self)@ == old(self)@.focused(value),
    {
        proof {
            use_type_invariant(&*self);
        }
        if value {
            if self.cursor.is_none() {
                self.cursor = Some(0);
            }
        } else {
            self.cursor = None;
        }
    }

    /// Whether the field has the focus.
    pub fn has_focus(&self) -> (focus: bool)
        ensures
            focus == self@.cursor.is_some(),
    {
        self.cursor.is_some()
    }

    /// The text in the field.
    pub fn content(&self) -> (content: String)
        ensures
            content@ == self@.content,
    {
        text_of(&self.content)
    }

    /// The place of the cursor, counted in characters, while the field has
    /// the focus. It never lies beyond the end of the text.
    pub fn cursor_position(&self) -> (cursor: Option<usize>)
        ensures
            cursor == self@.cursor,
            self@.wf(),
    {
        proof {
            use_type_invariant(self);
        }
        self.cursor
    }
}

/// Whether `character` is one of the letters `a` to `z` or `A` to `Z`.
pub open spec fn is_ascii_letter(character: char) -> bool {
    ('a' <= character && character <= 'z') || ('A' <= character && character <= 'Z')
}

/// The capital of a letter, and any other character as it is.
pub open spec fn capital(character: char) -> char {
    if 'a' <= character && character <= 'z' {
        ((character as u8 - 32) as u8) as char
    } else {
        character
    }
}

/// Computes [`capital`].
pub fn to_capital(character: char) -> (upper: char)
    ensures
        upper == capital(character),
{
    if 'a' <= character && character <= 'z' {
        let code: u8 = character as u8;
        (code - 32) as char
    } else {
        character
    }
}

/// What a letter field is: the letter, if one was typed, and whether the
/// field has the focus.
pub struct InputCapitalLetterView {
    pub content: Option<char>,
    pub focus: bool,
}

impl InputCapitalLetterView {
    /// The field after the key `code` was pressed. A field without focus
    /// takes no keys. A letter replaces what was there, as a capital; other
    /// characters are ignored. Delete and backspace empty the field.
    pub open spec fn after_key(self, code: KeyCode) -> InputCapitalLetterView {
        if !self.focus {
            self
        } else {
            match code {
                KeyCode::Char(character) => if is_ascii_letter(character) {
                    InputCapitalLetterView { content: Some(capital(character)), ..self }
                } else {
                    self
                },
                KeyCode::Delete => InputCapitalLetterView { content: None, ..self },
                KeyCode::Backspace => InputCapitalLetterView { content: None, ..self },
                _ => self,
            }
        }
    }
}

/// A field for one capital letter.
pub struct InputCapitalLetter {
    content: Option<char>,
    focus: bool,
}

impl View for InputCapitalLetter {
    type V = InputCapitalLetterView;

    closed spec fn view(&self) -> InputCapitalLetterView {
        InputCapitalLetterView { content: self.content, focus: self.focus }
    }
}

impl InputCapitalLetter {
    /// A field that holds `content`, or nothing, and has no focus.
    pub fn new(content: Option<char>) -> (input: InputCapitalLetter)
        ensures
            input@ == (InputCapitalLetterView { content, focus: false }),
    {
        InputCapitalLetter { content, focus: false }
    }

    /// Takes a key press: see [`InputCapitalLetterView::after_key`].
    pub fn key_pressed(&mut self, key_event: KeyEvent)
        ensures
            final(self)@ == old(self)@.after_key(key_event.code),
    {
        if self.focus {
            match key_event.code {
                KeyCode::Char(character) => {
                    if ('a' <= character && character <= 'z') || ('A' <= character && character
                        <= 'Z') {
                        self.content = Some(to_capital(character));
                    }
                },
                KeyCode::Delete => {
                    self.content = None;
                },
                KeyCode::Backspace => {
                    self.content = None;
                },
                _ => (),
            }
        }
    }

    /// Gives the field the focus, or takes it away.
    pub fn focus(&mut self, value: bool)
        ensures
            final(self)@ == (InputCapitalLetterView { focus: value, ..old(self)@ }),
    {
        self.focus = value;
    }

    /// Whether the field has the focus.
    pub fn has_focus(&self) -> (focus: bool)
        ensures
            focus == self@.focus,
    {
        self.focus
    }

    /// The letter in the field, if there is one.
    pub fn content(&self) -> (content: Option<char>)
        ensures
            content == self@.content,
    {
        self.content
    }
}

} // verus!
