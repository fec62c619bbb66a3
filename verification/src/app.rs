//! The state of the terminal interface and how keys change it.

use vstd::prelude::*;
use vstd::string::StringExecFns;

use crate::ascii::{renders_as, AsciiEngine, RenderError, Rendering, Size};
use crate::song::Song;

verus! {

/// A key, as far as the interface tells keys apart.
#[derive(Clone, Copy, Debug, PartialEq, Eq, Structural)]
pub enum KeyCode {
    Char(char),
    Esc,
    Enter,
    Left,
    Right,
    /// Any other key.
    Other,
}

/// Whether a key went down, repeats or came up.
#[derive(Clone, Copy, Debug, PartialEq, Eq, Structural)]
pub enum KeyEventKind {
    Press,
    Repeat,
    Release,
}

/// An event of the terminal.
#[derive(Clone, Copy, Debug, PartialEq, Eq, Structural)]
pub enum InputEvent {
    Key { code: KeyCode, kind: KeyEventKind },
    /// Any other event (mouse, resize, focus, paste).
    Other,
}

/// What the player is to do after an event.
#[derive(Clone, Copy, Debug, PartialEq, Eq, Structural)]
pub enum PlayerCommand {
    Nothing,
    TogglePlayPause,
    /// Go to the previous song, then read the song that plays.
    PreviousSong,
    /// Go to the next song, then read the song that plays.
    NextSong,
}

/// What a key does to the engine and the exit flag, and what it asks of
/// the player: `q` and Esc quit, Enter pauses or resumes, Left and Right
/// go back and forward, `c` switches the ASCII engine.
pub open spec fn key_step(engine: AsciiEngine, exit: bool, code: KeyCode) -> (AsciiEngine, bool, PlayerCommand) {
    match code {
        KeyCode::Char(c) => {
            if c == 'q' {
                (engine, true, PlayerCommand::Nothing)
            } else if c == 'c' {
                (engine.spec_toggled(), exit, PlayerCommand::Nothing)
            } else {
                (engine, exit, PlayerCommand::Nothing)
            }
        },
        KeyCode::Esc => (engine, true, PlayerCommand::Nothing),
        KeyCode::Enter => (engine, exit, PlayerCommand::TogglePlayPause),
        KeyCode::Left => (engine, exit, PlayerCommand::PreviousSong),
        KeyCode::Right => (engine, exit, PlayerCommand::NextSong),
        KeyCode::Other => (engine, exit, PlayerCommand::Nothing),
    }
}

/// What an event does: only key presses act.
pub open spec fn event_step(engine: AsciiEngine, exit: bool, event: InputEvent) -> (AsciiEngine, bool, PlayerCommand) {
    match event {
        InputEvent::Key { code, kind } => {
            if kind == KeyEventKind::Press {
                key_step(engine, exit, code)
            } else {
                (engine, exit, PlayerCommand::Nothing)
            }
        },
        InputEvent::Other => (engine, exit, PlayerCommand::Nothing),
    }
}

/// The interface: the player it drives, the song on show, the engine that
/// draws the cover and whether the user asked to quit.
pub struct App<P> {
    pub player: P,
    pub current_song: Song,
    pub ascii_engine: AsciiEngine,
    pub exit: bool,
}

impl<P> App<P> {
    /// A running interface showing `current_song`; without a choice of
    /// engine it draws with `chafa`.
    pub fn new(player: P, current_song: Song, ascii_engine: Option<AsciiEngine>) -> (app: Self)
        ensures
            app.player == player,
            app.current_song == current_song,
            app.ascii_engine == match ascii_engine {
                Some(e) => e,
                None => AsciiEngine::Chafa,
            },
            !app.exit,
    {
        let ascii_engine = match ascii_engine {
            Some(e) => e,
            None => AsciiEngine::default(),
        };
        App { player, current_song, ascii_engine, exit: false }
    }

    fn exit(&mut self)
        ensures
            final(self).exit,
            final(self).ascii_engine == old(self).ascii_engine,
            final(self).current_song == old(self).current_song,
            final(self).player == old(self).player,
    {
        self.exit = true;
    }

    /// Acts on a key and hands back what the player is to do.
    pub fn handle_key_event(&mut self, code: KeyCode) -> (cmd: PlayerCommand)
        ensures
            (final(self).ascii_engine, final(self).exit, cmd) == key_step(old(self).ascii_engine, old(self).exit, code),
            final(self).current_song == old(self).current_song,
            final(self).player == old(self).player,
            old(self).exit ==> final(self).exit,
    {
        match code {
            KeyCode::Char('q') => {
                self.exit();
                PlayerCommand::Nothing
            },
            KeyCode::Esc => {
                self.exit();
                PlayerCommand::Nothing
            },
            KeyCode::Enter => PlayerCommand::TogglePlayPause,
            KeyCode::Left => PlayerCommand::PreviousSong,
            KeyCode::Right => PlayerCommand::NextSong,
            KeyCode::Char('c') => {
                self.ascii_engine = self.ascii_engine.toggled();
                PlayerCommand::Nothing
            },
            _ => PlayerCommand::Nothing,
        }
    }

    /// Acts on a terminal event: key presses as `handle_key_event` does,
    /// anything else not at all.
    pub fn handle_event(&mut self, event: InputEvent) -> (cmd: PlayerCommand)
        ensures
            (final(self).ascii_engine, final(self).exit, cmd) == event_step(old(self).ascii_engine, old(self).exit, event),
            final(self).current_song == old(self).current_song,
            final(self).player == old(self).player,
            old(self).exit ==> final(self).exit,
    {
        match event {
            InputEvent::Key { code, kind: KeyEventKind::Press } => self.handle_key_event(code),
            _ => PlayerCommand::Nothing,
        }
    }

    /// The cover of the current song drawn at `size` by the current
    /// engine, or the command that draws it; `<missing cover>` where the
    /// song has none.
    pub fn get_cover_ascii(&self, size: Size) -> (res: Result<Rendering, RenderError>)
        ensures
            match self.current_song.cover {
                None => res matches Ok(Rendering::Text(t)) && t@ == "<missing cover>"@,
                Some(picture) => renders_as(self.ascii_engine, picture, size, res),
            },
    {
        match &self.current_song.cover {
            Some(cover_image) => self.ascii_engine.render_image(cover_image, size),
            None => Ok(Rendering::Text(String::from_str("<missing cover>"))),
        }
    }

    /// The title line: ` TITLE - ARTIST `.
    pub fn header_text(&self) -> (text: String)
        ensures
            text@ == " "@ + self.current_song.title@ + " - "@ + self.current_song.artist@ + " "@,
    {
        let mut text = String::from_str(" ");
        text.append(self.current_song.title.as_str());
        text.append(" - ");
        text.append(self.current_song.artist.as_str());
        text.append(" ");
        text
    }

    /// The bottom line: ` ALBUM `.
    pub fn footer_text(&self) -> (text: String)
        ensures
            text@ == " "@ + self.current_song.album@ + " "@,
    {
        let mut text = String::from_str(" ");
        text.append(self.current_song.album.as_str());
        text.append(" ");
        text
    }
}

/// Once the user asked to quit, no event takes that back.
pub proof fn law_exit_is_final(engine: AsciiEngine, event: InputEvent)
    ensures
        event_step(engine, true, event).1,
{
}

/// Pressing `c` twice draws with the engine one started with.
pub proof fn law_engine_switch_twice(engine: AsciiEngine, exit: bool)
    ensures
        ({
            let once = key_step(engine, exit, KeyCode::Char('c'));
            let twice = key_step(once.0, once.1, KeyCode::Char('c'));
            twice.0 == engine && twice.1 == exit && twice.2 == PlayerCommand::Nothing
        }),
{
}

/// Events other than key presses change nothing and ask nothing.
pub proof fn law_only_presses_act(engine: AsciiEngine, exit: bool, event: InputEvent)
    requires
        !(event matches InputEvent::Key { kind: KeyEventKind::Press, .. }),
    ensures
        event_step(engine, exit, event) == (engine, exit, PlayerCommand::Nothing),
{
}

/// What each key asks of the player does not depend on the engine or on
/// the exit flag: Left goes to the previous song, Right to the next, Enter
/// pauses or resumes, every other key asks nothing.
pub proof fn law_key_commands(engine: AsciiEngine, exit: bool, code: KeyCode)
    ensures
        key_step(engine, exit, KeyCode::Left).2 == PlayerCommand::PreviousSong,
        key_step(engine, exit, KeyCode::Right).2 == PlayerCommand::NextSong,
        key_step(engine, exit, KeyCode::Enter).2 == PlayerCommand::TogglePlayPause,
        key_step(engine, exit, code).2 == key_step(AsciiEngine::Chafa, false, code).2,
        code != KeyCode::Left && code != KeyCode::Right && code != KeyCode::Enter
            ==> key_step(engine, exit, code).2 == PlayerCommand::Nothing,
{
}

/// `q` and Esc quit and change nothing else; every other key leaves the
/// exit flag as it was.
pub proof fn law_quit_keys(engine: AsciiEngine, exit: bool, code: KeyCode)
    ensures
        key_step(engine, exit, KeyCode::Char('q')) == (engine, true, PlayerCommand::Nothing),
        key_step(engine, exit, KeyCode::Esc) == (engine, true, PlayerCommand::Nothing),
        code != KeyCode::Char('q') && code != KeyCode::Esc ==> key_step(engine, exit, code).1 == exit,
{
}

/// Only `c` changes the engine, and it switches to the other one.
pub proof fn law_engine_key(engine: AsciiEngine, exit: bool, code: KeyCode)
    ensures
        key_step(engine, exit, KeyCode::Char('c')).0 != engine,
        code != KeyCode::Char('c') ==> key_step(engine, exit, code).0 == engine,
{
}

/// A key press acts as the key does; any other event changes nothing.
pub proof fn law_press_is_key(engine: AsciiEngine, exit: bool, code: KeyCode)
    ensures
        event_step(engine, exit, InputEvent::Key { code, kind: KeyEventKind::Press }) == key_step(engine, exit, code),
        event_step(engine, exit, InputEvent::Key { code, kind: KeyEventKind::Release }) == (engine, exit, PlayerCommand::Nothing),
        event_step(engine, exit, InputEvent::Key { code, kind: KeyEventKind::Repeat }) == (engine, exit, PlayerCommand::Nothing),
        event_step(engine, exit, InputEvent::Other) == (engine, exit, PlayerCommand::Nothing),
{
}

} // verus!
