//! A session: a validated map, the aircraft in it, the command that is
//! being typed, and the tick. Keys come in as events and change the session.

use vstd::prelude::*;
use crate::command::{CommandView, CommandWriter};
use crate::errors::MapError;
use crate::grammar::{step, undo};
use crate::labels::{fits_labels, lemma_error_of_labelled, with_labels};
use crate::map::{GameMap, GameMapView};
use crate::phrase::phrase;
use crate::plane::{plane_views, Plane, PlaneView};
use crate::resolve::{has_plane, resolve};
use crate::rules::check;

verus! {

/// The key of a key event, as far as a session tells keys apart.
#[derive(Debug, PartialEq, Eq, Structural, Clone, Copy)]
pub enum KeyCode {
    Char(char),
    Backspace,
    Enter,
    Esc,
    Other,
}

/// The modifier keys held with a key: none, the control key alone, or
/// anything else.
#[derive(Debug, PartialEq, Eq, Structural, Clone, Copy)]
pub enum KeyModifiers {
    Plain,
    Control,
    Other,
}

/// A key press.
#[derive(Debug, PartialEq, Eq, Structural, Clone, Copy)]
pub struct KeyEvent {
    pub code: KeyCode,
    pub modifiers: KeyModifiers,
}

/// What a key press asks of a session.
#[derive(Debug, PartialEq, Eq, Structural, Clone, Copy)]
pub enum Action {
    /// End the session.
    Quit,
    /// Take back the last keystroke of the command.
    Backspace,
    /// Offer a key to the command.
    Key(char),
    /// Empty the command.
    Clear,
    /// Resolve the command and hand it to its aircraft.
    Commit,
    /// Nothing.
    Ignore,
}

/// What the key press `key` asks for: control-c quits; backspace, with
/// whatever modifiers, and control-h take back a keystroke; a character
/// without modifiers is offered to the command; escape empties it and enter
/// commits it. Every other key press is ignored.
pub open spec fn action_of(key: KeyEvent) -> Action {
    if key.code == KeyCode::Char('c') && key.modifiers == KeyModifiers::Control {
        Action::Quit
    } else if key.code == KeyCode::Backspace || (key.code == KeyCode::Char('h') && key.modifiers
        == KeyModifiers::Control) {
        Action::Backspace
    } else if key.code is Char && key.modifiers == KeyModifiers::Plain {
        Action::Key(key.code->Char_0)
    } else if key.code == KeyCode::Esc {
        Action::Clear
    } else if key.code == KeyCode::Enter {
        Action::Commit
    } else {
        Action::Ignore
    }
}

/// A session.
#[derive(Debug)]
pub struct App {
    map: GameMap,
    planes: Vec<Plane>,
    cur_command: CommandWriter,
    tick: u32,
}

/// What an [`App`] holds.
pub struct AppView {
    pub map: GameMapView,
    pub planes: Seq<PlaneView>,
    pub cur_command: Seq<char>,
    pub tick: u32,
}

impl View for App {
    type V = AppView;

    closed spec fn view(&self) -> AppView {
        AppView {
            map: self.map@,
            planes: plane_views(self.planes@),
            cur_command: self.cur_command@,
            tick: self.tick,
        }
    }
}

/// Whether the aircraft at `i` is the first with the label `label`.
pub open spec fn is_first_plane(planes: Seq<PlaneView>, label: char, i: int) -> bool {
    &&& 0 <= i < planes.len()
    &&& planes[i].label == label
    &&& forall|j: int| 0 <= j < i ==> (#[trigger] planes[j]).label != label
}

/// The aircraft after `command` has been queued for the first of them with
/// the label `label`; unchanged where none has it.
pub open spec fn enqueue(planes: Seq<PlaneView>, label: char, command: CommandView) -> Seq<
    PlaneView,
> {
    if has_plane(planes, label) {
        let i = choose|i: int| is_first_plane(planes, label, i);
        planes.update(i, PlaneView { commands: planes[i].commands.push(command), ..planes[i] })
    } else {
        planes
    }
}

/// The session after a commit: the command is resolved against the
/// aircraft and the objects of the map at the current tick and queued for
/// its aircraft; the buffer is emptied whether it resolved or not.
pub open spec fn commit(app: AppView) -> AppView {
    match resolve(app.cur_command, app.planes, app.map.objects, app.tick) {
        Some((command, label)) => AppView {
            planes: enqueue(app.planes, label, command),
            cur_command: Seq::empty(),
            ..app
        },
        None => AppView { cur_command: Seq::empty(), ..app },
    }
}

/// The session after the key press `key`.
pub open spec fn handle(app: AppView, key: KeyEvent) -> AppView {
    match action_of(key) {
        Action::Quit => app,
        Action::Backspace => AppView { cur_command: undo(app.cur_command), ..app },
        Action::Key(ch) => AppView { cur_command: step(app.cur_command, ch), ..app },
        Action::Clear => AppView { cur_command: Seq::empty(), ..app },
        Action::Commit => commit(app),
        Action::Ignore => app,
    }
}

/// Only one aircraft is the first with a given label.
proof fn lemma_first_plane_unique(planes: Seq<PlaneView>, label: char, i: int, k: int)
    requires
        is_first_plane(planes, label, i),
        is_first_plane(planes, label, k),
    ensures
        i == k,
{
}

impl App {
    /// Starts a session on `map`: the objects get their labels, then the
    /// map is checked against every rule. A map that breaks a rule starts
    /// no session.
    pub fn new(map: GameMap) -> (r: Result<Self, MapError>)
        requires
            fits_labels(map@.objects),
        ensures
            match r {
                Ok(app) => check(with_labels(map@)) is Ok && app@ == (AppView {
                    map: with_labels(map@),
                    planes: Seq::empty(),
                    cur_command: Seq::empty(),
                    tick: 0,
                }),
                Err(e) => check(with_labels(map@)) == Err::<(), MapError>(e) && e.labelled(),
            },
    {
        proof {
            lemma_error_of_labelled(map@);
        }
        let mut map = map;
        map.label();
        match map.validate() {
            Err(e) => Err(e),
            Ok(()) => {
                let app = Self {
                    map,
                    planes: Vec::new(),
                    cur_command: CommandWriter::new(),
                    tick: 0,
                };
                assert(plane_views(app.planes@) =~= Seq::empty());
                Ok(app)
            },
        }
    }

    /// The width and the height of the map.
    pub fn dimensions(&self) -> (r: (&u16, &u16))
        ensures
            *r.0 == self@.map.width,
            *r.1 == self@.map.height,
    {
        (self.map.width(), self.map.height())
    }

    /// The length of a tick in seconds, as the bit pattern of a
    /// single-precision number.
    pub fn tick_rate(&self) -> (r: &u32)
        ensures
            *r == self@.map.tick_rate,
    {
        self.map.tick_rate()
    }

    /// The map of the session.
    pub fn map(&self) -> (r: &GameMap)
        ensures
            r@ == self@.map,
    {
        &self.map
    }

    /// The aircraft of the session.
    pub fn planes(&self) -> (r: &[Plane])
        ensures
            plane_views(r@) == self@.planes,
    {
        self.planes.as_slice()
    }

    /// The number of the current tick.
    pub fn current_tick(&self) -> (r: u32)
        ensures
            r == self@.tick,
    {
        self.tick
    }

    /// The command that is being typed, as a phrase for the player.
    pub fn cur_command(&self) -> (r: String)
        ensures
            r@ == phrase(self@.cur_command),
    {
        self.cur_command.to_string()
    }

    /// Puts `plane` into the session, after the aircraft that are in it.
    pub fn add_plane(&mut self, plane: Plane)
        ensures
            final(self)@ == (AppView { planes: old(self)@.planes.push(plane@), ..old(self)@ }),
    {
        self.planes.push(plane);
        assert(plane_views(self.planes@) =~= plane_views(old(self).planes@).push(plane@));
    }

    /// Advances the session by one tick.
    pub fn tick(&mut self)
        requires
            old(self)@.tick < u32::MAX,
        ensures
            final(self)@ == (AppView { tick: (old(self)@.tick + 1) as u32, ..old(self)@ }),
    {
        self.tick = self.tick + 1;
    }

    /// Resolves the command that is being typed and queues it for its
    /// aircraft. The buffer is emptied whether the command resolved or not.
    fn build_command(&mut self)
        ensures
            final(self)@ == commit(old(self)@),
    {
        let mut cur_command = CommandWriter::new();
        core::mem::swap(&mut self.cur_command, &mut cur_command);
        let (command, plane) = match cur_command.build(
            self.planes.as_slice(),
            self.map.objects(),
            self.tick,
        ) {
            Some(c) => c,
            None => {
                return ;
            },
        };
        let ghost planes = plane_views(self.planes@);
        let mut i: usize = 0;
        while i < self.planes.len()
            invariant
                i <= self.planes.len(),
                planes == plane_views(self.planes@),
                forall|j: int| 0 <= j < i ==> (#[trigger] planes[j]).label != plane,
                has_plane(planes, plane),
                self@ == (AppView { cur_command: Seq::empty(), ..old(self)@ }),
                resolve(old(self)@.cur_command, planes, old(self)@.map.objects, old(self)@.tick)
                    == Some((command@, plane)),
            decreases self.planes.len() - i,
        {
            if *self.planes[i].label() == plane {
                proof {
                    assert(is_first_plane(planes, plane, i as int));
                    let k = choose|k: int| is_first_plane(planes, plane, k);
                    lemma_first_plane_unique(planes, plane, i as int, k);
                }
                self.planes[i].push_command(command);
                assert(plane_views(self.planes@) =~= enqueue(planes, plane, command@));
                return ;
            }
            i += 1;
        }
    }

    /// Handles the key press `key_event` and says whether it ends the
    /// session.
    pub fn handle_event(&mut self, key_event: KeyEvent) -> (quit: bool)
        ensures
            quit == (action_of(key_event) == Action::Quit),
            final(self)@ == handle(old(self)@, key_event),
    {
        match key_event {
            KeyEvent { code: KeyCode::Char('c'), modifiers: KeyModifiers::Control } => {
                return true;
            },
            KeyEvent { code: KeyCode::Backspace, .. } | KeyEvent {
                code: KeyCode::Char('h'),
                modifiers: KeyModifiers::Control,
            } => self.cur_command.pop(),
            KeyEvent { code: KeyCode::Char(ch), modifiers: KeyModifiers::Plain } => {
                self.cur_command.push(ch)
            },
            KeyEvent { code: KeyCode::Esc, .. } => self.cur_command.clear(),
            KeyEvent { code: KeyCode::Enter, .. } => self.build_command(),
            _ => (),
        }
        false
    }
}

} // verus!
