//! Commands and the key-binding lookup.
//!
//! A static, ordered table of bindings maps a key chord and a mode filter to
//! a command; lookup takes the first binding whose filter matches the
//! current mode and whose chord equals the pressed key.

use crate::keys::KeyEvent;
use crate::mode::Mode;
use vstd::prelude::*;

verus! {

/// The closed set of editor commands.
#[derive(Debug)]
pub enum Command {
    Quit,
    MoveCursor(MoveCursor),
    InsertMode,
    CursorMode,
    TimeMode,
    GoToMode,
    DeleteMode,
    InsertTimeBoxBelow,
    InsertTimeBoxAbove,
    ToggleCrossOver,
    ToggleTimeAdjustPolicyFixed,
    ToggleBetweenSpanAndTime,
    PasteAbove,
    PasteBelow,
    MoveTimeCursor,
    SwapTimeSubMode,
    AdjustTime { hours: i8, minutes: i8 },
    DeleteTime,
    GoToColumn(ColumnKind),
    CutCurrentLine,
    OpenCommandInput,
    /// Runs the sub-commands in order; the redraw flag is the OR of theirs.
    Multi(Vec<Command>),
}

/// A cursor movement command.
#[derive(Clone, Copy, Debug, PartialEq, Eq, Structural)]
pub enum MoveCursor {
    Dir(Dir),
    Top,
    Bottom,
}

/// A column to jump to within the current line.
#[derive(Clone, Copy, Debug, PartialEq, Eq, Structural)]
pub enum ColumnKind {
    Index(usize),
    Last,
}

/// A movement direction.
#[derive(Clone, Copy, Debug, PartialEq, Eq, Structural)]
pub enum Dir {
    Up,
    Down,
    Left,
    Right,
}

/// Which modes a binding is active in.
#[derive(Debug)]
pub enum Filter {
    Mode(Mode),
    Modes(Vec<Mode>),
    Global,
}

/// Whether the filter accepts the mode.
pub open spec fn spec_match_mode(f: Filter, mode: Mode) -> bool {
    match f {
        Filter::Global => true,
        Filter::Mode(m) => m == mode,
        Filter::Modes(ms) => ms@.contains(mode),
    }
}

impl Filter {
    /// Whether this filter accepts the given mode.
    pub fn match_mode(&self, mode: &Mode) -> (r: bool)
        ensures
            r == spec_match_mode(*self, *mode),
    {
        match self {
            Filter::Global => true,
            Filter::Mode(m) => m == mode,
            Filter::Modes(ms) => {
                let mut i: usize = 0;
                while i < ms.len()
                    invariant
                        *self == Filter::Modes(*ms),
                        i <= ms@.len(),
                        forall|j: int| 0 <= j < i ==> ms@[j] != *mode,
                    decreases ms@.len() - i,
                {
                    if ms[i] == *mode {
                        proof {
                            assert(ms@.contains(*mode)) by {
                                assert(ms@[i as int] == *mode);
                            }
                        }
                        return true;
                    }
                    i = i + 1;
                }
                proof {
                    assert(!ms@.contains(*mode));
                }
                false
            }
        }
    }
}

/// One entry of the binding table.
#[derive(Debug)]
pub struct Binding {
    pub key: KeyEvent,
    pub command: Command,
    pub filter: Filter,
}

/// The command a single binding yields for a key in a mode, if any.
pub open spec fn spec_match_command(b: Binding, key: KeyEvent, mode: Mode) -> Option<Command> {
    if spec_match_mode(b.filter, mode) && key == b.key {
        Some(b.command)
    } else {
        None
    }
}

/// The first match in the table, in table order.
pub open spec fn spec_map_command(
    bindings: Seq<Binding>,
    key: KeyEvent,
    mode: Mode,
) -> Option<Command>
    decreases bindings.len(),
{
    if bindings.len() == 0 {
        None
    } else {
        match spec_match_command(bindings[0], key, mode) {
            Some(c) => Some(c),
            None => spec_map_command(bindings.drop_first(), key, mode),
        }
    }
}

/// A command the interpreter takes on its own (everything but `Multi`,
/// `OpenCommandInput`, and the unimplemented top/bottom jumps).
pub open spec fn simple_command(cmd: Command) -> bool {
    match cmd {
        Command::Multi(_) => false,
        Command::OpenCommandInput => false,
        Command::MoveCursor(mc) => mc is Dir,
        _ => true,
    }
}

/// Whether a command grows the schedule by one line.
pub open spec fn grows_schedule(cmd: Command) -> bool {
    match cmd {
        Command::InsertTimeBoxBelow => true,
        Command::InsertTimeBoxAbove => true,
        Command::PasteBelow => true,
        Command::PasteAbove => true,
        _ => false,
    }
}

/// The commands the interpreter accepts: a simple command, or a sequence of
/// simple commands (as the binding table builds them) that cuts no line and
/// grows the schedule at most once.
pub open spec fn supported_command(cmd: Command) -> bool {
    match cmd {
        Command::Multi(v) => {
            &&& forall|i: int| 0 <= i < v@.len() ==> simple_command(#[trigger] v@[i]) && !(v@[i]
                is CutCurrentLine)
            &&& forall|j: int, k: int| 0 <= j < k < v@.len() ==> !(grows_schedule(
                #[trigger] v@[j],
            ) && grows_schedule(#[trigger] v@[k]))
        },
        _ => simple_command(cmd),
    }
}

/// A command the lookup returns always stands in the table.
pub proof fn lemma_map_command_from_table(bindings: Seq<Binding>, key: KeyEvent, mode: Mode)
    ensures
        spec_map_command(bindings, key, mode) matches Some(c) ==> exists|i: int|
            0 <= i < bindings.len() && (#[trigger] bindings[i]).command == c,
    decreases bindings.len(),
{
    if bindings.len() > 0 {
        match spec_match_command(bindings[0], key, mode) {
            Some(c) => {
                assert(bindings[0].command == c);
            }
            None => {
                lemma_map_command_from_table(bindings.drop_first(), key, mode);
                match spec_map_command(bindings.drop_first(), key, mode) {
                    Some(c) => {
                        let i = choose|i: int|
                            0 <= i < bindings.drop_first().len() && (#[trigger] bindings.drop_first()[i]).command == c;
                        assert(bindings[i + 1] == bindings.drop_first()[i]);
                    }
                    None => {}
                }
            }
        }
    }
}

impl Binding {
    /// The command this binding yields for a key in a mode, if any.
    pub fn match_command<'a>(&'a self, key: &KeyEvent, mode: &Mode) -> (r: Option<&'a Command>)
        ensures
            r matches Some(c) ==> Some(*c) == spec_match_command(*self, *key, *mode),
            r is None ==> spec_match_command(*self, *key, *mode) is None,
    {
        if self.filter.match_mode(mode) && *key == self.key {
            Some(&self.command)
        } else {
            None
        }
    }
}

impl Command {
    /// Looks the key up in the binding table for the current mode: the
    /// first binding in table order whose filter matches and whose chord
    /// equals the key.  `None` means no command is bound.
    pub fn map<'a>(key_event: &KeyEvent, mode: &Mode, bindings: &'a Vec<Binding>) -> (r: Option<
        &'a Command,
    >)
        ensures
            r matches Some(c) ==> Some(*c) == spec_map_command(bindings@, *key_event, *mode),
            r is None ==> spec_map_command(bindings@, *key_event, *mode) is None,
    {
        let n = bindings.len();
        let mut i: usize = 0;
        proof {
            assert(bindings@.skip(0) =~= bindings@);
        }
        while i < n
            invariant
                i <= n,
                n == bindings@.len(),
                spec_map_command(bindings@, *key_event, *mode) == spec_map_command(
                    bindings@.skip(i as int),
                    *key_event,
                    *mode,
                ),
            decreases n - i,
        {
            proof {
                assert(bindings@.skip(i as int)[0] == bindings@[i as int]);
                assert(bindings@.skip(i as int).drop_first() =~= bindings@.skip(i as int + 1));
            }
            match bindings[i].match_command(key_event, mode) {
                Some(c) => {
                    return Some(c);
                }
                None => {}
            }
            i = i + 1;
        }
        proof {
            assert(bindings@.skip(n as int).len() == 0);
        }
        None
    }
}

/// Reads a textual command line into a command.  No textual commands exist
/// yet, so every input maps to no command.
pub fn input_into_command(_text: &str) -> (r: Option<Command>)
    ensures
        r is None,
{
    None
}

} // verus!
