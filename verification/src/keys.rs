//! The key model and the static binding table.
//!
//! Keys are modelled as plain values; the terminal adapter converts its own
//! key events into these before handing them to the library.

use crate::command::Binding;
use crate::command::ColumnKind;
use crate::command::Command;
use crate::command::Dir;
use crate::command::Filter;
use crate::command::MoveCursor;
use crate::mode::Mode;
use vstd::prelude::*;

verus! {

/// A key, as the editor sees it.
#[derive(Clone, Copy, Debug, PartialEq, Eq, Structural)]
pub enum KeyCode {
    Backspace,
    Enter,
    Left,
    Right,
    Up,
    Down,
    Home,
    End,
    PageUp,
    PageDown,
    Tab,
    BackTab,
    Delete,
    Insert,
    F(u8),
    Char(char),
    Null,
    Esc,
}

/// The modifier keys held together with a key.
#[derive(Clone, Copy, Debug, PartialEq, Eq, Structural)]
pub struct KeyModifiers {
    pub shift: bool,
    pub control: bool,
    pub alt: bool,
}

impl KeyModifiers {
    /// No modifier held.
    pub fn none() -> (r: KeyModifiers)
        ensures
            r == (KeyModifiers { shift: false, control: false, alt: false }),
    {
        KeyModifiers { shift: false, control: false, alt: false }
    }

    /// Shift alone.
    pub fn shift() -> (r: KeyModifiers)
        ensures
            r == (KeyModifiers { shift: true, control: false, alt: false }),
    {
        KeyModifiers { shift: true, control: false, alt: false }
    }

    /// Control alone.
    pub fn control() -> (r: KeyModifiers)
        ensures
            r == (KeyModifiers { shift: false, control: true, alt: false }),
    {
        KeyModifiers { shift: false, control: true, alt: false }
    }
}

/// A key chord: the key plus the modifiers held with it.
#[derive(Clone, Copy, Debug, PartialEq, Eq, Structural)]
pub struct KeyEvent {
    pub code: KeyCode,
    pub modifiers: KeyModifiers,
}

impl KeyEvent {
    /// A chord from a key and modifiers.
    pub fn new(code: KeyCode, modifiers: KeyModifiers) -> (r: KeyEvent)
        ensures
            r == (KeyEvent { code, modifiers }),
    {
        KeyEvent { code, modifiers }
    }

    /// A plain character key with no modifiers.
    pub fn plain(c: char) -> (r: KeyEvent)
        ensures
            r == (KeyEvent { code: KeyCode::Char(c), modifiers: KeyModifiers {
                shift: false,
                control: false,
                alt: false,
            } }),
    {
        KeyEvent { code: KeyCode::Char(c), modifiers: KeyModifiers::none() }
    }
}

/// A chord of a bare key.
pub open spec fn chord(code: KeyCode) -> KeyEvent {
    KeyEvent { code, modifiers: KeyModifiers { shift: false, control: false, alt: false } }
}

/// A chord held with shift.
pub open spec fn shifted(code: KeyCode) -> KeyEvent {
    KeyEvent { code, modifiers: KeyModifiers { shift: true, control: false, alt: false } }
}

/// A chord held with control.
pub open spec fn ctrl(code: KeyCode) -> KeyEvent {
    KeyEvent { code, modifiers: KeyModifiers { shift: false, control: true, alt: false } }
}

/// The exact content of the binding table, entry by entry.
pub open spec fn spec_bindings_table(r: Seq<Binding>) -> bool {
    &&& r.len() == 34
    // Global keys
    &&& r[0].key == ctrl(KeyCode::Char('q')) && r[0].command is Quit && r[0].filter is Global
    &&& r[1].key == ctrl(KeyCode::Char('a')) && r[1].command is ToggleCrossOver && r[1].filter
        is Global
    // Cursor mode
    &&& r[2].key == chord(KeyCode::Char('h')) && (r[2].command matches Command::MoveCursor(
        MoveCursor::Dir(Dir::Left),
    )) && (r[2].filter matches Filter::Mode(Mode::Cursor))
    &&& r[3].key == chord(KeyCode::Char('l')) && (r[3].command matches Command::MoveCursor(
        MoveCursor::Dir(Dir::Right),
    )) && (r[3].filter matches Filter::Mode(Mode::Cursor))
    &&& r[4].key == chord(KeyCode::Char('j')) && (r[4].command matches Command::MoveCursor(
        MoveCursor::Dir(Dir::Down),
    )) && (r[4].filter matches Filter::Mode(Mode::Cursor))
    &&& r[5].key == chord(KeyCode::Char('k')) && (r[5].command matches Command::MoveCursor(
        MoveCursor::Dir(Dir::Up),
    )) && (r[5].filter matches Filter::Mode(Mode::Cursor))
    &&& r[6].key == chord(KeyCode::Char('i')) && r[6].command is InsertMode && (r[6].filter
        matches Filter::Mode(Mode::Cursor))
    &&& r[7].key == chord(KeyCode::Char('a')) && (r[7].command matches Command::Multi(v)
        && v@.len() == 2 && v@[0] is InsertMode && (v@[1] matches Command::MoveCursor(
        MoveCursor::Dir(Dir::Right),
    ))) && (r[7].filter matches Filter::Mode(Mode::Cursor))
    &&& r[8].key == chord(KeyCode::Char('t')) && r[8].command is TimeMode && (r[8].filter
        matches Filter::Mode(Mode::Cursor))
    &&& r[9].key == chord(KeyCode::Char('o')) && (r[9].command matches Command::Multi(v)
        && v@.len() == 2 && v@[0] is InsertTimeBoxBelow && v@[1] is InsertMode) && (r[9].filter
        matches Filter::Mode(Mode::Cursor))
    &&& r[10].key == shifted(KeyCode::Char('O')) && (r[10].command matches Command::Multi(v)
        && v@.len() == 2 && v@[0] is InsertTimeBoxAbove && v@[1] is InsertMode) && (r[10].filter
        matches Filter::Mode(Mode::Cursor))
    &&& r[11].key == shifted(KeyCode::Char('I')) && (r[11].command matches Command::Multi(v)
        && v@.len() == 2 && (v@[0] matches Command::GoToColumn(ColumnKind::Index(0))) && v@[1]
        is InsertMode) && (r[11].filter matches Filter::Mode(Mode::Cursor))
    &&& r[12].key == shifted(KeyCode::Char('A')) && (r[12].command matches Command::Multi(v)
        && v@.len() == 2 && (v@[0] matches Command::GoToColumn(ColumnKind::Last)) && v@[1]
        is InsertMode) && (r[12].filter matches Filter::Mode(Mode::Cursor))
    &&& r[13].key == chord(KeyCode::Char('g')) && r[13].command is GoToMode && (r[13].filter
        matches Filter::Mode(Mode::Cursor))
    &&& r[14].key == chord(KeyCode::Char('d')) && r[14].command is DeleteMode && (r[14].filter
        matches Filter::Mode(Mode::Cursor))
    &&& r[15].key == chord(KeyCode::Char('p')) && (r[15].command matches Command::Multi(v)
        && v@.len() == 2 && v@[0] is PasteBelow && (v@[1] matches Command::MoveCursor(
        MoveCursor::Dir(Dir::Down),
    ))) && (r[15].filter matches Filter::Mode(Mode::Cursor))
    &&& r[16].key == shifted(KeyCode::Char('P')) && r[16].command is PasteAbove && (r[16].filter
        matches Filter::Mode(Mode::Cursor))
    // Time mode
    &&& r[17].key == chord(KeyCode::Char('i')) && r[17].command is InsertMode && (r[17].filter
        matches Filter::Mode(Mode::Time))
    &&& r[18].key == chord(KeyCode::Char('t')) && r[18].command is MoveTimeCursor && (r[18].filter
        matches Filter::Mode(Mode::Time))
    &&& r[19].key == chord(KeyCode::Char('h')) && (r[19].command matches Command::AdjustTime {
        hours: -1,
        minutes: 0,
    }) && (r[19].filter matches Filter::Mode(Mode::Time))
    &&& r[20].key == chord(KeyCode::Char('l')) && (r[20].command matches Command::AdjustTime {
        hours: 1,
        minutes: 0,
    }) && (r[20].filter matches Filter::Mode(Mode::Time))
    &&& r[21].key == chord(KeyCode::Char('j')) && (r[21].command matches Command::AdjustTime {
        hours: 0,
        minutes: 15,
    }) && (r[21].filter matches Filter::Mode(Mode::Time))
    &&& r[22].key == chord(KeyCode::Char('k')) && (r[22].command matches Command::AdjustTime {
        hours: 0,
        minutes: -15,
    }) && (r[22].filter matches Filter::Mode(Mode::Time))
    &&& r[23].key == chord(KeyCode::Esc) && r[23].command is CursorMode && (r[23].filter
        matches Filter::Mode(Mode::Time))
    &&& r[24].key == chord(KeyCode::Char('f')) && r[24].command is ToggleTimeAdjustPolicyFixed
        && (r[24].filter matches Filter::Mode(Mode::Time))
    &&& r[25].key == chord(KeyCode::Char('s')) && r[25].command is ToggleBetweenSpanAndTime
        && (r[25].filter matches Filter::Mode(Mode::Time))
    &&& r[26].key == chord(KeyCode::Char('r')) && r[26].command is SwapTimeSubMode && (r[26].filter
        matches Filter::Mode(Mode::Time))
    // Insert mode
    &&& r[27].key == chord(KeyCode::Esc) && (r[27].command matches Command::Multi(v) && v@.len()
        == 2 && (v@[0] matches Command::MoveCursor(MoveCursor::Dir(Dir::Left))) && v@[1]
        is CursorMode) && (r[27].filter matches Filter::Mode(Mode::Insert))
    // Delete mode
    &&& r[28].key == chord(KeyCode::Char('d')) && r[28].command is CutCurrentLine && (r[28].filter
        matches Filter::Mode(Mode::Delete))
    &&& r[29].key == chord(KeyCode::Char('t')) && r[29].command is DeleteTime && (r[29].filter
        matches Filter::Mode(Mode::Delete))
    // Arrows in insert and cursor modes
    &&& r[30].key == chord(KeyCode::Down) && (r[30].command matches Command::MoveCursor(
        MoveCursor::Dir(Dir::Down),
    )) && (r[30].filter matches Filter::Modes(ms) && ms@ == seq![Mode::Insert, Mode::Cursor])
    &&& r[31].key == chord(KeyCode::Up) && (r[31].command matches Command::MoveCursor(
        MoveCursor::Dir(Dir::Up),
    )) && (r[31].filter matches Filter::Modes(ms) && ms@ == seq![Mode::Insert, Mode::Cursor])
    &&& r[32].key == chord(KeyCode::Left) && (r[32].command matches Command::MoveCursor(
        MoveCursor::Dir(Dir::Left),
    )) && (r[32].filter matches Filter::Modes(ms) && ms@ == seq![Mode::Insert, Mode::Cursor])
    &&& r[33].key == chord(KeyCode::Right) && (r[33].command matches Command::MoveCursor(
        MoveCursor::Dir(Dir::Right),
    )) && (r[33].filter matches Filter::Modes(ms) && ms@ == seq![Mode::Insert, Mode::Cursor])
}

fn bind(code: KeyCode, modifiers: KeyModifiers, command: Command, filter: Filter) -> (r: Binding)
    ensures
        r == (Binding { key: KeyEvent { code, modifiers }, command, filter }),
{
    Binding { key: KeyEvent { code, modifiers }, command, filter }
}

fn bind_key(c: char, command: Command, filter: Filter) -> (r: Binding)
    ensures
        r == (Binding { key: chord(KeyCode::Char(c)), command, filter }),
{
    bind(KeyCode::Char(c), KeyModifiers::none(), command, filter)
}

fn arrow_modes() -> (r: Vec<Mode>)
    ensures
        r@ == seq![Mode::Insert, Mode::Cursor],
{
    let mut modes: Vec<Mode> = Vec::new();
    modes.push(Mode::Insert);
    modes.push(Mode::Cursor);
    proof {
        assert(modes@ =~= seq![Mode::Insert, Mode::Cursor]);
    }
    modes
}

/// The editor's binding table, in lookup order.
///
/// Global: ctrl+q quits, ctrl+a toggles cross-out.  Cursor mode: h/j/k/l
/// move, i/a enter insert, t enters time mode, o/O open a line below/above,
/// I/A jump to first/last column and insert, g and d enter the transient
/// go-to and delete modes, p/P paste below/above.  Time mode: h/l adjust by
/// an hour, j/k by 15 minutes, t moves the time cursor, r swaps
/// relative/absolute, f pins, s toggles span, Esc leaves.  Delete mode: d
/// cuts the line, t deletes the time.  Arrows move in insert and cursor
/// modes.
pub fn bindings() -> (r: Vec<Binding>)
    ensures
        spec_bindings_table(r@),
        forall|i: int| 0 <= i < r@.len() ==> crate::command::supported_command(
            (#[trigger] r@[i]).command,
        ),
{
    let mut v: Vec<Binding> = Vec::new();
    // Global keys
    v.push(bind(KeyCode::Char('q'), KeyModifiers::control(), Command::Quit, Filter::Global));
    v.push(
        bind(KeyCode::Char('a'), KeyModifiers::control(), Command::ToggleCrossOver, Filter::Global),
    );
    // Cursor mode
    v.push(
        bind_key('h', Command::MoveCursor(MoveCursor::Dir(Dir::Left)), Filter::Mode(Mode::Cursor)),
    );
    v.push(
        bind_key('l', Command::MoveCursor(MoveCursor::Dir(Dir::Right)), Filter::Mode(Mode::Cursor)),
    );
    v.push(
        bind_key('j', Command::MoveCursor(MoveCursor::Dir(Dir::Down)), Filter::Mode(Mode::Cursor)),
    );
    v.push(
        bind_key('k', Command::MoveCursor(MoveCursor::Dir(Dir::Up)), Filter::Mode(Mode::Cursor)),
    );
    v.push(bind_key('i', Command::InsertMode, Filter::Mode(Mode::Cursor)));
    let mut append_insert: Vec<Command> = Vec::new();
    append_insert.push(Command::InsertMode);
    append_insert.push(Command::MoveCursor(MoveCursor::Dir(Dir::Right)));
    v.push(bind_key('a', Command::Multi(append_insert), Filter::Mode(Mode::Cursor)));
    v.push(bind_key('t', Command::TimeMode, Filter::Mode(Mode::Cursor)));
    let mut open_below: Vec<Command> = Vec::new();
    open_below.push(Command::InsertTimeBoxBelow);
    open_below.push(Command::InsertMode);
    v.push(bind_key('o', Command::Multi(open_below), Filter::Mode(Mode::Cursor)));
    let mut open_above: Vec<Command> = Vec::new();
    open_above.push(Command::InsertTimeBoxAbove);
    open_above.push(Command::InsertMode);
    v.push(
        bind(
            KeyCode::Char('O'),
            KeyModifiers::shift(),
            Command::Multi(open_above),
            Filter::Mode(Mode::Cursor),
        ),
    );
    let mut insert_first: Vec<Command> = Vec::new();
    insert_first.push(Command::GoToColumn(ColumnKind::Index(0)));
    insert_first.push(Command::InsertMode);
    v.push(
        bind(
            KeyCode::Char('I'),
            KeyModifiers::shift(),
            Command::Multi(insert_first),
            Filter::Mode(Mode::Cursor),
        ),
    );
    let mut insert_last: Vec<Command> = Vec::new();
    insert_last.push(Command::GoToColumn(ColumnKind::Last));
    insert_last.push(Command::InsertMode);
    v.push(
        bind(
            KeyCode::Char('A'),
            KeyModifiers::shift(),
            Command::Multi(insert_last),
            Filter::Mode(Mode::Cursor),
        ),
    );
    v.push(bind(KeyCode::Char('g'), KeyModifiers::none(), Command::GoToMode, Filter::Mode(Mode::Cursor)));
    v.push(
        bind(KeyCode::Char('d'), KeyModifiers::none(), Command::DeleteMode, Filter::Mode(Mode::Cursor)),
    );
    let mut paste_below: Vec<Command> = Vec::new();
    paste_below.push(Command::PasteBelow);
    paste_below.push(Command::MoveCursor(MoveCursor::Dir(Dir::Down)));
    v.push(bind_key('p', Command::Multi(paste_below), Filter::Mode(Mode::Cursor)));
    v.push(
        bind(
            KeyCode::Char('P'),
            KeyModifiers::shift(),
            Command::PasteAbove,
            Filter::Mode(Mode::Cursor),
        ),
    );
    // Time mode
    v.push(bind_key('i', Command::InsertMode, Filter::Mode(Mode::Time)));
    v.push(bind_key('t', Command::MoveTimeCursor, Filter::Mode(Mode::Time)));
    v.push(
        bind_key('h', Command::AdjustTime { hours: -1, minutes: 0 }, Filter::Mode(Mode::Time)),
    );
    v.push(bind_key('l', Command::AdjustTime { hours: 1, minutes: 0 }, Filter::Mode(Mode::Time)));
    v.push(bind_key('j', Command::AdjustTime { hours: 0, minutes: 15 }, Filter::Mode(Mode::Time)));
    v.push(
        bind_key('k', Command::AdjustTime { hours: 0, minutes: -15 }, Filter::Mode(Mode::Time)),
    );
    v.push(bind(KeyCode::Esc, KeyModifiers::none(), Command::CursorMode, Filter::Mode(Mode::Time)));
    v.push(bind_key('f', Command::ToggleTimeAdjustPolicyFixed, Filter::Mode(Mode::Time)));
    v.push(bind_key('s', Command::ToggleBetweenSpanAndTime, Filter::Mode(Mode::Time)));
    v.push(bind_key('r', Command::SwapTimeSubMode, Filter::Mode(Mode::Time)));
    // Insert mode
    let mut leave_insert: Vec<Command> = Vec::new();
    leave_insert.push(Command::MoveCursor(MoveCursor::Dir(Dir::Left)));
    leave_insert.push(Command::CursorMode);
    v.push(
        bind(KeyCode::Esc, KeyModifiers::none(), Command::Multi(leave_insert), Filter::Mode(Mode::Insert)),
    );
    // Delete mode
    v.push(
        bind(KeyCode::Char('d'), KeyModifiers::none(), Command::CutCurrentLine, Filter::Mode(Mode::Delete)),
    );
    v.push(bind_key('t', Command::DeleteTime, Filter::Mode(Mode::Delete)));
    // Multiple modes
    v.push(
        bind(
            KeyCode::Down,
            KeyModifiers::none(),
            Command::MoveCursor(MoveCursor::Dir(Dir::Down)),
            Filter::Modes(arrow_modes()),
        ),
    );
    v.push(
        bind(
            KeyCode::Up,
            KeyModifiers::none(),
            Command::MoveCursor(MoveCursor::Dir(Dir::Up)),
            Filter::Modes(arrow_modes()),
        ),
    );
    v.push(
        bind(
            KeyCode::Left,
            KeyModifiers::none(),
            Command::MoveCursor(MoveCursor::Dir(Dir::Left)),
            Filter::Modes(arrow_modes()),
        ),
    );
    v.push(
        bind(
            KeyCode::Right,
            KeyModifiers::none(),
            Command::MoveCursor(MoveCursor::Dir(Dir::Right)),
            Filter::Modes(arrow_modes()),
        ),
    );
    proof {
        assert(spec_bindings_table(v@));
        assert forall|i: int| 0 <= i < v@.len() implies crate::command::supported_command(
            (#[trigger] v@[i]).command,
        ) by {
            assert(spec_bindings_table(v@));
        }
    }
    v
}

} // verus!
