//! Keys, the actions they stand for, and the table that maps one to the other.

use vstd::prelude::*;

use crate::text::{from_char, join3};

verus! {

/// A key of the keyboard, as far as the browser tells keys apart.
#[derive(Copy, Clone, Debug, PartialEq, Eq, Structural)]
pub enum KeyCode {
    /// A key that produces a character.
    Char(char),
    /// The arrow pointing up.
    Up,
    /// The arrow pointing down.
    Down,
    /// Any key that the browser has no use for.
    Other,
}

/// What happened to a key.
#[derive(Copy, Clone, Debug, PartialEq, Eq, Structural)]
pub enum KeyEventKind {
    Press,
    Repeat,
    Release,
}

/// One event of the keyboard.
#[derive(Copy, Clone, Debug, PartialEq, Eq, Structural)]
pub struct KeyEvent {
    pub code: KeyCode,
    pub kind: KeyEventKind,
}

impl KeyCode {
    /// What is printed for the key in the help line.
    pub open spec fn spec_glyph(self) -> Seq<char> {
        match self {
            KeyCode::Char(c) => seq![c],
            KeyCode::Up => "\u{2191}"@,
            KeyCode::Down => "\u{2193}"@,
            KeyCode::Other => Seq::empty(),
        }
    }

    /// What is printed for the key in the help line: the character itself, an
    /// arrow for an arrow key, nothing for any other key.
    pub fn glyph(&self) -> (s: String)
        ensures
            s@ == self.spec_glyph(),
    {
        match self {
            KeyCode::Char(c) => from_char(*c),
            KeyCode::Up => String::from_str("\u{2191}"),
            KeyCode::Down => String::from_str("\u{2193}"),
            KeyCode::Other => String::new(),
        }
    }
}

impl KeyEvent {
    /// The event of `code` being pressed.
    pub fn press(code: KeyCode) -> (e: KeyEvent)
        ensures
            e == (KeyEvent { code, kind: KeyEventKind::Press }),
    {
        KeyEvent { code, kind: KeyEventKind::Press }
    }
}

/// An action that the user can ask for.
#[derive(Copy, Clone, Debug, PartialEq, Eq, Structural)]
pub enum Control {
    Switch,
    Fetch,
    Refresh,
    Up,
    Down,
    Quit,
}

impl Control {
    pub open spec fn spec_key(self) -> KeyCode {
        match self {
            Control::Switch => KeyCode::Char('s'),
            Control::Fetch => KeyCode::Char('f'),
            Control::Refresh => KeyCode::Char('r'),
            Control::Up => KeyCode::Up,
            Control::Down => KeyCode::Down,
            Control::Quit => KeyCode::Char('q'),
        }
    }

    pub open spec fn spec_display_name(self) -> Seq<char> {
        match self {
            Control::Switch => "Switch"@,
            Control::Fetch => "Fetch"@,
            Control::Refresh => "Refresh"@,
            Control::Up => "Up"@,
            Control::Down => "Down"@,
            Control::Quit => "Quit"@,
        }
    }

    /// The key between angle brackets.
    pub open spec fn spec_format_key(self) -> Seq<char> {
        "<"@ + self.spec_key().spec_glyph() + ">"@
    }

    /// The entry of the action in the help line: its label, a space, its key.
    pub open spec fn spec_help_entry(self) -> Seq<char> {
        self.spec_display_name() + " "@ + self.spec_format_key()
    }

    /// The key that asks for the action.
    pub fn key(&self) -> (k: KeyCode)
        ensures
            k == self.spec_key(),
    {
        match self {
            Control::Switch => KeyCode::Char('s'),
            Control::Fetch => KeyCode::Char('f'),
            Control::Refresh => KeyCode::Char('r'),
            Control::Up => KeyCode::Up,
            Control::Down => KeyCode::Down,
            Control::Quit => KeyCode::Char('q'),
        }
    }

    /// The label of the action.
    pub fn display_name(&self) -> (s: &'static str)
        ensures
            s@ == self.spec_display_name(),
    {
        match self {
            Control::Switch => "Switch",
            Control::Fetch => "Fetch",
            Control::Refresh => "Refresh",
            Control::Up => "Up",
            Control::Down => "Down",
            Control::Quit => "Quit",
        }
    }

    /// The key of the action as the help line shows it.
    pub fn format_key(&self) -> (s: String)
        ensures
            s@ == self.spec_format_key(),
    {
        let key_text = self.key().glyph();
        join3("<", key_text.as_str(), ">")
    }

    /// The entry of the action in the help line.
    pub fn help_entry(&self) -> (s: String)
        ensures
            s@ == self.spec_help_entry(),
    {
        let key_text = self.format_key();
        join3(self.display_name(), " ", key_text.as_str())
    }
}

/// The first action of `table` whose key is `code`, if there is one.
pub open spec fn resolve(table: Seq<Control>, code: KeyCode) -> Option<Control>
    decreases table.len(),
{
    if table.len() == 0 {
        None
    } else if table[0].spec_key() == code {
        Some(table[0])
    } else {
        resolve(table.drop_first(), code)
    }
}

/// The help line of `table`: the entries in the table's order, with a bar
/// between neighbours.
pub open spec fn help_text(table: Seq<Control>) -> Seq<char>
    decreases table.len(),
{
    if table.len() == 0 {
        Seq::empty()
    } else if table.len() == 1 {
        table[0].spec_help_entry()
    } else {
        help_text(table.drop_last()) + " | "@ + table.last().spec_help_entry()
    }
}

/// The table of the browser.
pub open spec fn standard_table() -> Seq<Control> {
    seq![
        Control::Switch,
        Control::Fetch,
        Control::Refresh,
        Control::Up,
        Control::Down,
        Control::Quit,
    ]
}

/// `resolve` finds an action of the table that has the key, and none stands
/// before it that has the key too; it finds nothing only where no action of
/// the table has the key.
pub proof fn lemma_resolve_first_match(table: Seq<Control>, code: KeyCode)
    ensures
        match resolve(table, code) {
            Some(c) => exists|i: int|
                0 <= i < table.len() && table[i] == c && c.spec_key() == code && forall|j: int|
                    0 <= j < i ==> (#[trigger] table[j]).spec_key() != code,
            None => forall|i: int| 0 <= i < table.len() ==> (#[trigger] table[i]).spec_key() != code,
        },
    decreases table.len(),
{
    if table.len() == 0 {
    } else if table[0].spec_key() == code {
        assert(table[0] == table[0] && forall|j: int|
            0 <= j < 0 ==> (#[trigger] table[j]).spec_key() != code);
    } else {
        let rest = table.drop_first();
        lemma_resolve_first_match(rest, code);
        assert(forall|i: int| 0 <= i < rest.len() ==> rest[i] == table[i + 1]);
        match resolve(rest, code) {
            Some(c) => {
                let i = choose|i: int|
                    0 <= i < rest.len() && rest[i] == c && c.spec_key() == code && forall|j: int|
                        0 <= j < i ==> (#[trigger] rest[j]).spec_key() != code;
                assert forall|j: int| 0 <= j < i + 1 implies (#[trigger] table[j]).spec_key()
                    != code by {
                    if j > 0 {
                        assert(rest[j - 1] == table[j]);
                    }
                }
                assert(table[i + 1] == c);
            },
            None => {
                assert forall|i: int| 0 <= i < table.len() implies (#[trigger] table[i]).spec_key()
                    != code by {
                    if i > 0 {
                        assert(rest[i - 1] == table[i]);
                    }
                }
            },
        }
    }
}

/// Every action of the browser's table is found again by its own key.
pub proof fn lemma_standard_table_resolves(c: Control)
    ensures
        resolve(standard_table(), c.spec_key()) == Some(c),
{
    reveal_with_fuel(resolve, 7);
}

/// The help line of the browser's table, letter by letter.
pub proof fn lemma_standard_help_text()
    ensures
        help_text(standard_table())
            == "Switch <s> | Fetch <f> | Refresh <r> | Up <\u{2191}> | Down <\u{2193}> | Quit <q>"@,
{
    reveal_strlit("Switch");
    reveal_strlit("Fetch");
    reveal_strlit("Refresh");
    reveal_strlit("Up");
    reveal_strlit("Down");
    reveal_strlit("Quit");
    reveal_strlit(" ");
    reveal_strlit("<");
    reveal_strlit(">");
    reveal_strlit(" | ");
    reveal_strlit("\u{2191}");
    reveal_strlit("\u{2193}");
    reveal_strlit("Switch <s> | Fetch <f> | Refresh <r> | Up <\u{2191}> | Down <\u{2193}> | Quit <q>");
    let table = standard_table();
    let one = table.take(1);
    let two = table.take(2);
    let three = table.take(3);
    let four = table.take(4);
    let five = table.take(5);
    assert(table.drop_last() =~= five);
    assert(five.drop_last() =~= four);
    assert(four.drop_last() =~= three);
    assert(three.drop_last() =~= two);
    assert(two.drop_last() =~= one);
    assert(help_text(one) =~= "Switch <s>"@) by {
        reveal_strlit("Switch <s>");
    }
    assert(help_text(two) =~= "Switch <s> | Fetch <f>"@) by {
        reveal_strlit("Switch <s> | Fetch <f>");
    }
    assert(help_text(three) =~= "Switch <s> | Fetch <f> | Refresh <r>"@) by {
        reveal_strlit("Switch <s> | Fetch <f> | Refresh <r>");
    }
    assert(help_text(four) =~= "Switch <s> | Fetch <f> | Refresh <r> | Up <\u{2191}>"@) by {
        reveal_strlit("Switch <s> | Fetch <f> | Refresh <r> | Up <\u{2191}>");
    }
    assert(help_text(five)
        =~= "Switch <s> | Fetch <f> | Refresh <r> | Up <\u{2191}> | Down <\u{2193}>"@) by {
        reveal_strlit("Switch <s> | Fetch <f> | Refresh <r> | Up <\u{2191}> | Down <\u{2193}>");
    }
    assert(help_text(table)
        =~= "Switch <s> | Fetch <f> | Refresh <r> | Up <\u{2191}> | Down <\u{2193}> | Quit <q>"@);
}

/// The actions and their keys, in the order of the help line.
pub struct Controls {
    controls: Vec<Control>,
}

impl View for Controls {
    type V = Seq<Control>;

    closed spec fn view(&self) -> Seq<Control> {
        self.controls@
    }
}

impl Controls {
    /// The table of the browser.
    pub fn new() -> (table: Self)
        ensures
            table@ == standard_table(),
    {
        let mut controls: Vec<Control> = Vec::new();
        controls.push(Control::Switch);
        controls.push(Control::Fetch);
        controls.push(Control::Refresh);
        controls.push(Control::Up);
        controls.push(Control::Down);
        controls.push(Control::Quit);
        assert(controls@ =~= standard_table());
        Self { controls }
    }

    /// The help line.
    pub fn format_help(&self) -> (s: String)
        ensures
            s@ == help_text(self@),
    {
        let mut out = String::new();
        let mut i: usize = 0;
        while i < self.controls.len()
            invariant
                i <= self.controls.len(),
                out@ == help_text(self.controls@.take(i as int)),
            decreases self.controls.len() - i,
        {
            let entry = self.controls[i].help_entry();
            proof {
                let before = self.controls@.take(i as int);
                let after = self.controls@.take(i + 1);
                assert(after.drop_last() =~= before);
                assert(after.last() == self.controls@[i as int]);
                if i == 0 {
                    assert(out@ + entry@ =~= entry@);
                }
            }
            if i > 0 {
                out.append(" | ");
            }
            out.append(entry.as_str());
            i += 1;
        }
        proof {
            assert(self.controls@.take(i as int) =~= self.controls@);
        }
        out
    }

    /// The action that `code` asks for: the first of the table with that key.
    pub fn handle_key(&self, code: KeyCode) -> (action: Option<Control>)
        ensures
            action == resolve(self@, code),
    {
        let mut i: usize = 0;
        proof {
            assert(self.controls@.skip(0) =~= self.controls@);
        }
        while i < self.controls.len()
            invariant
                i <= self.controls.len(),
                resolve(self.controls@, code) == resolve(self.controls@.skip(i as int), code),
            decreases self.controls.len() - i,
        {
            let control = self.controls[i];
            proof {
                let rest = self.controls@.skip(i as int);
                assert(rest[0] == self.controls@[i as int]);
                assert(rest.drop_first() =~= self.controls@.skip(i + 1));
            }
            if control.key() == code {
                return Some(control);
            }
            i += 1;
        }
        proof {
            assert(self.controls@.skip(i as int).len() == 0);
        }
        None
    }
}

} // verus!
