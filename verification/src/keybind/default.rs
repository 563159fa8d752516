//! The default key map.
//!
//! Keys are taken by a machine with four states:
//!
//! | State        | '/'          | 1-9       | a command key | Enter | Esc   | command complete |
//! | ------------ | ------------ | --------- | ------------- | ----- | ----- | ---------------- |
//! | Ready        | IncSearching | Numbering | Commanding    | -     | -     | -                |
//! | IncSearching | -            | -         | -             | Ready | Ready | -                |
//! | Numbering    | -            | -         | Commanding    | Ready | Ready | -                |
//! | Commanding   | -            | -         | -             | -     | -     | Ready            |
//!
//! What a key does is [`step`]: from the machine and the key to the machine
//! after it and the event, if there is one.

use vstd::prelude::*;
use crate::event::{event_view, EventView, PeepEvent};
use crate::keybind::{Key, KeyParser};

verus! {

/// The state of the machine.
#[derive(Copy, Clone, Debug, PartialEq, Eq, Structural)]
pub enum State {
    /// Nothing is begun.
    Ready,
    /// The pattern of a search is being typed.
    IncSearching,
    /// A count is being typed.
    Numbering,
    /// The keys of a command are being typed.
    Commanding,
}

/// A binding: the keys of a command and the event that they stand for.
pub struct Binding {
    pub keys: Vec<Key>,
    pub event: PeepEvent,
}

/// What a binding says.
pub struct BindingView {
    pub keys: Seq<Key>,
    pub event: EventView,
}

impl View for Binding {
    type V = BindingView;

    open spec fn view(&self) -> BindingView {
        BindingView { keys: self.keys@, event: self.event@ }
    }
}

/// What a table of bindings says.
pub open spec fn table_view(table: Seq<Binding>) -> Seq<BindingView> {
    table.map_values(|b: Binding| b@)
}

/// The machine: its state, the count typed so far, the pattern typed so far,
/// the keys of the command typed so far, and the table of commands.
pub struct Machine {
    pub state: State,
    pub number: u16,
    pub text: Seq<char>,
    pub pending: Seq<Key>,
    pub table: Seq<BindingView>,
}

/// What the table holds for a sequence of keys.
pub enum Lookup {
    /// The keys are a command, with this event.
    Exact(EventView),
    /// The keys are no command, but the beginning of one.
    Partial,
    /// The keys are neither.
    NoMatch,
}

/// Whether `a` is the beginning of `b`, and shorter.
pub open spec fn is_strict_prefix(a: Seq<Key>, b: Seq<Key>) -> bool {
    a.len() < b.len() && b.take(a.len() as int) == a
}

/// The event of the first binding from the index `from` on whose keys are
/// `keys`.
pub open spec fn exact_from(table: Seq<BindingView>, keys: Seq<Key>, from: int) -> Option<
    EventView,
>
    decreases table.len() - from,
{
    if from < 0 || from >= table.len() {
        None
    } else if table[from].keys == keys {
        Some(table[from].event)
    } else {
        exact_from(table, keys, from + 1)
    }
}

/// Whether some binding begins with `keys` and goes on.
pub open spec fn begins_some(table: Seq<BindingView>, keys: Seq<Key>) -> bool {
    exists|i: int| 0 <= i < table.len() && is_strict_prefix(keys, #[trigger] table[i].keys)
}

/// What `table` holds for `keys`.
pub open spec fn lookup(table: Seq<BindingView>, keys: Seq<Key>) -> Lookup {
    match exact_from(table, keys, 0) {
        Some(event) => Lookup::Exact(event),
        None => if begins_some(table, keys) {
            Lookup::Partial
        } else {
            Lookup::NoMatch
        },
    }
}

/// The binding of the single key `k` to `event`.
pub open spec fn bound(k: Key, event: EventView) -> BindingView {
    BindingView { keys: seq![k], event }
}

/// The default table of commands.
pub open spec fn default_table() -> Seq<BindingView> {
    Seq::<BindingView>::empty()
        .push(bound(Key::Char('j'), EventView::MoveDown(1)))
        .push(bound(Key::Ctrl('j'), EventView::MoveDown(1)))
        .push(bound(Key::Ctrl('n'), EventView::MoveDown(1)))
        .push(bound(Key::Char('k'), EventView::MoveUp(1)))
        .push(bound(Key::Ctrl('k'), EventView::MoveUp(1)))
        .push(bound(Key::Ctrl('p'), EventView::MoveUp(1)))
        .push(bound(Key::Char('h'), EventView::MoveLeft(1)))
        .push(bound(Key::Char('l'), EventView::MoveRight(1)))
        .push(bound(Key::Char('d'), EventView::MoveDownHalfPages(1)))
        .push(bound(Key::Ctrl('d'), EventView::MoveDownHalfPages(1)))
        .push(bound(Key::Char('u'), EventView::MoveUpHalfPages(1)))
        .push(bound(Key::Ctrl('u'), EventView::MoveUpHalfPages(1)))
        .push(bound(Key::Char('H'), EventView::MoveLeftHalfPages(1)))
        .push(bound(Key::Char('L'), EventView::MoveRightHalfPages(1)))
        .push(bound(Key::Char('f'), EventView::MoveDownPages(1)))
        .push(bound(Key::Ctrl('f'), EventView::MoveDownPages(1)))
        .push(bound(Key::Char(' '), EventView::MoveDownPages(1)))
        .push(bound(Key::Char('b'), EventView::MoveUpPages(1)))
        .push(bound(Key::Ctrl('b'), EventView::MoveUpPages(1)))
        .push(bound(Key::Char('0'), EventView::MoveToHeadOfLine))
        .push(bound(Key::Ctrl('a'), EventView::MoveToHeadOfLine))
        .push(bound(Key::Char('$'), EventView::MoveToEndOfLine))
        .push(bound(Key::Ctrl('e'), EventView::MoveToEndOfLine))
        .push(bound(Key::Char('g'), EventView::MoveToTopOfLines))
        .push(bound(Key::Char('G'), EventView::MoveToBottomOfLines))
        .push(bound(Key::Char('#'), EventView::ToggleLineNumberPrinting))
        .push(bound(Key::Char('!'), EventView::ToggleLineWraps))
        .push(bound(Key::Char('-'), EventView::DecrementLines(1)))
        .push(bound(Key::Char('+'), EventView::IncrementLines(1)))
        .push(bound(Key::Char('='), EventView::SetNumOfLines(0)))
        .push(bound(Key::Char('n'), EventView::SearchNext))
        .push(bound(Key::Char('N'), EventView::SearchPrev))
        .push(bound(Key::Char('q'), EventView::Quit))
        .push(bound(Key::Char('Q'), EventView::QuitWithClear))
        .push(bound(Key::Char('F'), EventView::FollowMode))
}

/// The count that `number` stands for where a command moves or resizes: one
/// where none was typed.
pub open spec fn count(number: u16) -> u16 {
    if number == 0 {
        1
    } else {
        number
    }
}

/// The event of a command with the count `number`, where 0 says that none
/// was typed.
///
/// A movement or a change of height takes the count, or one. A jump to the
/// top or to the bottom stays as it is without a count, and with the count
/// `n` goes to the line with the index `n - 1`. The height is set to the
/// count, and without one there is no event.
pub open spec fn combine(event: EventView, number: u16) -> Option<EventView> {
    match event {
        EventView::MoveDown(_) => Some(EventView::MoveDown(count(number))),
        EventView::MoveUp(_) => Some(EventView::MoveUp(count(number))),
        EventView::MoveLeft(_) => Some(EventView::MoveLeft(count(number))),
        EventView::MoveRight(_) => Some(EventView::MoveRight(count(number))),
        EventView::MoveDownHalfPages(_) => Some(EventView::MoveDownHalfPages(count(number))),
        EventView::MoveUpHalfPages(_) => Some(EventView::MoveUpHalfPages(count(number))),
        EventView::MoveLeftHalfPages(_) => Some(EventView::MoveLeftHalfPages(count(number))),
        EventView::MoveRightHalfPages(_) => Some(EventView::MoveRightHalfPages(count(number))),
        EventView::MoveDownPages(_) => Some(EventView::MoveDownPages(count(number))),
        EventView::MoveUpPages(_) => Some(EventView::MoveUpPages(count(number))),
        EventView::MoveToTopOfLines | EventView::MoveToBottomOfLines => if number == 0 {
            Some(event)
        } else {
            Some(EventView::MoveToLineNumber((number - 1) as u16))
        },
        EventView::MoveToLineNumber(_) => Some(EventView::MoveToLineNumber(count(number))),
        EventView::IncrementLines(_) => Some(EventView::IncrementLines(count(number))),
        EventView::DecrementLines(_) => Some(EventView::DecrementLines(count(number))),
        EventView::SetNumOfLines(_) => if number == 0 {
            None
        } else {
            Some(EventView::SetNumOfLines(number))
        },
        _ => Some(event),
    }
}

/// The value of the decimal digit `c`.
pub open spec fn digit_value(c: char) -> u16 {
    (c as u32 - '0' as u32) as u16
}

/// Whether `c` is a decimal digit.
pub open spec fn is_digit(c: char) -> bool {
    '0' <= c <= '9'
}

/// The count after the digit `c` was typed behind `number`; it stops at the
/// largest `u16`.
pub open spec fn fold_digit(number: u16, c: char) -> u16 {
    let n = number * 10 + digit_value(c);
    if n > u16::MAX {
        u16::MAX
    } else {
        n as u16
    }
}

impl Machine {
    /// The machine with nothing begun.
    pub open spec fn ready(self) -> Machine {
        Machine { state: State::Ready, number: 0, text: seq![], pending: seq![], ..self }
    }

    /// The machine with the table `table` and nothing begun.
    pub open spec fn fresh(table: Seq<BindingView>) -> Machine {
        Machine { state: State::Ready, number: 0, text: seq![], pending: seq![], table }
    }

    /// A key of a command: the keys typed so far and `k` are looked up in
    /// the table. A command gives its event, with the count; the beginning
    /// of one waits for more; anything else clears the message.
    pub open spec fn commanding(self, k: Key) -> (Machine, Option<EventView>) {
        let keys = self.pending.push(k);
        match lookup(self.table, keys) {
            Lookup::Exact(event) => (self.ready(), combine(event, self.number)),
            Lookup::Partial => (
                Machine { state: State::Commanding, text: seq![], pending: keys, ..self },
                None,
            ),
            Lookup::NoMatch => (self.ready(), Some(EventView::Message(None))),
        }
    }

    /// A key while nothing is begun.
    pub open spec fn from_ready(self, k: Key) -> (Machine, Option<EventView>) {
        match k {
            Key::Char(c) => if c == '/' {
                (
                    Machine { state: State::IncSearching, ..self.ready() },
                    Some(EventView::SearchIncremental(seq![])),
                )
            } else if '1' <= c <= '9' {
                (
                    Machine { state: State::Numbering, number: digit_value(c), ..self.ready() },
                    None,
                )
            } else {
                self.ready().commanding(k)
            },
            Key::Ctrl(_) => self.ready().commanding(k),
            Key::Esc => (self, Some(EventView::Cancel)),
            _ => (self, None),
        }
    }

    /// A key while a count is being typed.
    pub open spec fn from_numbering(self, k: Key) -> (Machine, Option<EventView>) {
        match k {
            Key::Char(c) => if is_digit(c) {
                (Machine { number: fold_digit(self.number, c), ..self }, None)
            } else if c == '\n' {
                (self.ready(), None)
            } else {
                (Machine { text: seq![], pending: seq![], ..self }).commanding(k)
            },
            Key::Esc => (self.ready(), None),
            Key::Ctrl(_) => (Machine { text: seq![], pending: seq![], ..self }).commanding(k),
            _ => (self, None),
        }
    }

    /// A key while the pattern of a search is being typed.
    pub open spec fn from_incsearching(self, k: Key) -> (Machine, Option<EventView>) {
        match k {
            Key::Char(c) => if c == '\n' {
                (self.ready(), Some(EventView::SearchTrigger))
            } else {
                (
                    Machine { text: self.text.push(c), ..self },
                    Some(EventView::SearchIncremental(self.text.push(c))),
                )
            },
            Key::Backspace | Key::Delete => if self.text.len() == 0 {
                (self.ready(), Some(EventView::Cancel))
            } else {
                (
                    Machine { text: self.text.drop_last(), ..self },
                    Some(EventView::SearchIncremental(self.text.drop_last())),
                )
            },
            Key::Esc => (self.ready(), Some(EventView::Cancel)),
            _ => (self, None),
        }
    }

    /// What the key `k` does: the machine after it, and the event that it
    /// completes.
    pub open spec fn step(self, k: Key) -> (Machine, Option<EventView>) {
        match self.state {
            State::Ready => self.from_ready(k),
            State::IncSearching => self.from_incsearching(k),
            State::Numbering => self.from_numbering(k),
            State::Commanding => self.commanding(k),
        }
    }
}

impl Machine {
    /// Each state holds only what belongs to it: a count while one is typed
    /// or a command follows it, a pattern while one is typed, and keys
    /// while a command is typed.
    pub open spec fn wf(self) -> bool {
        match self.state {
            State::Ready => self.number == 0 && self.text.len() == 0 && self.pending.len() == 0,
            State::IncSearching => self.number == 0 && self.pending.len() == 0,
            State::Numbering => self.text.len() == 0 && self.pending.len() == 0,
            State::Commanding => self.text.len() == 0,
        }
    }
}

/// A fresh machine holds only what belongs to its state, and every key
/// keeps it so.
pub proof fn lemma_step_keeps_machine_valid(m: Machine, k: Key)
    requires
        m.wf(),
    ensures
        Machine::fresh(m.table).wf(),
        m.step(k).0.wf(),
        m.step(k).0.table == m.table,
{
}

/// With every event but the pattern of a search as far as it is typed, the
/// machine is back where it started: ready, without a count, a pattern or
/// keys of a command. So it is when the keys of a command are complete,
/// whether they give an event or not.
pub proof fn lemma_event_ends_command(m: Machine, k: Key)
    requires
        m.wf(),
    ensures
        (m.step(k).1 matches Some(event) && !(event is SearchIncremental)) ==> m.step(k).0
            == Machine::fresh(m.table),
        m.state == State::IncSearching ==> (m.step(k).1 matches Some(
            EventView::SearchIncremental(pat),
        ) ==> m.step(k).0.state == State::IncSearching && m.step(k).0.text == pat),
        (m.state == State::Commanding && !(lookup(m.table, m.pending.push(k)) is Partial))
            ==> m.step(k).0 == Machine::fresh(m.table),
{
    assert(m.text.len() == 0 ==> m.text =~= Seq::<char>::empty());
    assert(m.pending.len() == 0 ==> m.pending =~= Seq::<Key>::empty());
}

/// Leaving a count with Esc or Enter gives no event, while Esc gives
/// `Cancel` when nothing is begun.
pub proof fn lemma_escape(m: Machine)
    ensures
        m.state == State::Ready ==> m.step(Key::Esc) == (m, Some(EventView::Cancel)),
        m.state == State::Numbering ==> m.step(Key::Esc) == (m.ready(), None::<EventView>),
        m.state == State::Numbering ==> m.step(Key::Char('\n')) == (m.ready(), None::<EventView>),
        m.state == State::IncSearching ==> m.step(Key::Esc) == (
            m.ready(),
            Some(EventView::Cancel),
        ),
{
}

/// What a lookup found.
enum Found {
    Exact(PeepEvent),
    Partial,
    NoMatch,
}

impl View for Found {
    type V = Lookup;

    closed spec fn view(&self) -> Lookup {
        match *self {
            Found::Exact(e) => Lookup::Exact(e@),
            Found::Partial => Lookup::Partial,
            Found::NoMatch => Lookup::NoMatch,
        }
    }
}

/// Whether the first `n` keys of `a` and of `b` are the same.
fn same_keys(a: &Vec<Key>, b: &Vec<Key>, n: usize) -> (r: bool)
    requires
        n <= a.len(),
        n <= b.len(),
    ensures
        r == (a@.take(n as int) == b@.take(n as int)),
{
    let mut i: usize = 0;
    while i < n
        invariant
            i <= n <= a.len(),
            n <= b.len(),
            a@.take(i as int) == b@.take(i as int),
        decreases n - i,
    {
        if a[i] != b[i] {
            assert(a@.take(n as int)[i as int] != b@.take(n as int)[i as int]);
            return false;
        }
        assert(a@.take(i + 1) =~= a@.take(i as int).push(a@[i as int]));
        assert(b@.take(i + 1) =~= b@.take(i as int).push(b@[i as int]));
        i = i + 1;
    }
    true
}

/// Adds the binding of the single key `k` to `event`.
fn bind(table: &mut Vec<Binding>, k: Key, event: PeepEvent)
    ensures
        table_view(final(table)@) == table_view(old(table)@).push(bound(k, event@)),
{
    let mut keys: Vec<Key> = Vec::new();
    keys.push(k);
    assert(keys@ =~= seq![k]);
    table.push(Binding { keys, event });
    assert(table_view(table@) =~= table_view(old(table)@).push(bound(k, event@)));
}

/// The count that `n` stands for: one where none was typed.
fn valid_num(n: u16) -> (r: u16)
    ensures
        r == count(n),
{
    if n == 0 {
        1
    } else {
        n
    }
}

/// The default key bindings.
pub struct KeyBind {
    state: State,
    number: u16,
    searching_keys: String,
    pending: Vec<Key>,
    cmap: Vec<Binding>,
}

impl View for KeyBind {
    type V = Machine;

    closed spec fn view(&self) -> Machine {
        Machine {
            state: self.state,
            number: self.number,
            text: self.searching_keys@,
            pending: self.pending@,
            table: table_view(self.cmap@),
        }
    }
}

impl Default for KeyBind {
    fn default() -> (kb: Self)
        ensures
            kb@ == Machine::fresh(default_table()),
    {
        Self::new()
    }
}

impl KeyBind {
    /// The machine with the default table and nothing begun.
    pub fn new() -> (kb: Self)
        ensures
            kb@ == Machine::fresh(default_table()),
    {
        KeyBind {
            state: State::Ready,
            number: 0,
            searching_keys: String::new(),
            pending: Vec::new(),
            cmap: KeyBind::default_command_table(),
        }
    }

    /// Adds a command to the table: the keys `keys` stand for `event`.
    /// Where the table holds the same keys already, the older command
    /// stays in force.
    pub fn bind_keys(&mut self, keys: Vec<Key>, event: PeepEvent)
        ensures
            final(self)@ == (Machine {
                table: old(self)@.table.push(BindingView { keys: keys@, event: event@ }),
                ..old(self)@
            }),
    {
        let ghost added = BindingView { keys: keys@, event: event@ };
        self.cmap.push(Binding { keys, event });
        assert(table_view(self.cmap@) =~= table_view(old(self).cmap@).push(added));
    }

    fn default_command_table() -> (table: Vec<Binding>)
        ensures
            table_view(table@) == default_table(),
    {
        let mut table: Vec<Binding> = Vec::new();
        assert(table_view(table@) =~= Seq::<BindingView>::empty());
        bind(&mut table, Key::Char('j'), PeepEvent::MoveDown(1));
        bind(&mut table, Key::Ctrl('j'), PeepEvent::MoveDown(1));
        bind(&mut table, Key::Ctrl('n'), PeepEvent::MoveDown(1));
        bind(&mut table, Key::Char('k'), PeepEvent::MoveUp(1));
        bind(&mut table, Key::Ctrl('k'), PeepEvent::MoveUp(1));
        bind(&mut table, Key::Ctrl('p'), PeepEvent::MoveUp(1));
        bind(&mut table, Key::Char('h'), PeepEvent::MoveLeft(1));
        bind(&mut table, Key::Char('l'), PeepEvent::MoveRight(1));
        bind(&mut table, Key::Char('d'), PeepEvent::MoveDownHalfPages(1));
        bind(&mut table, Key::Ctrl('d'), PeepEvent::MoveDownHalfPages(1));
        bind(&mut table, Key::Char('u'), PeepEvent::MoveUpHalfPages(1));
        bind(&mut table, Key::Ctrl('u'), PeepEvent::MoveUpHalfPages(1));
        bind(&mut table, Key::Char('H'), PeepEvent::MoveLeftHalfPages(1));
        bind(&mut table, Key::Char('L'), PeepEvent::MoveRightHalfPages(1));
        bind(&mut table, Key::Char('f'), PeepEvent::MoveDownPages(1));
        bind(&mut table, Key::Ctrl('f'), PeepEvent::MoveDownPages(1));
        bind(&mut table, Key::Char(' '), PeepEvent::MoveDownPages(1));
        bind(&mut table, Key::Char('b'), PeepEvent::MoveUpPages(1));
        bind(&mut table, Key::Ctrl('b'), PeepEvent::MoveUpPages(1));
        bind(&mut table, Key::Char('0'), PeepEvent::MoveToHeadOfLine);
        bind(&mut table, Key::Ctrl('a'), PeepEvent::MoveToHeadOfLine);
        bind(&mut table, Key::Char('$'), PeepEvent::MoveToEndOfLine);
        bind(&mut table, Key::Ctrl('e'), PeepEvent::MoveToEndOfLine);
        bind(&mut table, Key::Char('g'), PeepEvent::MoveToTopOfLines);
        bind(&mut table, Key::Char('G'), PeepEvent::MoveToBottomOfLines);
        bind(&mut table, Key::Char('#'), PeepEvent::ToggleLineNumberPrinting);
        bind(&mut table, Key::Char('!'), PeepEvent::ToggleLineWraps);
        bind(&mut table, Key::Char('-'), PeepEvent::DecrementLines(1));
        bind(&mut table, Key::Char('+'), PeepEvent::IncrementLines(1));
        bind(&mut table, Key::Char('='), PeepEvent::SetNumOfLines(0));
        bind(&mut table, Key::Char('n'), PeepEvent::SearchNext);
        bind(&mut table, Key::Char('N'), PeepEvent::SearchPrev);
        bind(&mut table, Key::Char('q'), PeepEvent::Quit);
        bind(&mut table, Key::Char('Q'), PeepEvent::QuitWithClear);
        bind(&mut table, Key::Char('F'), PeepEvent::FollowMode);
        table
    }

    fn trans_to_ready(&mut self)
        ensures
            final(self)@ == old(self)@.ready(),
    {
        self.state = State::Ready;
        self.number = 0;
        self.searching_keys = String::new();
        self.pending = Vec::new();
    }

    fn trans_to_incsearching(&mut self)
        ensures
            final(self)@ == (Machine { state: State::IncSearching, ..old(self)@.ready() }),
    {
        self.trans_to_ready();
        self.state = State::IncSearching;
    }

    fn trans_to_numbering(&mut self, c: char)
        requires
            is_digit(c),
        ensures
            final(self)@ == (Machine {
                state: State::Numbering,
                number: digit_value(c),
                ..old(self)@.ready()
            }),
    {
        self.trans_to_ready();
        self.state = State::Numbering;
        self.number = (c as u32 - '0' as u32) as u16;
    }

    fn trans_to_commanding(&mut self)
        ensures
            final(self)@ == (Machine {
                state: State::Commanding,
                text: seq![],
                pending: seq![],
                ..old(self)@
            }),
    {
        self.state = State::Commanding;
        self.searching_keys = String::new();
        self.pending = Vec::new();
    }

    fn action_ready(&mut self, k: Key) -> (r: Option<PeepEvent>)
        requires
            old(self)@.state == State::Ready,
        ensures
            (final(self)@, event_view(r)) == old(self)@.from_ready(k),
    {
        match k {
            Key::Char(c) => {
                if c == '/' {
                    self.trans_to_incsearching();
                    Some(PeepEvent::SearchIncremental(String::new()))
                } else if '1' <= c && c <= '9' {
                    self.trans_to_numbering(c);
                    None
                } else {
                    self.trans_to_ready();
                    self.action_commanding(k)
                }
            },
            Key::Ctrl(_) => {
                self.trans_to_ready();
                self.action_commanding(k)
            },
            Key::Esc => Some(PeepEvent::Cancel),
            _ => None,
        }
    }

    fn action_incsearching(&mut self, k: Key) -> (r: Option<PeepEvent>)
        ensures
            (final(self)@, event_view(r)) == old(self)@.from_incsearching(k),
    {
        match k {
            Key::Char(c) => {
                if c == '\n' {
                    self.trans_to_ready();
                    Some(PeepEvent::SearchTrigger)
                } else {
                    self.searching_keys.push(c);
                    Some(PeepEvent::SearchIncremental(self.searching_keys.clone()))
                }
            },
            Key::Backspace | Key::Delete => {
                if self.searching_keys.pop().is_none() {
                    self.trans_to_ready();
                    Some(PeepEvent::Cancel)
                } else {
                    Some(PeepEvent::SearchIncremental(self.searching_keys.clone()))
                }
            },
            Key::Esc => {
                self.trans_to_ready();
                Some(PeepEvent::Cancel)
            },
            _ => None,
        }
    }

    fn action_numbering(&mut self, k: Key) -> (r: Option<PeepEvent>)
        ensures
            (final(self)@, event_view(r)) == old(self)@.from_numbering(k),
    {
        match k {
            Key::Char(c) => {
                if '0' <= c && c <= '9' {
                    let n: u32 = self.number as u32 * 10 + (c as u32 - '0' as u32);
                    self.number = if n > 0xffff {
                        0xffff
                    } else {
                        n as u16
                    };
                    None
                } else if c == '\n' {
                    self.trans_to_ready();
                    None
                } else {
                    self.trans_to_commanding();
                    self.action_commanding(k)
                }
            },
            Key::Esc => {
                self.trans_to_ready();
                None
            },
            Key::Ctrl(_) => {
                self.trans_to_commanding();
                self.action_commanding(k)
            },
            _ => None,
        }
    }

    /// Looks `keys` up in the table.
    fn find_command(&self, keys: &Vec<Key>) -> (r: Found)
        ensures
            r@ == lookup(self@.table, keys@),
    {
        let ghost table = table_view(self.cmap@);
        let mut partial = false;
        let mut i: usize = 0;
        while i < self.cmap.len()
            invariant
                i <= self.cmap.len(),
                table == table_view(self.cmap@),
                exact_from(table, keys@, i as int) == exact_from(table, keys@, 0),
                partial == (exists|j: int|
                    0 <= j < i && is_strict_prefix(keys@, #[trigger] table[j].keys)),
            decreases self.cmap.len() - i,
        {
            let b = &self.cmap[i];
            assert(table[i as int] == b@);
            if b.keys.len() == keys.len() {
                if same_keys(&b.keys, keys, keys.len()) {
                    assert(b.keys@.take(keys.len() as int) =~= b.keys@);
                    assert(keys@.take(keys.len() as int) =~= keys@);
                    return Found::Exact(b.event.duplicate());
                }
                assert(b.keys@.take(keys.len() as int) =~= b.keys@);
                assert(keys@.take(keys.len() as int) =~= keys@);
            } else if b.keys.len() > keys.len() {
                assert(keys@.take(keys.len() as int) =~= keys@);
                if same_keys(&b.keys, keys, keys.len()) {
                    partial = true;
                }
            }
            i = i + 1;
        }
        if partial {
            Found::Partial
        } else {
            Found::NoMatch
        }
    }

    fn action_commanding(&mut self, k: Key) -> (r: Option<PeepEvent>)
        ensures
            (final(self)@, event_view(r)) == old(self)@.commanding(k),
    {
        self.pending.push(k);
        let found = self.find_command(&self.pending);
        match found {
            Found::Exact(event) => {
                let op = self.combine_command(event);
                self.trans_to_ready();
                op
            },
            Found::Partial => {
                self.state = State::Commanding;
                self.searching_keys = String::new();
                None
            },
            Found::NoMatch => {
                self.trans_to_ready();
                Some(PeepEvent::Message(None))
            },
        }
    }

    fn combine_command(&self, op: PeepEvent) -> (r: Option<PeepEvent>)
        ensures
            event_view(r) == combine(op@, self@.number),
    {
        match op {
            PeepEvent::MoveDown(_) => Some(PeepEvent::MoveDown(valid_num(self.number))),
            PeepEvent::MoveUp(_) => Some(PeepEvent::MoveUp(valid_num(self.number))),
            PeepEvent::MoveLeft(_) => Some(PeepEvent::MoveLeft(valid_num(self.number))),
            PeepEvent::MoveRight(_) => Some(PeepEvent::MoveRight(valid_num(self.number))),
            PeepEvent::MoveDownHalfPages(_) => Some(PeepEvent::MoveDownHalfPages(valid_num(self.number))),
            PeepEvent::MoveUpHalfPages(_) => Some(PeepEvent::MoveUpHalfPages(valid_num(self.number))),
            PeepEvent::MoveLeftHalfPages(_) => Some(PeepEvent::MoveLeftHalfPages(valid_num(self.number))),
            PeepEvent::MoveRightHalfPages(_) => Some(PeepEvent::MoveRightHalfPages(valid_num(self.number))),
            PeepEvent::MoveDownPages(_) => Some(PeepEvent::MoveDownPages(valid_num(self.number))),
            PeepEvent::MoveUpPages(_) => Some(PeepEvent::MoveUpPages(valid_num(self.number))),
            PeepEvent::MoveToTopOfLines | PeepEvent::MoveToBottomOfLines => {
                if self.number == 0 {
                    Some(op)
                } else {
                    Some(PeepEvent::MoveToLineNumber(self.number - 1))
                }
            },
            PeepEvent::MoveToLineNumber(_) => Some(PeepEvent::MoveToLineNumber(valid_num(self.number))),
            PeepEvent::IncrementLines(_) => Some(PeepEvent::IncrementLines(valid_num(self.number))),
            PeepEvent::DecrementLines(_) => Some(PeepEvent::DecrementLines(valid_num(self.number))),
            PeepEvent::SetNumOfLines(_) => {
                if self.number == 0 {
                    None
                } else {
                    Some(PeepEvent::SetNumOfLines(self.number))
                }
            },
            _ => Some(op),
        }
    }

    /// Takes the key `k`.
    pub fn trans(&mut self, k: Key) -> (r: Option<PeepEvent>)
        ensures
            (final(self)@, event_view(r)) == old(self)@.step(k),
    {
        match self.state {
            State::Ready => self.action_ready(k),
            State::IncSearching => self.action_incsearching(k),
            State::Numbering => self.action_numbering(k),
            State::Commanding => self.action_commanding(k),
        }
    }
}

impl KeyParser for KeyBind {
    /// Takes the key `k`: the machine makes its step, and the event that the
    /// key completes is returned.
    fn parse(&mut self, k: Key) -> (r: Option<PeepEvent>)
        ensures
            (final(self)@, event_view(r)) == old(self)@.step(k),
    {
        self.trans(k)
    }
}

} // verus!
