//! Application state and the event-driven transitions over it.

use vstd::arithmetic::div_mod::lemma_fundamental_div_mod;
use vstd::arithmetic::div_mod::lemma_fundamental_div_mod_converse;
use vstd::arithmetic::div_mod::lemma_mod_bound;
use vstd::prelude::*;

verus! {

/// A key delivered by the terminal's input source.
#[derive(Clone, Copy, Debug)]
pub enum Key {
    /// A printable character; a newline submits the input buffer.
    Char(char),
    Left,
    Right,
    Up,
    Down,
    Backspace,
    /// Any key the application does not react to.
    Other,
}

/// An event consumed by the controller: a keypress, or a periodic tick.
#[derive(Clone, Copy, Debug)]
pub enum Event {
    Input(Key),
    Tick,
}

/// Mathematical model of the application state.
#[verifier::ext_equal]
pub struct AppView {
    /// The fixed list of selectable labels.
    pub items: Seq<Seq<char>>,
    /// The selection cursor; `None` means no selection.
    pub selected: Option<int>,
    /// Text typed but not yet submitted.
    pub input: Seq<char>,
    /// Submitted messages, oldest first.
    pub messages: Seq<Seq<char>>,
}

/// The application state: a fixed item list, an optional selection into it,
/// the input buffer, and the message history.
pub struct App {
    pub items: Vec<String>,
    pub selected: Option<usize>,
    pub input: String,
    pub messages: Vec<String>,
}

/// The selection cursor as a mathematical value.
pub open spec fn sel_view(sel: Option<usize>) -> Option<int> {
    match sel {
        Some(i) => Some(i as int),
        None => None,
    }
}

impl View for App {
    type V = AppView;

    open spec fn view(&self) -> AppView {
        AppView {
            items: self.items.deep_view(),
            selected: sel_view(self.selected),
            input: self.input@,
            messages: self.messages.deep_view(),
        }
    }
}

impl App {
    /// The selection, when present, indexes into the item list.
    pub open spec fn wf(&self) -> bool {
        match self.selected {
            Some(i) => i < self.items@.len(),
            None => true,
        }
    }

    /// The fresh state: the placeholder labels, no selection, empty input,
    /// no messages.
    pub fn new() -> (app: App)
        ensures
            app.wf(),
            app@.selected is None,
            app@.input == Seq::<char>::empty(),
            app@.messages == Seq::<Seq<char>>::empty(),
            app@.items =~~= default_items(),
    {
        let mut items: Vec<String> = Vec::new();
        items.push("Item1".to_owned());
        items.push("Item2".to_owned());
        items.push("Item3".to_owned());
        items.push("Item4".to_owned());
        items.push("Item5".to_owned());
        items.push("Item6".to_owned());
        items.push("Item7".to_owned());
        items.push("Item8".to_owned());
        items.push("Item9".to_owned());
        items.push("Item10".to_owned());
        items.push("Item11".to_owned());
        items.push("Item12".to_owned());
        items.push("Item13".to_owned());
        items.push("Item14".to_owned());
        items.push("Item15".to_owned());
        items.push("Item16".to_owned());
        items.push("Item17".to_owned());
        items.push("Item18".to_owned());
        items.push("Item19".to_owned());
        items.push("Item20".to_owned());
        items.push("Item21".to_owned());
        items.push("Item22".to_owned());
        items.push("Item23".to_owned());
        items.push("Item24".to_owned());
        let app = App { items, selected: None, input: String::new(), messages: Vec::new() };
        proof {
            assert(app@.items =~~= default_items());
        }
        app
    }

    /// move-left clears the selection, whatever it was.
    pub fn move_left(&mut self)
        ensures
            final(self).selected is None,
            final(self)@.items == old(self)@.items,
            final(self)@.input == old(self)@.input,
            final(self)@.messages == old(self)@.messages,
            final(self).wf(),
    {
        self.selected = None;
    }

    /// move-down advances the selection cursor, wrapping to the first item.
    pub fn move_down(&mut self)
        requires
            old(self).wf(),
            old(self).items@.len() > 0,
        ensures
            final(self)@.selected == next_down(old(self)@.selected, old(self)@.items.len() as int),
            final(self)@.items == old(self)@.items,
            final(self)@.input == old(self)@.input,
            final(self)@.messages == old(self)@.messages,
            final(self).wf(),
    {
        self.selected = match self.selected {
            Some(i) => if i >= self.items.len() - 1 {
                Some(0)
            } else {
                Some(i + 1)
            },
            None => Some(0),
        };
    }

    /// move-up retreats the selection cursor, wrapping to the last item;
    /// from no selection it lands on the last item.
    pub fn move_up(&mut self)
        requires
            old(self).wf(),
            old(self).items@.len() > 0,
        ensures
            final(self)@.selected == next_up(old(self)@.selected, old(self)@.items.len() as int),
            final(self)@.items == old(self)@.items,
            final(self)@.input == old(self)@.input,
            final(self)@.messages == old(self)@.messages,
            final(self).wf(),
    {
        self.selected = match self.selected {
            Some(i) => if i > 0 {
                Some(i - 1)
            } else {
                Some(self.items.len() - 1)
            },
            None => Some(self.items.len() - 1),
        };
    }

    /// Submitting appends the whole input buffer — empty or not — to the
    /// message history and clears the buffer.
    pub fn submit(&mut self)
        ensures
            final(self)@.messages == old(self)@.messages.push(old(self)@.input),
            final(self)@.input == Seq::<char>::empty(),
            final(self)@.items == old(self)@.items,
            final(self)@.selected == old(self)@.selected,
            old(self).wf() ==> final(self).wf(),
    {
        let msg = self.input.clone();
        self.input = String::new();
        self.messages.push(msg);
        proof {
            assert(self@.messages =~~= old(self)@.messages.push(old(self)@.input));
        }
    }

    /// A printable character is appended to the input buffer.
    pub fn enter_char(&mut self, c: char)
        ensures
            final(self)@.input == old(self)@.input.push(c),
            final(self)@.items == old(self)@.items,
            final(self)@.selected == old(self)@.selected,
            final(self)@.messages == old(self)@.messages,
            old(self).wf() ==> final(self).wf(),
    {
        self.input.push(c);
    }

    /// Backspace drops the last character of the input buffer; on an empty
    /// buffer it does nothing.
    pub fn backspace(&mut self)
        ensures
            old(self)@.input.len() == 0 ==> final(self)@.input == old(self)@.input,
            old(self)@.input.len() > 0 ==> final(self)@.input == old(self)@.input.drop_last(),
            final(self)@.items == old(self)@.items,
            final(self)@.selected == old(self)@.selected,
            final(self)@.messages == old(self)@.messages,
            old(self).wf() ==> final(self).wf(),
    {
        self.input.pop();
    }

    /// Applies one event to the state, exactly as `spec_step` describes, and
    /// reports whether the quit key was pressed. On quit the state is left
    /// untouched.
    pub fn handle_event(&mut self, ev: Event) -> (quit: bool)
        requires
            old(self).wf(),
            old(self).items@.len() > 0,
        ensures
            quit == is_quit(ev),
            final(self)@ == spec_step(old(self)@, ev),
            final(self)@.items == old(self)@.items,
            final(self).wf(),
    {
        match ev {
            Event::Input(k) => match k {
                Key::Char(c) => {
                    if c == 'q' {
                        return true;
                    } else if c == '\n' {
                        self.submit();
                    } else {
                        self.enter_char(c);
                    }
                },
                Key::Left => self.move_left(),
                Key::Down => self.move_down(),
                Key::Up => self.move_up(),
                Key::Backspace => self.backspace(),
                Key::Right => {},
                Key::Other => {},
            },
            Event::Tick => {},
        }
        proof {
            assert(self@ =~~= spec_step(old(self)@, ev));
        }
        false
    }
}

/// Whether an event asks the application to quit: the 'q' key does.
pub open spec fn is_quit(ev: Event) -> bool {
    ev matches Event::Input(Key::Char('q'))
}

/// What one event does to the state: the transition function of the
/// application, with the quit key and ticks leaving the state as it is.
pub open spec fn spec_step(s: AppView, ev: Event) -> AppView {
    match ev {
        Event::Tick => s,
        Event::Input(k) => match k {
            Key::Char(c) => if c == 'q' {
                s
            } else if c == '\n' {
                AppView { input: Seq::empty(), messages: s.messages.push(s.input), ..s }
            } else {
                AppView { input: s.input.push(c), ..s }
            },
            Key::Left => AppView { selected: None, ..s },
            Key::Down => AppView { selected: next_down(s.selected, s.items.len() as int), ..s },
            Key::Up => AppView { selected: next_up(s.selected, s.items.len() as int), ..s },
            Key::Backspace => AppView {
                input: if s.input.len() == 0 {
                    s.input
                } else {
                    s.input.drop_last()
                },
                ..s
            },
            Key::Right => s,
            Key::Other => s,
        },
    }
}

/// Relies on `String::push` from std: appends the given character to the
/// end of the string.
pub assume_specification[ String::push ](s: &mut String, ch: char)
    ensures
        final(s)@ == old(s)@.push(ch),
;

/// Relies on `String::pop` from std: removes the last character and returns
/// it, or returns `None` when the string is empty, leaving it unchanged.
pub assume_specification[ String::pop ](s: &mut String) -> (r: Option<char>)
    ensures
        old(s)@.len() == 0 ==> r is None && final(s)@ == old(s)@,
        old(s)@.len() > 0 ==> r == Some(old(s)@.last()) && final(s)@ == old(s)@.drop_last(),
;

/// Where the selection cursor lands on a move-down: from no selection to the
/// first item, otherwise one step forward, wrapping past the last item to 0.
pub open spec fn next_down(sel: Option<int>, n: int) -> Option<int> {
    match sel {
        None => Some(0int),
        Some(i) => if i >= n - 1 {
            Some(0int)
        } else {
            Some(i + 1)
        },
    }
}

/// Where the selection cursor lands on a move-up: from no selection to the
/// last item, otherwise one step back, wrapping past 0 to the last item.
pub open spec fn next_up(sel: Option<int>, n: int) -> Option<int> {
    match sel {
        None => Some(n - 1),
        Some(i) => if i > 0 {
            Some(i - 1)
        } else {
            Some(n - 1)
        },
    }
}

/// The selection after `k` move-downs over `n` items, starting from no
/// selection.
pub open spec fn down_steps(n: int, k: nat) -> Option<int>
    decreases k,
{
    if k == 0 {
        None
    } else {
        next_down(down_steps(n, (k - 1) as nat), n)
    }
}

/// The selection after `k` move-ups over `n` items, starting from no
/// selection.
pub open spec fn up_steps(n: int, k: nat) -> Option<int>
    decreases k,
{
    if k == 0 {
        None
    } else {
        next_up(up_steps(n, (k - 1) as nat), n)
    }
}

/// Stepping a remainder: adding one advances it by one and wraps it to 0
/// past `n - 1`.
proof fn lemma_mod_succ(m: int, n: int)
    requires
        m >= 0,
        n > 0,
    ensures
        (m + 1) % n == if m % n == n - 1 {
            0int
        } else {
            m % n + 1
        },
{
    let q = m / n;
    let r = m % n;
    lemma_fundamental_div_mod(m, n);
    lemma_mod_bound(m, n);
    if r == n - 1 {
        assert((q + 1) * n == q * n + n) by (nonlinear_arith);
        lemma_fundamental_div_mod_converse(m + 1, n, q + 1, 0);
    } else {
        lemma_fundamental_div_mod_converse(m + 1, n, q, r + 1);
    }
}

/// Law: over `n > 0` items, consecutive move-downs starting from no
/// selection land on `0, 1, ..., n-1` in a cycle: the `k`-th move-down
/// selects item `(k - 1) % n`, so the cursor wraps back to item 0 one step
/// after reaching the last item.
pub proof fn lemma_down_steps_cycle(n: int, k: nat)
    requires
        n > 0,
        k >= 1,
    ensures
        down_steps(n, k) == Some(((k - 1) as int) % n),
    decreases k,
{
    if k == 1 {
        lemma_mod_bound(0, n);
        lemma_fundamental_div_mod_converse(0, n, 0, 0);
    } else {
        lemma_down_steps_cycle(n, (k - 1) as nat);
        lemma_mod_succ((k - 2) as int, n);
        lemma_mod_bound((k - 2) as int, n);
    }
}

/// Law: over `n > 0` items, consecutive move-ups starting from no selection
/// land on `n-1, n-2, ..., 0` in a cycle: the `k`-th move-up selects item
/// `n - 1 - ((k - 1) % n)`, so the first lands on the last item and the
/// cursor wraps back to it one step after reaching item 0.
pub proof fn lemma_up_steps_cycle(n: int, k: nat)
    requires
        n > 0,
        k >= 1,
    ensures
        up_steps(n, k) == Some(n - 1 - (((k - 1) as int) % n)),
    decreases k,
{
    if k == 1 {
        lemma_fundamental_div_mod_converse(0, n, 0, 0);
    } else {
        lemma_up_steps_cycle(n, (k - 1) as nat);
        lemma_mod_succ((k - 2) as int, n);
        lemma_mod_bound((k - 2) as int, n);
    }
}

/// The labels the application starts with.
pub open spec fn default_items() -> Seq<Seq<char>> {
    seq![
        "Item1"@, "Item2"@, "Item3"@, "Item4"@, "Item5"@, "Item6"@,
        "Item7"@, "Item8"@, "Item9"@, "Item10"@, "Item11"@, "Item12"@,
        "Item13"@, "Item14"@, "Item15"@, "Item16"@, "Item17"@, "Item18"@,
        "Item19"@, "Item20"@, "Item21"@, "Item22"@, "Item23"@, "Item24"@,
    ]
}

} // verus!
