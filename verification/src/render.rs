//! The render computation: a pure function of the application state and the
//! terminal area, yielding draw instructions for the two panes.

use crate::state::App;
use crate::state::sel_view;
use vstd::prelude::*;
use vstd::string::StringExecFns;

verus! {

/// The character for one decimal digit.
pub open spec fn digit_char(d: nat) -> char {
    if d == 0 {
        '0'
    } else if d == 1 {
        '1'
    } else if d == 2 {
        '2'
    } else if d == 3 {
        '3'
    } else if d == 4 {
        '4'
    } else if d == 5 {
        '5'
    } else if d == 6 {
        '6'
    } else if d == 7 {
        '7'
    } else if d == 8 {
        '8'
    } else {
        '9'
    }
}

/// The decimal numeral of `n`, most significant digit first.
pub open spec fn spec_decimal(n: nat) -> Seq<char>
    decreases n,
{
    if n < 10 {
        seq![digit_char(n)]
    } else {
        spec_decimal(n / 10).push(digit_char(n % 10))
    }
}

fn digit_to_char(d: usize) -> (c: char)
    requires
        d < 10,
    ensures
        c == digit_char(d as nat),
{
    match d {
        0 => '0',
        1 => '1',
        2 => '2',
        3 => '3',
        4 => '4',
        5 => '5',
        6 => '6',
        7 => '7',
        8 => '8',
        _ => '9',
    }
}

/// Renders `n` in decimal.
pub fn decimal_string(n: usize) -> (s: String)
    ensures
        s@ == spec_decimal(n as nat),
    decreases n,
{
    if n < 10 {
        let mut s = String::new();
        s.push(digit_to_char(n));
        proof {
            assert(s@ =~= spec_decimal(n as nat));
        }
        s
    } else {
        let mut s = decimal_string(n / 10);
        s.push(digit_to_char(n % 10));
        proof {
            assert(s@ =~= spec_decimal(n as nat));
        }
        s
    }
}

/// One line of the message pane: the display index, a separator, the text.
pub open spec fn spec_message_line(i: nat, m: Seq<char>) -> Seq<char> {
    spec_decimal(i) + ": "@ + m
}

/// The message pane's lines, newest first: line `i` shows the message
/// submitted `i`-th from the end, prefixed with its display index.
pub fn message_lines(messages: &Vec<String>) -> (lines: Vec<String>)
    ensures
        lines@.len() == messages@.len(),
        forall|i: int|
            0 <= i < lines@.len() ==> lines@[i]@ == spec_message_line(
                i as nat,
                messages.deep_view()[messages@.len() - 1 - i],
            ),
{
    let n = messages.len();
    let mut lines: Vec<String> = Vec::new();
    let mut i: usize = 0;
    while i < n
        invariant
            n == messages@.len(),
            i <= n,
            lines@.len() == i,
            forall|j: int|
                0 <= j < i ==> lines@[j]@ == spec_message_line(
                    j as nat,
                    messages.deep_view()[n - 1 - j],
                ),
        decreases n - i,
    {
        let mut line = decimal_string(i);
        line.append(": ");
        line.append(messages[n - 1 - i].as_str());
        lines.push(line);
        i += 1;
    }
    lines
}

/// One row of the list pane: an item's label, and whether the selection
/// cursor rests on it.
pub struct ListRow {
    pub text: String,
    pub highlighted: bool,
}

/// The list pane's rows: every item in order, with exactly the selected
/// one — if any — marked for highlighting.
pub fn list_rows(items: &Vec<String>, selected: Option<usize>) -> (rows: Vec<ListRow>)
    ensures
        rows@.len() == items@.len(),
        forall|i: int| 0 <= i < rows@.len() ==> rows@[i].text@ == items.deep_view()[i],
        forall|i: int|
            0 <= i < rows@.len() ==> rows@[i].highlighted == (sel_view(selected) == Some(i)),
{
    let n = items.len();
    let mut rows: Vec<ListRow> = Vec::new();
    let mut i: usize = 0;
    while i < n
        invariant
            n == items@.len(),
            i <= n,
            rows@.len() == i,
            forall|j: int| 0 <= j < i ==> rows@[j].text@ == items.deep_view()[j],
            forall|j: int|
                0 <= j < i ==> rows@[j].highlighted == (sel_view(selected) == Some(j)),
        decreases n - i,
    {
        let highlighted = match selected {
            Some(s) => s == i,
            None => false,
        };
        rows.push(ListRow { text: items[i].clone(), highlighted });
        i += 1;
    }
    rows
}

/// How many rows of a chatroom column of height `h` go to the input box:
/// what a nine-tenths message pane leaves over, raised to 3 rows when the
/// column is at least that tall.
pub open spec fn spec_input_rows(h: int) -> int {
    let rest = h - h * 90 / 100;
    if rest >= 3 {
        rest
    } else if h >= 3 {
        3
    } else {
        h
    }
}

/// Splits the screen into the list column (a fifth of the width) and the
/// chatroom column (the rest).
pub fn split_columns(width: u16) -> (cols: (u16, u16))
    ensures
        cols.0 as int == (width as int) * 20 / 100,
        cols.0 as int + cols.1 as int == width as int,
{
    proof {
        assert((width as int) * 20 / 100 <= width as int && (width as int) * 20 / 100 >= 0)
            by (nonlinear_arith);
    }
    let left = ((width as u32) * 20 / 100) as u16;
    let right = width - left;
    (left, right)
}

/// Splits the chatroom column into the message pane and the input box:
/// the message pane gets nine tenths of the height, but the input box
/// never less than 3 rows where the column allows it.
pub fn split_chat_rows(height: u16) -> (rows: (u16, u16))
    ensures
        rows.0 as int + rows.1 as int == height as int,
        rows.1 as int == spec_input_rows(height as int),
        height >= 3 ==> rows.1 >= 3,
{
    proof {
        assert((height as int) * 90 / 100 <= height as int && (height as int) * 90 / 100 >= 0)
            by (nonlinear_arith);
    }
    let messages = ((height as u32) * 90 / 100) as u16;
    let rest = height - messages;
    if rest >= 3 {
        (messages, rest)
    } else if height >= 3 {
        (height - 3, 3)
    } else {
        (0, height)
    }
}

/// The full-frame draw instructions: one structure holding everything the
/// terminal needs to redraw both panes.
pub struct RenderPlan {
    /// Width of the list column.
    pub list_width: u16,
    /// Width of the chatroom column.
    pub chat_width: u16,
    /// Height of the message pane inside the chatroom column.
    pub messages_height: u16,
    /// Height of the input box inside the chatroom column.
    pub input_height: u16,
    /// The list pane's rows, in item order.
    pub list: Vec<ListRow>,
    /// The message pane's lines, newest first.
    pub messages: Vec<String>,
    /// The input box's text.
    pub input: String,
}

/// Computes the whole frame for a state and a terminal area. A pure
/// function of both: the state is read, never changed.
pub fn render_plan(app: &App, width: u16, height: u16) -> (plan: RenderPlan)
    ensures
        plan.list_width as int == (width as int) * 20 / 100,
        plan.list_width as int + plan.chat_width as int == width as int,
        plan.messages_height as int + plan.input_height as int == height as int,
        plan.input_height as int == spec_input_rows(height as int),
        plan.list@.len() == app@.items.len(),
        forall|i: int| 0 <= i < plan.list@.len() ==> plan.list@[i].text@ == app@.items[i],
        forall|i: int|
            0 <= i < plan.list@.len() ==> plan.list@[i].highlighted == (app@.selected == Some(i)),
        plan.messages@.len() == app@.messages.len(),
        forall|i: int|
            0 <= i < plan.messages@.len() ==> plan.messages@[i]@ == spec_message_line(
                i as nat,
                app@.messages[app@.messages.len() - 1 - i],
            ),
        plan.input@ == app@.input,
{
    let (list_width, chat_width) = split_columns(width);
    let (messages_height, input_height) = split_chat_rows(height);
    let plan = RenderPlan {
        list_width,
        chat_width,
        messages_height,
        input_height,
        list: list_rows(&app.items, app.selected),
        messages: message_lines(&app.messages),
        input: app.input.clone(),
    };
    plan
}

} // verus!
