//! The line model: the not-yet-committed input line and its cursor, edited by
//! reducing interpreter events. The cursor invariant `0 <= cursor <= len`
//! holds after every event, including edits at the boundaries.

use vstd::prelude::*;
use crate::event::{Directive, Event, EventV};

verus! {

/// The mathematical form of the line model.
#[verifier::ext_equal]
pub struct LineV {
    pub text: Seq<char>,
    pub cursor: int,
}

impl LineV {
    /// The invariant every event handler preserves.
    pub open spec fn wf(self) -> bool {
        0 <= self.cursor <= self.text.len()
    }

    /// The state the model starts in.
    pub open spec fn empty() -> LineV {
        LineV { text: Seq::empty(), cursor: 0 }
    }
}

/// Erase-in-line with the default parameter: at the end of the line drop the
/// last character, elsewhere remove the character under the cursor. The
/// cursor never moves past the new end of the line.
pub open spec fn erase_to_cursor(l: LineV) -> LineV {
    if l.cursor == l.text.len() {
        if l.text.len() == 0 {
            l
        } else {
            LineV { text: l.text.drop_last(), cursor: l.text.len() - 1 }
        }
    } else {
        LineV { text: l.text.remove(l.cursor), cursor: l.cursor }
    }
}

/// Erase-in-line towards the start: remove every character from the start of
/// the line through the one under the cursor, and rest the cursor at 0.
pub open spec fn erase_to_start(l: LineV) -> LineV {
    if l.cursor == l.text.len() {
        LineV::empty()
    } else {
        LineV { text: l.text.skip(l.cursor + 1), cursor: 0 }
    }
}

/// How a complete control sequence edits the line. Only erase-in-line
/// (final byte `K`, no intermediates) is supported; every other sequence
/// leaves the line as it is.
pub open spec fn csi_step(l: LineV, params: Seq<u16>, intermediates: Seq<u8>, action: u8) -> LineV {
    if action == 75 && intermediates.len() == 0 {
        if params.len() == 0 || params[0] == 0 {
            erase_to_cursor(l)
        } else if params[0] == 1 {
            erase_to_start(l)
        } else if params[0] == 2 {
            LineV::empty()
        } else {
            l
        }
    } else {
        l
    }
}

/// How a lone control byte edits the line: newline commits (clears) the
/// line, carriage return rests the cursor at 0, backspace moves the cursor
/// one step left and is a no-op at 0.
pub open spec fn execute_step(l: LineV, b: u8) -> LineV {
    if b == 10 {
        LineV::empty()
    } else if b == 13 {
        LineV { text: l.text, cursor: 0 }
    } else if b == 8 {
        LineV { text: l.text, cursor: if l.cursor > 0 { l.cursor - 1 } else { 0 } }
    } else {
        l
    }
}

/// The reducer: what one event does to the line.
pub open spec fn line_step(l: LineV, e: EventV) -> LineV {
    match e {
        EventV::Print(c) => LineV { text: l.text.insert(l.cursor, c), cursor: l.cursor + 1 },
        EventV::Execute(b) => execute_step(l, b),
        EventV::CsiFinal { params, intermediates, action } => csi_step(
            l,
            params,
            intermediates,
            action,
        ),
        EventV::EscFinal { .. } => l,
        EventV::Unsupported(_) => l,
    }
}

/// What the caller is asked to do after one event: printable characters and
/// erase edits redraw the line, a newline commits it, cursor motion is
/// silent, and everything else is reported as unsupported.
pub open spec fn line_directive(e: EventV) -> Directive {
    match e {
        EventV::Print(_) => Directive::Redraw,
        EventV::Execute(b) => if b == 10 {
            Directive::Newline
        } else if b == 13 || b == 8 {
            Directive::Silent
        } else {
            Directive::Report
        },
        EventV::CsiFinal { params, intermediates, action } => if action == 75
            && intermediates.len() == 0 && (params.len() == 0 || params[0] <= 2) {
            Directive::Redraw
        } else {
            Directive::Report
        },
        EventV::EscFinal { .. } => Directive::Report,
        EventV::Unsupported(_) => Directive::Report,
    }
}

/// A single line of input together with the cursor position inside it.
pub struct Line {
    chars: Vec<char>,
    cursor: usize,
}

impl View for Line {
    type V = LineV;

    closed spec fn view(&self) -> LineV {
        LineV { text: self.chars@, cursor: self.cursor as int }
    }
}

impl Line {
    /// The cursor invariant, as it holds of the executable state.
    pub open spec fn wf(self) -> bool {
        self@.wf()
    }

    /// An empty line with the cursor at its start.
    pub fn new() -> (l: Line)
        ensures
            l@ == LineV::empty(),
            l.wf(),
    {
        Line { chars: Vec::new(), cursor: 0 }
    }

    /// The number of characters on the line.
    pub fn len(&self) -> (n: usize)
        ensures
            n == self@.text.len(),
    {
        self.chars.len()
    }

    /// The cursor position.
    pub fn cursor(&self) -> (c: usize)
        ensures
            c == self@.cursor,
    {
        self.cursor
    }

    /// The character at an index.
    pub fn char_at(&self, i: usize) -> (c: char)
        requires
            i < self@.text.len(),
        ensures
            c == self@.text[i as int],
    {
        self.chars[i]
    }

    /// Reduce one event against the line, keeping the cursor invariant, and
    /// say what the caller has to do about it.
    pub fn apply(&mut self, ev: &Event) -> (d: Directive)
        requires
            old(self).wf(),
        ensures
            final(self)@ == line_step(old(self)@, ev@),
            final(self).wf(),
            d == line_directive(ev@),
    {
        match ev {
            Event::Print(c) => {
                self.chars.insert(self.cursor, *c);
                // Reading the length as a usize bounds the new cursor value.
                let n = self.chars.len();
                self.cursor = self.cursor + 1;
                Directive::Redraw
            },
            Event::Execute(b) => {
                if *b == 10 {
                    self.chars.clear();
                    self.cursor = 0;
                    Directive::Newline
                } else if *b == 13 {
                    self.cursor = 0;
                    Directive::Silent
                } else if *b == 8 {
                    if self.cursor > 0 {
                        self.cursor = self.cursor - 1;
                    }
                    Directive::Silent
                } else {
                    Directive::Report
                }
            },
            Event::CsiFinal { params, intermediates, action } => {
                if *action == 75 && intermediates.len() == 0 {
                    let p: u16 = if params.len() == 0 {
                        0
                    } else {
                        params[0]
                    };
                    if p == 0 {
                        if self.cursor == self.chars.len() {
                            if self.chars.len() > 0 {
                                self.chars.pop();
                                self.cursor = self.chars.len();
                            }
                        } else {
                            self.chars.remove(self.cursor);
                        }
                        Directive::Redraw
                    } else if p == 1 {
                        self.erase_through_cursor();
                        Directive::Redraw
                    } else if p == 2 {
                        self.chars.clear();
                        self.cursor = 0;
                        Directive::Redraw
                    } else {
                        Directive::Report
                    }
                } else {
                    Directive::Report
                }
            },
            Event::EscFinal { .. } => Directive::Report,
            Event::Unsupported(_) => Directive::Report,
        }
    }

    /// Remove the characters from the start of the line through the cursor.
    fn erase_through_cursor(&mut self)
        requires
            old(self).wf(),
        ensures
            final(self)@ == erase_to_start(old(self)@),
            final(self).wf(),
    {
        if self.cursor == self.chars.len() {
            self.chars.clear();
            self.cursor = 0;
        } else {
            let k = self.cursor;
            // Reading the length as a usize bounds the count below.
            let n = self.chars.len();
            let count = k + 1;
            let mut j: usize = 0;
            while j < count
                invariant
                    count <= old(self)@.text.len(),
                    0 <= j <= count,
                    self.chars@ == old(self)@.text.skip(j as int),
                    self.cursor == k,
                decreases count - j,
            {
                self.chars.remove(0);
                proof {
                    assert(old(self)@.text.skip(j as int).remove(0) =~= old(self)@.text.skip(
                        j + 1 as int,
                    ));
                }
                j = j + 1;
            }
            self.cursor = 0;
        }
    }
}

/// A whole event sequence reduced against the line, first event first.
pub open spec fn line_run(l: LineV, evs: Seq<EventV>) -> LineV
    decreases evs.len(),
{
    if evs.len() == 0 {
        l
    } else {
        line_step(line_run(l, evs.drop_last()), evs.last())
    }
}

/// Every single event keeps the cursor within the line.
pub proof fn lemma_line_step_wf(l: LineV, e: EventV)
    requires
        l.wf(),
    ensures
        line_step(l, e).wf(),
{
}

/// Law: starting from an empty line, the cursor lies within the line after
/// every event of any sequence — after each of its prefixes the state is
/// well formed.
pub proof fn lemma_cursor_always_in_bounds(evs: Seq<EventV>, i: int)
    requires
        0 <= i <= evs.len(),
    ensures
        line_run(LineV::empty(), evs.take(i)).wf(),
    decreases i,
{
    if i == 0 {
        assert(evs.take(0) =~= Seq::<EventV>::empty());
    } else {
        lemma_cursor_always_in_bounds(evs, i - 1);
        assert(evs.take(i).drop_last() =~= evs.take(i - 1));
        lemma_line_step_wf(line_run(LineV::empty(), evs.take(i - 1)), evs.take(i).last());
    }
}

/// One backspace followed by one default erase-in-line.
pub open spec fn erase_pair() -> Seq<EventV> {
    seq![
        EventV::Execute(8),
        EventV::CsiFinal { params: Seq::empty(), intermediates: Seq::empty(), action: 75 },
    ]
}

/// A number of backspace–erase pairs in a row.
pub open spec fn erase_pairs(n: nat) -> Seq<EventV>
    decreases n,
{
    if n == 0 {
        Seq::empty()
    } else {
        erase_pairs((n - 1) as nat) + erase_pair()
    }
}

/// Running a concatenation is running the parts one after the other.
pub proof fn lemma_line_run_app(l: LineV, a: Seq<EventV>, b: Seq<EventV>)
    ensures
        line_run(l, a + b) == line_run(line_run(l, a), b),
    decreases b.len(),
{
    if b.len() == 0 {
        assert(a + b =~= a);
    } else {
        assert((a + b).drop_last() =~= a + b.drop_last());
        assert((a + b).last() == b.last());
        lemma_line_run_app(l, a, b.drop_last());
    }
}

/// With the cursor at the end, each backspace–erase pair removes exactly the
/// last character.
pub proof fn lemma_erase_pairs_drop(l: LineV, n: nat)
    requires
        l.wf(),
        l.cursor == l.text.len(),
        n <= l.text.len(),
    ensures
        line_run(l, erase_pairs(n)) == (LineV {
            text: l.text.take(l.text.len() - n),
            cursor: l.text.len() - n as int,
        }),
    decreases n,
{
    if n == 0 {
        assert(l.text.take(l.text.len() - 0) =~= l.text);
        assert(line_run(l, erase_pairs(0)) =~= (LineV {
            text: l.text.take(l.text.len() - 0),
            cursor: l.text.len() - 0 as int,
        }));
    } else {
        lemma_erase_pairs_drop(l, (n - 1) as nat);
        lemma_line_run_app(l, erase_pairs((n - 1) as nat), erase_pair());
        let m = line_run(l, erase_pairs((n - 1) as nat));
        assert(m.text == l.text.take(l.text.len() - (n - 1)) && m.cursor == l.text.len() - (n - 1));
        assert(m.text.len() == l.text.len() - (n - 1));
        let e1 = EventV::Execute(8);
        let e2 = EventV::CsiFinal {
            params: Seq::empty(),
            intermediates: Seq::empty(),
            action: 75,
        };
        assert(erase_pair().len() == 2);
        assert(erase_pair().last() == e2);
        assert(erase_pair().drop_last() =~= seq![e1]);
        assert(seq![e1].drop_last() =~= Seq::<EventV>::empty());
        assert(line_run(m, Seq::<EventV>::empty()) == m);
        assert(line_run(m, seq![e1]) == line_step(m, e1));
        assert(line_run(m, erase_pair()) == line_step(line_step(m, e1), e2));
        let m1 = line_step(m, e1);
        assert(m1.text == m.text && m1.cursor == m.cursor - 1);
        let m2 = line_step(m1, e2);
        assert(m2 == erase_to_cursor(m1));
        assert(m1.cursor < m1.text.len());
        assert(m1.text.remove(m1.cursor) =~= l.text.take(l.text.len() - n));
        assert(line_run(l, erase_pairs(n)) =~= (LineV {
            text: l.text.take(l.text.len() - n),
            cursor: l.text.len() - n as int,
        }));
    }
}

/// Whether an event prints a character.
pub open spec fn is_print(e: EventV) -> bool {
    match e {
        EventV::Print(_) => true,
        _ => false,
    }
}

/// Printing with the cursor at the end keeps the cursor at the end and grows
/// the line by one character per event.
pub proof fn lemma_prints_append(l: LineV, evs: Seq<EventV>)
    requires
        l.wf(),
        l.cursor == l.text.len(),
        forall|i: int| 0 <= i < evs.len() ==> is_print(evs[i]),
    ensures
        line_run(l, evs).wf(),
        line_run(l, evs).cursor == line_run(l, evs).text.len(),
        line_run(l, evs).text.len() == l.text.len() + evs.len(),
    decreases evs.len(),
{
    if evs.len() > 0 {
        assert(forall|i: int| 0 <= i < evs.drop_last().len() ==> is_print(evs.drop_last()[i]));
        lemma_prints_append(l, evs.drop_last());
        assert(is_print(evs.last()));
    }
}

/// Law (round trip): printing any number of characters into an empty line
/// and then applying one backspace-erase pair per character printed returns
/// the line to empty with the cursor at 0.
pub proof fn lemma_print_erase_round_trip(evs: Seq<EventV>)
    requires
        forall|i: int| 0 <= i < evs.len() ==> is_print(evs[i]),
    ensures
        line_run(LineV::empty(), evs + erase_pairs(evs.len())).text == Seq::<char>::empty(),
        line_run(LineV::empty(), evs + erase_pairs(evs.len())).cursor == 0,
{
    lemma_line_run_app(LineV::empty(), evs, erase_pairs(evs.len()));
    lemma_prints_append(LineV::empty(), evs);
    let m = line_run(LineV::empty(), evs);
    lemma_erase_pairs_drop(m, evs.len());
    assert(m.text.take(0) =~= Seq::<char>::empty());
}

} // verus!
