//! The session: the interpreter and the line model composed, fed by the
//! orchestrator once per tick with everything the relay queues delivered.
//! Echo bytes drive the interpreter and the renderer; input bytes pass
//! through to the child verbatim, never interpreted.

use vstd::prelude::*;
use crate::event::Directive;
use crate::line::{line_directive, line_step, Line, LineV};
use crate::parser::{parser_emit, parser_step, Parser, ParserV};
use crate::render::{frame_ok, highlight_spans, line_text, push_char, render_frame};

verus! {

/// The mathematical state the echo stream drives: interpreter plus line.
pub struct MachineV {
    pub parser: ParserV,
    pub line: LineV,
}

impl MachineV {
    /// The state a fresh session starts in.
    pub open spec fn init() -> MachineV {
        MachineV { parser: ParserV::ground(), line: LineV::empty() }
    }

    pub open spec fn wf(self) -> bool {
        self.line.wf()
    }
}

/// One echo byte against the machine.
pub open spec fn machine_step(m: MachineV, b: u8) -> MachineV {
    MachineV {
        parser: parser_step(m.parser, b),
        line: match parser_emit(m.parser, b) {
            Some(e) => line_step(m.line, e),
            None => m.line,
        },
    }
}

/// A whole echo byte sequence against the machine, first byte first.
pub open spec fn machine_run(m: MachineV, bytes: Seq<u8>) -> MachineV
    decreases bytes.len(),
{
    if bytes.len() == 0 {
        m
    } else {
        machine_step(machine_run(m, bytes.drop_last()), bytes.last())
    }
}

/// Law: starting from a fresh session, the cursor lies within the line
/// after every byte of any echo stream.
pub proof fn lemma_machine_cursor_in_bounds(bytes: Seq<u8>, i: int)
    requires
        0 <= i <= bytes.len(),
    ensures
        machine_run(MachineV::init(), bytes.take(i)).wf(),
    decreases i,
{
    if i == 0 {
        assert(bytes.take(0) =~= Seq::<u8>::empty());
    } else {
        lemma_machine_cursor_in_bounds(bytes, i - 1);
        assert(bytes.take(i).drop_last() =~= bytes.take(i - 1));
        let m = machine_run(MachineV::init(), bytes.take(i - 1));
        match parser_emit(m.parser, bytes.take(i).last()) {
            Some(e) => crate::line::lemma_line_step_wf(m.line, e),
            None => (),
        }
    }
}

/// Whether one echo byte produces an event the session reports as
/// unsupported.
pub open spec fn byte_reported(p: ParserV, b: u8) -> bool {
    match parser_emit(p, b) {
        Some(e) => line_directive(e) == Directive::Report,
        None => false,
    }
}

/// What one echo byte appends to the host output: nothing, exactly one
/// newline on a commit, or one full-line redraw showing the line as it
/// stands after the byte.
pub open spec fn chunk_ok(chunk: Seq<char>, m: MachineV, b: u8) -> bool {
    match parser_emit(m.parser, b) {
        None => chunk == Seq::<char>::empty(),
        Some(e) => match line_directive(e) {
            Directive::Redraw => frame_ok(chunk, line_step(m.line, e).text),
            Directive::Newline => chunk == seq!['\n'],
            Directive::Silent => chunk == Seq::<char>::empty(),
            Directive::Report => chunk == Seq::<char>::empty(),
        },
    }
}

/// The host output of a run of echo bytes: the concatenation, in order, of
/// one correct chunk per byte.
pub open spec fn outputs_ok(out: Seq<char>, m: MachineV, bytes: Seq<u8>) -> bool
    decreases bytes.len(),
{
    if bytes.len() == 0 {
        out == Seq::<char>::empty()
    } else {
        exists|pre: Seq<char>, chunk: Seq<char>|
            out == pre + chunk && outputs_ok(pre, m, bytes.drop_last()) && chunk_ok(
                chunk,
                machine_run(m, bytes.drop_last()),
                bytes.last(),
            )
    }
}

/// Why a session ended.
#[derive(Clone, Copy, PartialEq, Eq, Structural, Debug)]
pub enum SessionEnd {
    /// The child process exited: its status is the session's outcome.
    ChildExited,
    /// A relay source disconnected: the session shuts down in order.
    ChildCommunicationLost,
}

/// Everything one orchestrator tick produced.
pub struct TickResult {
    /// What to write to the host terminal.
    pub host_out: String,
    /// What to write to the child, exactly the input bytes in order.
    pub to_child: Vec<u8>,
    /// Whether, and why, the session is over.
    pub end: Option<SessionEnd>,
}

/// One interactive session: the interpreter, the line model, the highlight
/// engine it colors with, and a count of reported unsupported input.
pub struct Session<'a> {
    parser: Parser,
    line: Line,
    highlighter: syntect::easy::HighlightLines<'a>,
    syntaxes: syntect::parsing::SyntaxSet,
    unsupported: u64,
}

impl<'a> View for Session<'a> {
    type V = MachineV;

    closed spec fn view(&self) -> MachineV {
        MachineV { parser: self.parser@, line: self.line@ }
    }
}

impl<'a> Session<'a> {
    pub open spec fn wf(self) -> bool {
        self@.wf()
    }

    /// How many unsupported events were reported so far (saturating).
    pub closed spec fn reports(self) -> u64 {
        self.unsupported
    }

    /// A fresh session around a highlight engine. The highlighter must have
    /// been built from a syntax belonging to the given syntax set: syntect
    /// resolves the grammar's context references against that set and can
    /// abort on a foreign one, which no contract here can exclude.
    pub fn new(
        highlighter: syntect::easy::HighlightLines<'a>,
        syntaxes: syntect::parsing::SyntaxSet,
    ) -> (s: Session<'a>)
        ensures
            s@ == MachineV::init(),
            s.wf(),
            s.reports() == 0,
    {
        Session {
            parser: Parser::new(),
            line: Line::new(),
            highlighter,
            syntaxes,
            unsupported: 0,
        }
    }

    /// The number of unsupported events reported so far.
    pub fn unsupported_reports(&self) -> (n: u64)
        ensures
            n == self.reports(),
    {
        self.unsupported
    }

    /// The text of the current line.
    pub fn line_string(&self) -> (s: String)
        ensures
            s@ == self@.line.text,
    {
        line_text(&self.line)
    }

    /// The cursor position on the current line.
    pub fn cursor(&self) -> (c: usize)
        ensures
            c == self@.line.cursor,
    {
        self.line.cursor()
    }

    /// Feed one echo byte: advance the interpreter, reduce the event against
    /// the line, and append to the host output what the directive asks for —
    /// a full-line redraw, a single newline on commit, or nothing.
    pub fn feed_echo_byte(&mut self, b: u8, out: &mut String)
        requires
            old(self).wf(),
        ensures
            final(self).wf(),
            final(self)@ == machine_step(old(self)@, b),
            exists|chunk: Seq<char>|
                final(out)@ == old(out)@ + chunk && chunk_ok(chunk, old(self)@, b),
            final(self).reports() == if byte_reported(old(self)@.parser, b) && old(self).reports()
                < u64::MAX {
                (old(self).reports() + 1) as u64
            } else {
                old(self).reports()
            },
    {
        let ev_opt = self.parser.advance(b);
        match ev_opt {
            None => {
                proof {
                    assert(out@ =~= out@ + Seq::<char>::empty());
                }
            },
            Some(ev) => {
                let d = self.line.apply(&ev);
                match d {
                    Directive::Redraw => {
                        let text = line_text(&self.line);
                        let spans = highlight_spans(
                            &mut self.highlighter,
                            &self.syntaxes,
                            text.as_str(),
                        );
                        let frame = render_frame(&spans, &text);
                        out.append(frame.as_str());
                        proof {
                            assert(chunk_ok(frame@, old(self)@, b));
                        }
                    },
                    Directive::Newline => {
                        push_char(out, '\n');
                        proof {
                            assert(out@ =~= old(out)@ + seq!['\n']);
                        }
                    },
                    Directive::Silent => {
                        proof {
                            assert(out@ =~= out@ + Seq::<char>::empty());
                        }
                    },
                    Directive::Report => {
                        if self.unsupported < u64::MAX {
                            self.unsupported = self.unsupported + 1;
                        }
                        proof {
                            assert(out@ =~= out@ + Seq::<char>::empty());
                        }
                    },
                }
            },
        }
    }

    /// One orchestrator tick. If the child exited, the session is over and
    /// nothing is processed. Otherwise every echo byte, in order, drives the
    /// interpreter and the renderer; the input bytes are handed back for the
    /// child verbatim, in order, never interpreted; and a disconnected relay
    /// ends the session in order.
    pub fn tick(
        &mut self,
        echo: &Vec<u8>,
        input: Vec<u8>,
        child_exited: bool,
        channel_closed: bool,
    ) -> (r: TickResult)
        requires
            old(self).wf(),
        ensures
            final(self).wf(),
            final(self).reports() >= old(self).reports(),
            child_exited ==> final(self)@ == old(self)@ && r.host_out@ == Seq::<char>::empty()
                && r.to_child@ == Seq::<u8>::empty() && r.end == Some(SessionEnd::ChildExited),
            !child_exited ==> {
                &&& final(self)@ == machine_run(old(self)@, echo@)
                &&& outputs_ok(r.host_out@, old(self)@, echo@)
                &&& r.to_child@ == input@
                &&& r.end == if channel_closed {
                    Some(SessionEnd::ChildCommunicationLost)
                } else {
                    None::<SessionEnd>
                }
            },
    {
        if child_exited {
            return TickResult {
                host_out: String::new(),
                to_child: Vec::new(),
                end: Some(SessionEnd::ChildExited),
            };
        }
        let mut out = String::new();
        let n = echo.len();
        let mut i: usize = 0;
        while i < n
            invariant
                old(self).wf(),
                self.wf(),
                n == echo@.len(),
                0 <= i <= n,
                self@ == machine_run(old(self)@, echo@.take(i as int)),
                outputs_ok(out@, old(self)@, echo@.take(i as int)),
                self.reports() >= old(self).reports(),
            decreases n - i,
        {
            let ghost pre_m = self@;
            let ghost pre_out = out@;
            let b = echo[i];
            self.feed_echo_byte(b, &mut out);
            proof {
                let t1 = echo@.take(i as int);
                let t2 = echo@.take(i + 1 as int);
                assert(t2.drop_last() =~= t1);
                assert(t2.last() == echo@[i as int]);
                let chunk = choose|c: Seq<char>| out@ == pre_out + c && chunk_ok(c, pre_m, b);
                assert(out@ == pre_out + chunk);
                assert(outputs_ok(pre_out, old(self)@, t2.drop_last()));
                assert(chunk_ok(chunk, machine_run(old(self)@, t2.drop_last()), t2.last()));
                assert(outputs_ok(out@, old(self)@, t2));
            }
            i = i + 1;
        }
        proof {
            assert(echo@.take(n as int) =~= echo@);
        }
        TickResult {
            host_out: out,
            to_child: input,
            end: if channel_closed {
                Some(SessionEnd::ChildCommunicationLost)
            } else {
                None
            },
        }
    }
}

} // verus!
