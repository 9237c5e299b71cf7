//! The control-stream interpreter: a byte-level automaton over the echo
//! stream (ground, escape, control-sequence, string-consuming and UTF-8
//! collecting states) that classifies each byte and, where a character,
//! control byte or complete sequence arrives, produces one [`Event`].
//!
//! Printable ASCII prints directly; a multi-byte UTF-8 sequence is collected
//! and prints as the one character it encodes. Malformed UTF-8 — a stray
//! continuation byte, an impossible lead, an overlong, surrogate or
//! out-of-range encoding — is reported as unsupported, never decoded; a byte
//! that cannot continue a sequence abandons it and is then interpreted as
//! ordinary input. A high byte inside an escape or control sequence aborts
//! that sequence and is reported.

use vstd::prelude::*;
use crate::event::{Event, EventV, UnsupportedKind};

verus! {

/// The automaton's states.
#[derive(Clone, Copy, PartialEq, Eq, Structural, Debug)]
pub enum PState {
    /// Ordinary input: printable characters and lone control bytes.
    Ground,
    /// An escape byte arrived; the next bytes select the sequence.
    Escape,
    /// Inside a control sequence: parameters, intermediates, then a final.
    Csi,
    /// Inside an operating-system-command string.
    Osc,
    /// Inside a device-control string.
    Dcs,
    /// Inside a multi-byte UTF-8 character.
    Utf8,
}

/// The mathematical form of the interpreter state.
pub struct ParserV {
    pub state: PState,
    /// The complete parameters collected so far in a control sequence.
    pub params: Seq<u16>,
    /// The value of the parameter under construction.
    pub cur: u16,
    /// Whether the parameter under construction was started at all.
    pub any: bool,
    /// The intermediate and private-marker bytes collected so far.
    pub intermediates: Seq<u8>,
    /// How many continuation bytes the UTF-8 character still needs.
    pub utf8_rem: u8,
    /// The scalar value accumulated so far from the UTF-8 character.
    pub utf8_acc: u32,
    /// The smallest scalar value the character's length may encode; anything
    /// below it is overlong.
    pub utf8_min: u32,
}

impl ParserV {
    /// The state the interpreter starts in, and returns to after every
    /// dispatched or aborted sequence.
    pub open spec fn ground() -> ParserV {
        ParserV {
            state: PState::Ground,
            params: Seq::empty(),
            cur: 0,
            any: false,
            intermediates: Seq::empty(),
            utf8_rem: 0,
            utf8_acc: 0,
            utf8_min: 0,
        }
    }

    /// The state entered on an escape byte: everything collected is dropped.
    pub open spec fn escape() -> ParserV {
        ParserV {
            state: PState::Escape,
            params: Seq::empty(),
            cur: 0,
            any: false,
            intermediates: Seq::empty(),
            utf8_rem: 0,
            utf8_acc: 0,
            utf8_min: 0,
        }
    }
}

/// One decimal digit appended to the parameter under construction,
/// saturating instead of wrapping.
pub open spec fn accum_param(cur: u16, d: u16) -> u16 {
    if cur < 6553 {
        (10 * cur + d) as u16
    } else {
        65535u16
    }
}

/// The parser with an abandoned UTF-8 character dropped: back in the ground
/// state, nothing accumulated.
pub open spec fn clear_utf8(p: ParserV) -> ParserV {
    ParserV {
        state: PState::Ground,
        params: p.params,
        cur: p.cur,
        any: p.any,
        intermediates: p.intermediates,
        utf8_rem: 0,
        utf8_acc: 0,
        utf8_min: 0,
    }
}

/// The parser at the start of a multi-byte UTF-8 character.
pub open spec fn utf8_enter(p: ParserV, acc: u32, rem: u8, min: u32) -> ParserV {
    ParserV {
        state: PState::Utf8,
        params: p.params,
        cur: p.cur,
        any: p.any,
        intermediates: p.intermediates,
        utf8_rem: rem,
        utf8_acc: acc,
        utf8_min: min,
    }
}

/// One continuation byte folded into the accumulated scalar value. An
/// accumulator that could only come from a malformed stream pins the value
/// above the scalar range, so the completed character is rejected.
pub open spec fn utf8_accumulate(acc: u32, b: u8) -> u32
    recommends
        128 <= b <= 191,
{
    if acc < 0x200000 {
        (64 * acc + (b - 128)) as u32
    } else {
        0x110000u32
    }
}

/// Whether a completed accumulation is a Unicode scalar value that its
/// encoded length is allowed to carry: not overlong, not a surrogate, not
/// beyond the last scalar.
pub open spec fn utf8_valid(acc: u32, min: u32) -> bool {
    min <= acc && (acc < 0xD800 || (0xDFFF < acc && acc <= 0x10FFFF))
}

/// Where the automaton moves on one byte of ordinary input.
pub open spec fn ground_step(p: ParserV, b: u8) -> ParserV {
    if b == 27 {
        ParserV::escape()
    } else if b <= 127 {
        p
    } else if 194 <= b && b <= 223 {
        utf8_enter(p, (b - 192) as u32, 1, 0x80)
    } else if 224 <= b && b <= 239 {
        utf8_enter(p, (b - 224) as u32, 2, 0x800)
    } else if 240 <= b && b <= 244 {
        utf8_enter(p, (b - 240) as u32, 3, 0x10000)
    } else {
        p
    }
}

/// Which event, if any, one byte of ordinary input produces.
pub open spec fn ground_emit(b: u8) -> Option<EventV> {
    if b == 27 {
        None
    } else if b < 32 {
        Some(EventV::Execute(b))
    } else if b <= 126 {
        Some(EventV::Print(b as char))
    } else if b == 127 {
        None
    } else if 194 <= b && b <= 244 {
        None
    } else {
        Some(EventV::Unsupported(UnsupportedKind::InvalidUtf8))
    }
}

/// Where the automaton moves on one byte.
pub open spec fn parser_step(p: ParserV, b: u8) -> ParserV {
    if b == 27 {
        ParserV::escape()
    } else {
        match p.state {
            PState::Ground => ground_step(p, b),
            PState::Escape => if b < 32 {
                p
            } else if b == 91 {
                ParserV {
                    state: PState::Csi,
                    params: Seq::empty(),
                    cur: 0,
                    any: false,
                    intermediates: Seq::empty(),
                    utf8_rem: 0,
                    utf8_acc: 0,
                    utf8_min: 0,
                }
            } else if b == 93 {
                ParserV {
                    state: PState::Osc,
                    params: p.params,
                    cur: p.cur,
                    any: p.any,
                    intermediates: p.intermediates,
                    utf8_rem: p.utf8_rem,
                    utf8_acc: p.utf8_acc,
                    utf8_min: p.utf8_min,
                }
            } else if b == 80 {
                ParserV {
                    state: PState::Dcs,
                    params: p.params,
                    cur: p.cur,
                    any: p.any,
                    intermediates: p.intermediates,
                    utf8_rem: p.utf8_rem,
                    utf8_acc: p.utf8_acc,
                    utf8_min: p.utf8_min,
                }
            } else if 32 <= b && b <= 47 {
                ParserV {
                    state: PState::Escape,
                    params: p.params,
                    cur: p.cur,
                    any: p.any,
                    intermediates: p.intermediates.push(b),
                    utf8_rem: p.utf8_rem,
                    utf8_acc: p.utf8_acc,
                    utf8_min: p.utf8_min,
                }
            } else if b == 127 {
                p
            } else {
                ParserV::ground()
            },
            PState::Csi => if b < 32 {
                p
            } else if 48 <= b && b <= 57 {
                ParserV {
                    state: PState::Csi,
                    params: p.params,
                    cur: accum_param(p.cur, (b - 48) as u16),
                    any: true,
                    intermediates: p.intermediates,
                    utf8_rem: p.utf8_rem,
                    utf8_acc: p.utf8_acc,
                    utf8_min: p.utf8_min,
                }
            } else if b == 59 {
                ParserV {
                    state: PState::Csi,
                    params: p.params.push(p.cur),
                    cur: 0,
                    any: true,
                    intermediates: p.intermediates,
                    utf8_rem: p.utf8_rem,
                    utf8_acc: p.utf8_acc,
                    utf8_min: p.utf8_min,
                }
            } else if (32 <= b && b <= 47) || b == 58 || (60 <= b && b <= 63) {
                ParserV {
                    state: PState::Csi,
                    params: p.params,
                    cur: p.cur,
                    any: p.any,
                    intermediates: p.intermediates.push(b),
                    utf8_rem: p.utf8_rem,
                    utf8_acc: p.utf8_acc,
                    utf8_min: p.utf8_min,
                }
            } else if b == 127 {
                p
            } else {
                ParserV::ground()
            },
            PState::Osc => if b == 7 {
                ParserV::ground()
            } else {
                p
            },
            PState::Dcs => p,
            PState::Utf8 => if 128 <= b && b <= 191 {
                if p.utf8_rem > 1 {
                    ParserV {
                        state: PState::Utf8,
                        params: p.params,
                        cur: p.cur,
                        any: p.any,
                        intermediates: p.intermediates,
                        utf8_rem: (p.utf8_rem - 1) as u8,
                        utf8_acc: utf8_accumulate(p.utf8_acc, b),
                        utf8_min: p.utf8_min,
                    }
                } else {
                    clear_utf8(p)
                }
            } else {
                ground_step(clear_utf8(p), b)
            },
        }
    }
}

/// Which event, if any, one byte produces.
pub open spec fn parser_emit(p: ParserV, b: u8) -> Option<EventV> {
    if b == 27 {
        match p.state {
            PState::Osc => Some(EventV::Unsupported(UnsupportedKind::OsCommand)),
            PState::Dcs => Some(EventV::Unsupported(UnsupportedKind::DeviceControl)),
            PState::Utf8 => Some(EventV::Unsupported(UnsupportedKind::InvalidUtf8)),
            _ => None,
        }
    } else {
        match p.state {
            PState::Ground => ground_emit(b),
            PState::Escape => if b < 32 {
                Some(EventV::Execute(b))
            } else if b == 91 || b == 93 || b == 80 || (32 <= b && b <= 47) || b == 127 {
                None
            } else if b <= 126 {
                Some(EventV::EscFinal { intermediates: p.intermediates, action: b })
            } else {
                Some(EventV::Unsupported(UnsupportedKind::InvalidUtf8))
            },
            PState::Csi => if b < 32 {
                Some(EventV::Execute(b))
            } else if 64 <= b && b <= 126 {
                Some(
                    EventV::CsiFinal {
                        params: if p.any {
                            p.params.push(p.cur)
                        } else {
                            p.params
                        },
                        intermediates: p.intermediates,
                        action: b,
                    },
                )
            } else if b > 127 {
                Some(EventV::Unsupported(UnsupportedKind::InvalidUtf8))
            } else {
                None
            },
            PState::Osc => if b == 7 {
                Some(EventV::Unsupported(UnsupportedKind::OsCommand))
            } else {
                None
            },
            PState::Dcs => None,
            PState::Utf8 => if 128 <= b && b <= 191 {
                if p.utf8_rem > 1 {
                    None
                } else {
                    if utf8_valid(utf8_accumulate(p.utf8_acc, b), p.utf8_min) {
                        Some(EventV::Print(utf8_accumulate(p.utf8_acc, b) as char))
                    } else {
                        Some(EventV::Unsupported(UnsupportedKind::InvalidUtf8))
                    }
                }
            } else {
                ground_emit(b)
            },
        }
    }
}

/// The view of an optional event.
pub open spec fn opt_event_view(ev: Option<Event>) -> Option<EventV> {
    match ev {
        Some(e) => Some(e@),
        None => None,
    }
}

/// Relies on `char::from_u32` of std: for a Unicode scalar value it returns
/// the character with exactly that value.
#[verifier::external_body]
fn char_from_scalar(v: u32) -> (c: char)
    requires
        v < 0xD800 || (0xDFFF < v && v <= 0x10FFFF),
    ensures
        c == (v as char),
{
    char::from_u32(v).unwrap_or('\u{fffd}')
}

/// The control-stream interpreter.
pub struct Parser {
    state: PState,
    params: Vec<u16>,
    cur: u16,
    any: bool,
    intermediates: Vec<u8>,
    utf8_rem: u8,
    utf8_acc: u32,
    utf8_min: u32,
}

impl View for Parser {
    type V = ParserV;

    closed spec fn view(&self) -> ParserV {
        ParserV {
            state: self.state,
            params: self.params@,
            cur: self.cur,
            any: self.any,
            intermediates: self.intermediates@,
            utf8_rem: self.utf8_rem,
            utf8_acc: self.utf8_acc,
            utf8_min: self.utf8_min,
        }
    }
}

impl Parser {
    /// A fresh interpreter in the ground state.
    pub fn new() -> (p: Parser)
        ensures
            p@ == ParserV::ground(),
    {
        Parser {
            state: PState::Ground,
            params: Vec::new(),
            cur: 0,
            any: false,
            intermediates: Vec::new(),
            utf8_rem: 0,
            utf8_acc: 0,
            utf8_min: 0,
        }
    }

    /// Reset everything collected and move to a state.
    fn reset_to(&mut self, st: PState)
        ensures
            final(self)@ == (ParserV {
                state: st,
                params: Seq::empty(),
                cur: 0,
                any: false,
                intermediates: Seq::empty(),
                utf8_rem: 0,
                utf8_acc: 0,
                utf8_min: 0,
            }),
    {
        self.state = st;
        self.params.clear();
        self.cur = 0;
        self.any = false;
        self.intermediates.clear();
        self.utf8_rem = 0;
        self.utf8_acc = 0;
        self.utf8_min = 0;
    }

    /// Handle one byte of ordinary input: print, execute, start a UTF-8
    /// character, or report an invalid byte.
    fn ground_advance(&mut self, b: u8) -> (ev: Option<Event>)
        requires
            b != 27,
        ensures
            final(self)@ == ground_step(old(self)@, b),
            opt_event_view(ev) == ground_emit(b),
    {
        if b < 32 {
            Some(Event::Execute(b))
        } else if b <= 126 {
            Some(Event::Print(b as char))
        } else if b == 127 {
            None
        } else if 194 <= b && b <= 223 {
            self.state = PState::Utf8;
            self.utf8_acc = (b - 192) as u32;
            self.utf8_rem = 1;
            self.utf8_min = 0x80;
            None
        } else if 224 <= b && b <= 239 {
            self.state = PState::Utf8;
            self.utf8_acc = (b - 224) as u32;
            self.utf8_rem = 2;
            self.utf8_min = 0x800;
            None
        } else if 240 <= b && b <= 244 {
            self.state = PState::Utf8;
            self.utf8_acc = (b - 240) as u32;
            self.utf8_rem = 3;
            self.utf8_min = 0x10000;
            None
        } else {
            Some(Event::Unsupported(UnsupportedKind::InvalidUtf8))
        }
    }

    /// Advance the automaton by one byte of the echo stream.
    pub fn advance(&mut self, b: u8) -> (ev: Option<Event>)
        ensures
            final(self)@ == parser_step(old(self)@, b),
            opt_event_view(ev) == parser_emit(old(self)@, b),
    {
        if b == 27 {
            let was = self.state;
            self.reset_to(PState::Escape);
            match was {
                PState::Osc => Some(Event::Unsupported(UnsupportedKind::OsCommand)),
                PState::Dcs => Some(Event::Unsupported(UnsupportedKind::DeviceControl)),
                PState::Utf8 => Some(Event::Unsupported(UnsupportedKind::InvalidUtf8)),
                _ => None,
            }
        } else {
            match self.state {
                PState::Ground => self.ground_advance(b),
                PState::Escape => {
                    if b < 32 {
                        Some(Event::Execute(b))
                    } else if b == 91 {
                        self.reset_to(PState::Csi);
                        None
                    } else if b == 93 {
                        self.state = PState::Osc;
                        None
                    } else if b == 80 {
                        self.state = PState::Dcs;
                        None
                    } else if 32 <= b && b <= 47 {
                        self.intermediates.push(b);
                        None
                    } else if b == 127 {
                        None
                    } else if b <= 126 {
                        let mut inter: Vec<u8> = Vec::new();
                        core::mem::swap(&mut inter, &mut self.intermediates);
                        self.reset_to(PState::Ground);
                        Some(Event::EscFinal { intermediates: inter, action: b })
                    } else {
                        self.reset_to(PState::Ground);
                        Some(Event::Unsupported(UnsupportedKind::InvalidUtf8))
                    }
                },
                PState::Csi => {
                    if b < 32 {
                        Some(Event::Execute(b))
                    } else if 48 <= b && b <= 57 {
                        if self.cur < 6553 {
                            self.cur = 10 * self.cur + (b - 48) as u16;
                        } else {
                            self.cur = 65535;
                        }
                        self.any = true;
                        None
                    } else if b == 59 {
                        self.params.push(self.cur);
                        self.cur = 0;
                        self.any = true;
                        None
                    } else if (32 <= b && b <= 47) || b == 58 || (60 <= b && b <= 63) {
                        self.intermediates.push(b);
                        None
                    } else if b == 127 {
                        None
                    } else if 64 <= b && b <= 126 {
                        let mut ps: Vec<u16> = Vec::new();
                        core::mem::swap(&mut ps, &mut self.params);
                        if self.any {
                            ps.push(self.cur);
                        }
                        let mut inter: Vec<u8> = Vec::new();
                        core::mem::swap(&mut inter, &mut self.intermediates);
                        self.reset_to(PState::Ground);
                        Some(Event::CsiFinal { params: ps, intermediates: inter, action: b })
                    } else {
                        self.reset_to(PState::Ground);
                        Some(Event::Unsupported(UnsupportedKind::InvalidUtf8))
                    }
                },
                PState::Osc => {
                    if b == 7 {
                        self.reset_to(PState::Ground);
                        Some(Event::Unsupported(UnsupportedKind::OsCommand))
                    } else {
                        None
                    }
                },
                PState::Dcs => None,
                PState::Utf8 => {
                    if 128 <= b && b <= 191 {
                        let acc2: u32 = if self.utf8_acc < 0x200000 {
                            64 * self.utf8_acc + ((b - 128) as u32)
                        } else {
                            0x110000
                        };
                        if self.utf8_rem > 1 {
                            self.utf8_acc = acc2;
                            self.utf8_rem = self.utf8_rem - 1;
                            None
                        } else {
                            let min = self.utf8_min;
                            self.state = PState::Ground;
                            self.utf8_rem = 0;
                            self.utf8_acc = 0;
                            self.utf8_min = 0;
                            if min <= acc2 && (acc2 < 0xD800 || (0xDFFF < acc2 && acc2
                                <= 0x10FFFF)) {
                                Some(Event::Print(char_from_scalar(acc2)))
                            } else {
                                Some(Event::Unsupported(UnsupportedKind::InvalidUtf8))
                            }
                        }
                    } else {
                        self.state = PState::Ground;
                        self.utf8_rem = 0;
                        self.utf8_acc = 0;
                        self.utf8_min = 0;
                        self.ground_advance(b)
                    }
                },
            }
        }
    }
}

} // verus!
