//! The closed set of events the control-stream interpreter produces, and the
//! directives the line model answers them with.

use vstd::prelude::*;

verus! {

/// The kind of input the interpreter recognises but does not support.
/// Such input is reported to the caller and otherwise ignored; it never
/// aborts the session.
#[derive(Clone, Copy, PartialEq, Eq, Structural, Debug)]
pub enum UnsupportedKind {
    /// An operating-system-command string (`ESC ]` ... terminator).
    OsCommand,
    /// A device-control string (`ESC P` ... terminator).
    DeviceControl,
    /// A byte sequence that is not valid UTF-8 (a stray continuation byte,
    /// an impossible lead, an overlong, surrogate or out-of-range encoding,
    /// a truncated sequence), or a high byte inside an escape or control
    /// sequence.
    InvalidUtf8,
}

/// One event decoded from the echo byte stream.
pub enum Event {
    /// A printable character.
    Print(char),
    /// A lone C0 control byte (newline, carriage return, backspace, ...).
    Execute(u8),
    /// A complete control sequence: `ESC [ params intermediates action`.
    CsiFinal { params: Vec<u16>, intermediates: Vec<u8>, action: u8 },
    /// A complete escape sequence: `ESC intermediates action`.
    EscFinal { intermediates: Vec<u8>, action: u8 },
    /// Input the interpreter classifies but does not act on.
    Unsupported(UnsupportedKind),
}

/// The mathematical form of an [`Event`].
pub enum EventV {
    Print(char),
    Execute(u8),
    CsiFinal { params: Seq<u16>, intermediates: Seq<u8>, action: u8 },
    EscFinal { intermediates: Seq<u8>, action: u8 },
    Unsupported(UnsupportedKind),
}

impl View for Event {
    type V = EventV;

    open spec fn view(&self) -> EventV {
        match self {
            Event::Print(c) => EventV::Print(*c),
            Event::Execute(b) => EventV::Execute(*b),
            Event::CsiFinal { params, intermediates, action } => (EventV::CsiFinal {
                params: params@,
                intermediates: intermediates@,
                action: *action,
            }),
            Event::EscFinal { intermediates, action } => (EventV::EscFinal {
                intermediates: intermediates@,
                action: *action,
            }),
            Event::Unsupported(k) => EventV::Unsupported(*k),
        }
    }
}

/// What the line model asks its caller to do after reducing one event.
#[derive(Clone, Copy, PartialEq, Eq, Structural, Debug)]
pub enum Directive {
    /// The line changed visibly: redraw the whole current line.
    Redraw,
    /// The line was committed: emit exactly one newline, no redraw.
    Newline,
    /// The state may have changed (cursor motion) but nothing is emitted.
    Silent,
    /// The event is not supported: report it and emit nothing.
    Report,
}

} // verus!
