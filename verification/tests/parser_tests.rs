use spice::event::{Event, UnsupportedKind};
use spice::parser::Parser;

fn feed(parser: &mut Parser, bytes: &[u8]) -> Vec<Event> {
    let mut events = Vec::new();
    for b in bytes {
        if let Some(ev) = parser.advance(*b) {
            events.push(ev);
        }
    }
    events
}

#[test]
fn printable_bytes_become_print_events() {
    let mut parser = Parser::new();
    let events = feed(&mut parser, b"ok");
    assert_eq!(events.len(), 2);
    assert!(matches!(events[0], Event::Print('o')));
    assert!(matches!(events[1], Event::Print('k')));
}

#[test]
fn control_bytes_become_execute_events() {
    let mut parser = Parser::new();
    let events = feed(&mut parser, &[0x0A, 0x0D, 0x08]);
    assert_eq!(events.len(), 3);
    assert!(matches!(events[0], Event::Execute(0x0A)));
    assert!(matches!(events[1], Event::Execute(0x0D)));
    assert!(matches!(events[2], Event::Execute(0x08)));
}

#[test]
fn csi_with_parameters_is_dispatched_whole() {
    let mut parser = Parser::new();
    let events = feed(&mut parser, b"\x1b[12;34H");
    assert_eq!(events.len(), 1);
    match &events[0] {
        Event::CsiFinal { params, intermediates, action } => {
            assert_eq!(params, &vec![12u16, 34u16]);
            assert!(intermediates.is_empty());
            assert_eq!(*action, b'H');
        }
        other => panic!("expected a control sequence, got {:?}", event_name(other)),
    }
}

#[test]
fn csi_without_parameters_has_none() {
    let mut parser = Parser::new();
    let events = feed(&mut parser, b"\x1b[K");
    assert_eq!(events.len(), 1);
    match &events[0] {
        Event::CsiFinal { params, intermediates, action } => {
            assert!(params.is_empty());
            assert!(intermediates.is_empty());
            assert_eq!(*action, b'K');
        }
        other => panic!("expected a control sequence, got {:?}", event_name(other)),
    }
}

#[test]
fn csi_parameter_saturates_instead_of_wrapping() {
    let mut parser = Parser::new();
    let events = feed(&mut parser, b"\x1b[99999999K");
    assert_eq!(events.len(), 1);
    match &events[0] {
        Event::CsiFinal { params, .. } => assert_eq!(params, &vec![65535u16]),
        other => panic!("expected a control sequence, got {:?}", event_name(other)),
    }
}

#[test]
fn private_markers_are_kept_as_intermediates() {
    let mut parser = Parser::new();
    let events = feed(&mut parser, b"\x1b[?25l");
    assert_eq!(events.len(), 1);
    match &events[0] {
        Event::CsiFinal { params, intermediates, action } => {
            assert_eq!(params, &vec![25u16]);
            assert_eq!(intermediates, &vec![b'?']);
            assert_eq!(*action, b'l');
        }
        other => panic!("expected a control sequence, got {:?}", event_name(other)),
    }
}

#[test]
fn escape_dispatch_carries_its_final_byte() {
    let mut parser = Parser::new();
    let events = feed(&mut parser, b"\x1b7");
    assert_eq!(events.len(), 1);
    match &events[0] {
        Event::EscFinal { intermediates, action } => {
            assert!(intermediates.is_empty());
            assert_eq!(*action, b'7');
        }
        other => panic!("expected an escape dispatch, got {:?}", event_name(other)),
    }
}

#[test]
fn osc_string_is_consumed_and_reported_once() {
    let mut parser = Parser::new();
    let events = feed(&mut parser, b"\x1b]0;title\x07a");
    assert_eq!(events.len(), 2);
    assert!(matches!(events[0], Event::Unsupported(UnsupportedKind::OsCommand)));
    assert!(matches!(events[1], Event::Print('a')));
}

#[test]
fn two_byte_utf8_prints_its_character() {
    let mut parser = Parser::new();
    let events = feed(&mut parser, "é".as_bytes());
    assert_eq!(events.len(), 1);
    assert!(matches!(events[0], Event::Print('é')));
}

#[test]
fn three_byte_utf8_prints_its_character() {
    let mut parser = Parser::new();
    let events = feed(&mut parser, "€".as_bytes());
    assert_eq!(events.len(), 1);
    assert!(matches!(events[0], Event::Print('€')));
}

#[test]
fn four_byte_utf8_prints_its_character() {
    let mut parser = Parser::new();
    let events = feed(&mut parser, "🦀".as_bytes());
    assert_eq!(events.len(), 1);
    assert!(matches!(events[0], Event::Print('🦀')));
}

#[test]
fn stray_continuation_byte_is_reported() {
    let mut parser = Parser::new();
    let events = feed(&mut parser, &[0xA9]);
    assert_eq!(events.len(), 1);
    assert!(matches!(events[0], Event::Unsupported(UnsupportedKind::InvalidUtf8)));
}

#[test]
fn impossible_lead_byte_is_reported() {
    let mut parser = Parser::new();
    let events = feed(&mut parser, &[0xC0, 0xFF]);
    assert_eq!(events.len(), 2);
    assert!(matches!(events[0], Event::Unsupported(UnsupportedKind::InvalidUtf8)));
    assert!(matches!(events[1], Event::Unsupported(UnsupportedKind::InvalidUtf8)));
}

#[test]
fn overlong_encoding_is_reported_not_decoded() {
    // 0xE0 0x80 0x80 would decode to 0, which a three-byte form may not carry.
    let mut parser = Parser::new();
    let events = feed(&mut parser, &[0xE0, 0x80, 0x80]);
    assert_eq!(events.len(), 1);
    assert!(matches!(events[0], Event::Unsupported(UnsupportedKind::InvalidUtf8)));
}

#[test]
fn surrogate_encoding_is_reported_not_decoded() {
    // 0xED 0xA0 0x80 would decode to 0xD800, a surrogate.
    let mut parser = Parser::new();
    let events = feed(&mut parser, &[0xED, 0xA0, 0x80]);
    assert_eq!(events.len(), 1);
    assert!(matches!(events[0], Event::Unsupported(UnsupportedKind::InvalidUtf8)));
}

#[test]
fn truncated_utf8_is_abandoned_and_the_next_byte_kept() {
    let mut parser = Parser::new();
    let events = feed(&mut parser, &[0xC3, b'a']);
    assert_eq!(events.len(), 1);
    assert!(matches!(events[0], Event::Print('a')));
}

#[test]
fn utf8_interrupted_by_escape_is_reported() {
    let mut parser = Parser::new();
    let events = feed(&mut parser, &[0xC3, 0x1B, b'7']);
    assert_eq!(events.len(), 2);
    assert!(matches!(events[0], Event::Unsupported(UnsupportedKind::InvalidUtf8)));
    assert!(matches!(events[1], Event::EscFinal { .. }));
}

#[test]
fn delete_byte_is_ignored() {
    let mut parser = Parser::new();
    let events = feed(&mut parser, &[0x7F]);
    assert!(events.is_empty());
}

fn event_name(ev: &Event) -> &'static str {
    match ev {
        Event::Print(_) => "print",
        Event::Execute(_) => "execute",
        Event::CsiFinal { .. } => "csi",
        Event::EscFinal { .. } => "esc",
        Event::Unsupported(_) => "unsupported",
    }
}
