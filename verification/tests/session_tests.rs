use spice::session::{Session, SessionEnd};
use syntect::highlighting::ThemeSet;
use syntect::parsing::SyntaxSet;

fn strip_ansi(s: &str) -> String {
    let mut out = String::new();
    let mut chars = s.chars();
    while let Some(c) = chars.next() {
        if c == '\u{1b}' {
            for f in chars.by_ref() {
                if ('\u{40}'..='\u{7e}').contains(&f) && f != '[' {
                    break;
                }
            }
        } else {
            out.push(c);
        }
    }
    out
}

#[test]
fn test_writing_to_line() {
    let set = SyntaxSet::load_defaults_nonewlines();
    let ss = set
        .find_syntax_by_extension("py")
        .expect("failed to make syntax set");
    let ts = ThemeSet::load_defaults();

    let highlightlines = syntect::easy::HighlightLines::new(ss, &ts.themes["base16-ocean.dark"]);

    let mut performer = Session::new(highlightlines, set);

    let mut out = String::new();
    for x in "hello world".as_bytes() {
        performer.feed_echo_byte(*x, &mut out);
    }

    assert_eq!("hello world", performer.line_string())
}

#[test]
fn newline_emits_exactly_one_newline_whatever_came_before() {
    let set = SyntaxSet::load_defaults_nonewlines();
    let ss = set
        .find_syntax_by_extension("py")
        .expect("failed to make syntax set");
    let ts = ThemeSet::load_defaults();
    let hl = syntect::easy::HighlightLines::new(ss, &ts.themes["base16-ocean.dark"]);
    let mut session = Session::new(hl, set);

    let mut scratch = String::new();
    for b in b"abc\x08\x1b[K" {
        session.feed_echo_byte(*b, &mut scratch);
    }
    let mut out = String::new();
    session.feed_echo_byte(0x0A, &mut out);
    assert_eq!(out, "\n");
    assert_eq!(session.line_string(), "");
    assert_eq!(session.cursor(), 0);
}

#[test]
fn echo_stream_produces_one_growing_redraw_per_keystroke() {
    let set = SyntaxSet::load_defaults_nonewlines();
    let ss = set
        .find_syntax_by_extension("py")
        .expect("failed to make syntax set");
    let ts = ThemeSet::load_defaults();
    let hl = syntect::easy::HighlightLines::new(ss, &ts.themes["base16-ocean.dark"]);
    let mut session = Session::new(hl, set);

    let echo = b"hello\n".to_vec();
    let r = session.tick(&echo, Vec::new(), false, false);
    assert_eq!(r.end, None);

    let pieces: Vec<&str> = r.host_out.split('\n').collect();
    // Five redraw frames, each terminated by a newline, then the bare
    // newline of the commit, then the empty remainder of the final split.
    assert_eq!(pieces.len(), 7);
    let expected = ["h", "he", "hel", "hell", "hello"];
    for (frame, want) in pieces.iter().take(5).zip(expected.iter()) {
        assert!(frame.starts_with("\x1b[1F\x1b[2K"));
        assert_eq!(strip_ansi(frame), *want);
    }
    assert_eq!(pieces[5], "");
    assert_eq!(pieces[6], "");
    assert_eq!(session.line_string(), "");
    assert_eq!(session.cursor(), 0);
}

#[test]
fn input_bytes_pass_through_uninterpreted_in_order() {
    let set = SyntaxSet::load_defaults_nonewlines();
    let ss = set
        .find_syntax_by_extension("py")
        .expect("failed to make syntax set");
    let ts = ThemeSet::load_defaults();
    let hl = syntect::easy::HighlightLines::new(ss, &ts.themes["base16-ocean.dark"]);
    let mut session = Session::new(hl, set);

    let input = b"\x1b[Kxyz\n".to_vec();
    let r = session.tick(&Vec::new(), input.clone(), false, false);
    assert_eq!(r.to_child, input);
    assert_eq!(r.host_out, "");
    assert_eq!(session.line_string(), "");
    assert_eq!(session.unsupported_reports(), 0);
}

#[test]
fn child_exit_ends_the_tick_without_processing() {
    let set = SyntaxSet::load_defaults_nonewlines();
    let ss = set
        .find_syntax_by_extension("py")
        .expect("failed to make syntax set");
    let ts = ThemeSet::load_defaults();
    let hl = syntect::easy::HighlightLines::new(ss, &ts.themes["base16-ocean.dark"]);
    let mut session = Session::new(hl, set);

    let r = session.tick(&b"abc".to_vec(), b"xyz".to_vec(), true, false);
    assert_eq!(r.end, Some(SessionEnd::ChildExited));
    assert_eq!(r.host_out, "");
    assert!(r.to_child.is_empty());
    assert_eq!(session.line_string(), "");
}

#[test]
fn closed_relay_channel_ends_the_session_in_order() {
    let set = SyntaxSet::load_defaults_nonewlines();
    let ss = set
        .find_syntax_by_extension("py")
        .expect("failed to make syntax set");
    let ts = ThemeSet::load_defaults();
    let hl = syntect::easy::HighlightLines::new(ss, &ts.themes["base16-ocean.dark"]);
    let mut session = Session::new(hl, set);

    let r = session.tick(&b"a".to_vec(), Vec::new(), false, true);
    assert_eq!(r.end, Some(SessionEnd::ChildCommunicationLost));
    // The bytes already delivered are still interpreted before the shutdown.
    assert_eq!(session.line_string(), "a");
}

#[test]
fn multibyte_characters_reach_the_line() {
    let set = SyntaxSet::load_defaults_nonewlines();
    let ss = set
        .find_syntax_by_extension("py")
        .expect("failed to make syntax set");
    let ts = ThemeSet::load_defaults();
    let hl = syntect::easy::HighlightLines::new(ss, &ts.themes["base16-ocean.dark"]);
    let mut session = Session::new(hl, set);

    let mut out = String::new();
    for b in "hé🦀!".as_bytes() {
        session.feed_echo_byte(*b, &mut out);
    }
    assert_eq!(session.line_string(), "hé🦀!");
    assert_eq!(session.cursor(), 4);
    assert_eq!(session.unsupported_reports(), 0);
}

#[test]
fn unsupported_input_is_counted_never_fatal() {
    let set = SyntaxSet::load_defaults_nonewlines();
    let ss = set
        .find_syntax_by_extension("py")
        .expect("failed to make syntax set");
    let ts = ThemeSet::load_defaults();
    let hl = syntect::easy::HighlightLines::new(ss, &ts.themes["base16-ocean.dark"]);
    let mut session = Session::new(hl, set);

    let mut out = String::new();
    for b in b"\x1b]0;t\x07\x1b[5Jok" {
        session.feed_echo_byte(*b, &mut out);
    }
    assert_eq!(session.unsupported_reports(), 2);
    assert_eq!(session.line_string(), "ok");
}
