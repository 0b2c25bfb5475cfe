use smrty::collapse::collapse_punctuation;
use smrty::explicit::smart_quotes_explicit;
use smrty::implicit::{is_escaped, smart_quotes_implicit};
use smrty::quote::{Quote, QuoteDirection, QuoteKind};
use smrty::transform;

#[test]
fn test_smart_quotes() {
    let implicit =
        "Lorem ipsum \"dolor sit\" amet consectetur adipisicing elit, sed 201 203 do eiusmod
tempor incididunt ut labore et's dolore magna aliqua. Ut enim ad minim veniam,
quis nostrud exercitation ullamco 'laboris nisi' ut \"aliquip 'ex' ea\" commodo
consequat.";

    let explicit =
        "Lorem ipsum ``dolor sit'' amet consectetur adipisicing elit, sed 201 203 do eiusmod
tempor incididunt ut labore et's dolore magna aliqua. Ut enim ad minim veniam,
quis nostrud exercitation ullamco `laboris nisi' ut ``aliquip `ex' ea\" commodo
consequat.";

    let expected =
        "Lorem ipsum “dolor sit” amet consectetur adipisicing elit, sed 201 203 do eiusmod
tempor incididunt ut labore et’s dolore magna aliqua. Ut enim ad minim veniam,
quis nostrud exercitation ullamco ‘laboris nisi’ ut “aliquip ‘ex’ ea” commodo
consequat.";

    assert_eq!(smart_quotes_implicit(implicit), expected);
    assert_eq!(smart_quotes_explicit(explicit), expected);
}

#[test]
fn classify_render_round_trip() {
    // Each of the six recognized characters survives classify-then-render
    // exactly, and carries the expected kind and direction.
    let cases = [
        ('\'', None, QuoteKind::Single),
        ('"', None, QuoteKind::Double),
        ('‘', Some(QuoteDirection::Open), QuoteKind::Single),
        ('’', Some(QuoteDirection::Closed), QuoteKind::Single),
        ('“', Some(QuoteDirection::Open), QuoteKind::Double),
        ('”', Some(QuoteDirection::Closed), QuoteKind::Double),
    ];
    for (c, direction, kind) in cases {
        let q = Quote::from_char(c).unwrap();
        assert_eq!(q.direction, direction);
        assert_eq!(q.kind, kind);
        assert_eq!(q.to_char(), c);
    }
}

#[test]
fn classify_ordinary_characters() {
    // Classification is total: every character outside the six-character
    // quote set is ordinary text, never an error.
    for c in ['a', 'Z', '0', ' ', '\\', '`', '-', '.', '—', '…', '⟨'] {
        assert!(Quote::from_char(c).is_none());
    }
}

#[test]
fn quote_new_fields() {
    let q = Quote::new(Some(QuoteDirection::Open), QuoteKind::Double);
    assert_eq!(q.direction, Some(QuoteDirection::Open));
    assert_eq!(q.kind, QuoteKind::Double);
    assert_eq!(q.to_char(), '“');
}

#[test]
fn direction_from_previous() {
    assert_eq!(QuoteDirection::from_previous(None), QuoteDirection::Open);
    assert_eq!(QuoteDirection::from_previous(Some(' ')), QuoteDirection::Open);
    assert_eq!(QuoteDirection::from_previous(Some('a')), QuoteDirection::Closed);
    assert_eq!(QuoteDirection::from_previous(Some('(')), QuoteDirection::Open);
}

#[test]
fn direction_opening_contexts() {
    for c in ['\t', '\n', '[', '{', '⟨'] {
        assert_eq!(QuoteDirection::from_previous(Some(c)), QuoteDirection::Open);
    }
    for c in ['.', ')', ']', 'z', '9', '"'] {
        assert_eq!(QuoteDirection::from_previous(Some(c)), QuoteDirection::Closed);
    }
}

#[test]
fn escape_marker() {
    assert!(is_escaped(Some('\\')));
    assert!(!is_escaped(Some('/')));
    assert!(!is_escaped(None));
}

#[test]
fn collapsing_precedence() {
    // A triple hyphen collapses to a single em-dash, never an en-dash
    // followed by a stray hyphen; a triple period to one ellipsis.
    assert_eq!(collapse_punctuation("---"), "—");
    assert_eq!(collapse_punctuation("--"), "–");
    assert_eq!(collapse_punctuation("..."), "…");
    assert_eq!(collapse_punctuation("-"), "-");
    assert_eq!(collapse_punctuation(".."), "..");
    assert_eq!(collapse_punctuation("."), ".");
}

#[test]
fn collapsing_longer_runs() {
    // Characters after the first three of a run restart the matching.
    assert_eq!(collapse_punctuation("----"), "—-");
    assert_eq!(collapse_punctuation("-----"), "—–");
    assert_eq!(collapse_punctuation("------"), "——");
    assert_eq!(collapse_punctuation("...."), "….");
    assert_eq!(collapse_punctuation("......"), "……");
}

#[test]
fn scenario_implicit() {
    assert_eq!(transform("She said \"hi\" to (him).", false), "She said “hi” to (him).");
}

#[test]
fn scenario_dash_ellipsis() {
    assert_eq!(transform("wait...this---that--other", false), "wait…this—that–other");
}

#[test]
fn scenario_explicit() {
    assert_eq!(transform("He said ``hello'' to `her'.", true), "He said “hello” to ‘her’.");
}

#[test]
fn scenario_escape() {
    // Escaped straight quotes stay straight; the backslash markers are
    // retracted from the output.
    assert_eq!(smart_quotes_implicit("\\\"quoted\\\""), "\"quoted\"");
}

#[test]
fn empty_input() {
    assert_eq!(smart_quotes_implicit(""), "");
    assert_eq!(smart_quotes_explicit(""), "");
    assert_eq!(collapse_punctuation(""), "");
    assert_eq!(transform("", false), "");
    assert_eq!(transform("", true), "");
}

#[test]
fn implicit_quote_at_start_opens() {
    assert_eq!(smart_quotes_implicit("'hi'"), "‘hi’");
    assert_eq!(smart_quotes_implicit("\"hi\""), "“hi”");
}

#[test]
fn implicit_doubled_quotes_resolve_independently() {
    // Each straight quote resolves against the raw character immediately
    // before it, so the second of a doubled pair sees the first quote
    // (not an opening context) and closes.
    assert_eq!(smart_quotes_implicit("\"\"text\"\""), "“”text””");
}

#[test]
fn implicit_curly_quotes_elided() {
    // The policy chosen for already-curly input quotes: they are elided.
    assert_eq!(smart_quotes_implicit("a“b”c"), "abc");
}

#[test]
fn implicit_prev_is_raw_even_after_elision() {
    // The "previous character" is always the raw input character, even
    // when that character was elided: the straight quote after the elided
    // curly quote sees the curly quote, not the parenthesis, and closes.
    assert_eq!(smart_quotes_implicit("(“'x"), "(’x");
}

#[test]
fn implicit_escape_applies_to_straight_quotes_only() {
    // A backslash escapes the straight quote after it; an already-curly
    // quote is elided whether or not a backslash precedes it, and the
    // backslash then stays in the output.
    assert_eq!(smart_quotes_implicit("\\“a"), "\\a");
}

#[test]
fn implicit_escaped_quote_after_elided_curly() {
    // The escape check looks at the previously *emitted* character: the
    // elided curly quote between the backslash and the straight quote
    // leaves the emitted backslash in place, so the quote stays straight.
    assert_eq!(smart_quotes_implicit("\\“\""), "\"");
}

#[test]
fn explicit_double_quote_fallback_closes() {
    assert_eq!(smart_quotes_explicit("\"x\""), "”x”");
}

#[test]
fn explicit_doubled_markers_first() {
    assert_eq!(smart_quotes_explicit("``x''"), "“x”");
    assert_eq!(smart_quotes_explicit("`x'"), "‘x’");
    // Three in a row: the doubled marker is taken greedily from the left,
    // the leftover single marker converts on its own.
    assert_eq!(smart_quotes_explicit("```"), "“‘");
    assert_eq!(smart_quotes_explicit("'''"), "”’");
}

#[test]
fn pipeline_collapses_after_conversion() {
    assert_eq!(transform("a 'b'---c...", false), "a ‘b’—c…");
    assert_eq!(transform("``a''--b", true), "“a”–b");
}
