use editor_core::commands::{get_rendered_text, open_file};
use editor_core::document::Document;
use editor_core::editor::{render, EditorState, LineInfo};

fn opened(text: &str) -> EditorState {
    let mut state = EditorState::new();
    open_file("notes.txt".to_string(), text.as_bytes(), &mut state).unwrap();
    state
}

fn triples(lines: &[LineInfo]) -> Vec<(String, usize, usize)> {
    lines.iter().map(|line| (line.text.clone(), line.start_char_idx, line.len_chars)).collect()
}

fn triple(text: &str, start: usize, len: usize) -> (String, usize, usize) {
    (text.to_string(), start, len)
}

/// The projection as a walk over the rope's own line iterator computes it.
fn walked(text: &str) -> Vec<(String, usize, usize)> {
    let rope = ropey::Rope::from_str(text);
    let mut out = Vec::new();
    let mut start = 0;
    for line in rope.lines() {
        let whole = line.to_string();
        let shown = whole.trim_end_matches(['\r', '\n']);
        out.push((shown.to_string(), start, line.len_chars()));
        start += line.len_chars();
    }
    out
}

#[test]
fn an_empty_document_has_one_empty_line() {
    let state = EditorState::new();
    assert_eq!(triples(&state.get_rendered_text()), vec![triple("", 0, 0)]);
}

#[test]
fn lines_are_shown_without_their_line_break() {
    let state = opened("first\nsecond\r\nthird");
    assert_eq!(
        triples(&state.get_rendered_text()),
        vec![triple("first", 0, 6), triple("second", 6, 8), triple("third", 14, 5)]
    );
    assert_eq!(
        triples(&get_rendered_text(&state).unwrap()),
        triples(&state.get_rendered_text())
    );
}

#[test]
fn a_trailing_line_break_gives_an_empty_last_line() {
    let state = opened("a\n");
    assert_eq!(triples(&state.get_rendered_text()), vec![triple("a", 0, 2), triple("", 2, 0)]);
}

#[test]
fn line_starts_count_characters() {
    let state = opened("żółw\nπ\n𝄞𝄞");
    assert_eq!(
        triples(&state.get_rendered_text()),
        vec![triple("żółw", 0, 5), triple("π", 5, 2), triple("𝄞𝄞", 7, 2)]
    );
}

#[test]
fn only_carriage_returns_and_line_feeds_are_stripped() {
    let state = opened("a\u{2028}b\u{85}c\rd");
    assert_eq!(
        triples(&state.get_rendered_text()),
        vec![
            triple("a\u{2028}", 0, 2),
            triple("b\u{85}", 2, 2),
            triple("c", 4, 2),
            triple("d", 6, 1)
        ]
    );
}

#[test]
fn blank_lines_are_kept() {
    let state = opened("\n\n\r\n\r\r\nx");
    assert_eq!(
        triples(&state.get_rendered_text()),
        vec![
            triple("", 0, 1),
            triple("", 1, 1),
            triple("", 2, 2),
            triple("", 4, 1),
            triple("", 5, 2),
            triple("x", 7, 1)
        ]
    );
}

#[test]
fn the_lines_tile_the_document() {
    let text = "alpha\r\nbeta\n\ngamma\u{0B}delta\u{0C}\repsilon\n";
    let doc = Document::from_text(text);
    let lines = render(&doc);
    assert_eq!(lines.len(), doc.line_count());
    let mut next = 0;
    for line in &lines {
        assert_eq!(line.start_char_idx, next);
        next += line.len_chars;
    }
    assert_eq!(next, doc.len_chars());
}

#[test]
fn the_projection_is_what_walking_the_lines_gives() {
    let samples = [
        "",
        "\n",
        "\r",
        "\r\n",
        "\n\r",
        "\r\r\n\n",
        "no line break",
        "one\ntwo\nthree\n",
        "tabs\tand spaces  \r\n\r\nend\r",
        "unicode\u{2028}separators\u{2029}and\u{85}more\u{0B}of\u{0C}them",
        "mixed ñ\r\n𝄞 clef\n—\r",
    ];
    for sample in samples {
        let doc = Document::from_text(sample);
        assert_eq!(triples(&render(&doc)), walked(sample), "for {:?}", sample);
    }
}

#[test]
fn a_long_document_is_projected_line_by_line() {
    let mut text = String::new();
    for i in 0..3000 {
        text.push_str(&format!("line number {}\r\n", i));
    }
    let doc = Document::from_text(&text);
    let lines = render(&doc);
    assert_eq!(lines.len(), 3001);
    assert_eq!(triples(&lines), walked(&text));
    assert_eq!(lines[2999].text, "line number 2999");
    assert_eq!(lines[3000].text, "");
}
