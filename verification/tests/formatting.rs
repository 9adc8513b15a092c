use task_progress::{
    clear_text, failure_line, format_label, paint, spinner_frame_text, spinner_line, success_line,
    RenderStyle,
};

#[test]
fn label_simple() {
    assert_eq!(format_label(1, 3, "build"), "[1/3] build");
}

#[test]
fn label_unset_placement() {
    assert_eq!(format_label(0, 0, "A"), "[0/0] A");
}

#[test]
fn label_negative_and_wide() {
    assert_eq!(format_label(-5, 10, "x"), "[-5/10] x");
    assert_eq!(
        format_label(i32::MIN, i32::MAX, "edge"),
        "[-2147483648/2147483647] edge"
    );
}

#[test]
fn label_empty_description() {
    assert_eq!(format_label(2, 2, ""), "[2/2] ");
}

#[test]
fn success_line_has_check_glyph() {
    assert_eq!(success_line(1, 1, "A"), "[1/1] A \u{2714}");
}

#[test]
fn failure_line_has_cross_glyph() {
    assert_eq!(failure_line(1, 1, "B"), "[1/1] B \u{2718}");
}

#[test]
fn spinner_frames_cycle_through_four() {
    let expected = ["\u{2014}", "\\", "|", "/"];
    for frame in 0..12usize {
        assert_eq!(spinner_frame_text(frame), expected[frame % 4]);
    }
}

#[test]
fn clear_sequence_erases_line() {
    assert_eq!(clear_text(), "\r\x1b[2K");
}

#[test]
fn spinner_line_draws_in_place() {
    assert_eq!(spinner_line(2, 5, "fetch", 1), "\r\x1b[2K[2/5] fetch \\");
    assert_eq!(spinner_line(2, 5, "fetch", 4), "\r\x1b[2K[2/5] fetch \u{2014}");
}

#[test]
fn paint_keeps_the_text() {
    let line = success_line(1, 1, "A");
    let styled = paint(line.as_str(), RenderStyle::Success);
    assert!(styled.contains("[1/1] A \u{2714}"));

    let line = failure_line(1, 1, "B");
    let styled = paint(line.as_str(), RenderStyle::Failure);
    assert!(styled.contains("[1/1] B \u{2718}"));

    let line = spinner_line(1, 1, "C", 0);
    let styled = paint(line.as_str(), RenderStyle::Muted);
    assert!(styled.contains("[1/1] C \u{2014}"));
}
