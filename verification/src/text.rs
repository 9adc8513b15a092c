use vstd::prelude::*;

verus! {

/// The character for one decimal digit.
pub open spec fn digit_char(d: nat) -> char {
    if d == 0 {
        '0'
    } else if d == 1 {
        '1'
    } else if d == 2 {
        '2'
    } else if d == 3 {
        '3'
    } else if d == 4 {
        '4'
    } else if d == 5 {
        '5'
    } else if d == 6 {
        '6'
    } else if d == 7 {
        '7'
    } else if d == 8 {
        '8'
    } else {
        '9'
    }
}

/// The decimal digits of `n`, most significant first.
pub open spec fn dec_digits(n: nat) -> Seq<char>
    decreases n,
{
    if n < 10 {
        seq![digit_char(n)]
    } else {
        dec_digits(n / 10) + seq![digit_char(n % 10)]
    }
}

/// The decimal text of a signed value: a minus sign for a negative value,
/// then the digits of the magnitude.
pub open spec fn dec_int(n: int) -> Seq<char> {
    if n < 0 {
        seq!['-'] + dec_digits((-n) as nat)
    } else {
        dec_digits(n as nat)
    }
}

/// The `[i/n] description` label that opens every rendered line.
pub open spec fn label_text(group_idx: int, total_groups: int, desc: Seq<char>) -> Seq<char> {
    seq!['['] + dec_int(group_idx) + seq!['/'] + dec_int(total_groups) + seq![']', ' '] + desc
}

/// The glyph printed after a completed task's label.
pub open spec fn success_glyph() -> Seq<char> {
    "✔"@
}

/// The glyph printed after a failed task's label.
pub open spec fn failure_glyph() -> Seq<char> {
    "✘"@
}

/// The spinner frame shown at polling step `k`: a fixed four-frame cycle.
pub open spec fn spinner_frame(k: int) -> Seq<char> {
    if k % 4 == 0 {
        "—"@
    } else if k % 4 == 1 {
        "\\"@
    } else if k % 4 == 2 {
        "|"@
    } else {
        "/"@
    }
}

/// The control sequence that returns the cursor to the start of the line
/// and erases it, so the next frame overwrites the previous one.
pub open spec fn clear_prefix() -> Seq<char> {
    "\r\x1b[2K"@
}

/// A finished task's line: label, a space, then the given glyph.
pub open spec fn finished_line(
    group_idx: int,
    total_groups: int,
    desc: Seq<char>,
    glyph: Seq<char>,
) -> Seq<char> {
    label_text(group_idx, total_groups, desc) + seq![' '] + glyph
}

/// An in-progress frame: the erase sequence, the label, a space, and the
/// spinner frame for step `k`, all drawn in place.
pub open spec fn progress_line(
    group_idx: int,
    total_groups: int,
    desc: Seq<char>,
    k: int,
) -> Seq<char> {
    clear_prefix() + label_text(group_idx, total_groups, desc) + seq![' '] + spinner_frame(k)
}

/// Appends the character of one decimal digit.
fn push_digit(s: &mut String, d: u32)
    requires
        d < 10,
    ensures
        final(s)@ == old(s)@ + seq![digit_char(d as nat)],
{
    let t: &str = if d == 0 {
        "0"
    } else if d == 1 {
        "1"
    } else if d == 2 {
        "2"
    } else if d == 3 {
        "3"
    } else if d == 4 {
        "4"
    } else if d == 5 {
        "5"
    } else if d == 6 {
        "6"
    } else if d == 7 {
        "7"
    } else if d == 8 {
        "8"
    } else {
        "9"
    };
    proof {
        reveal_strlit("0");
        reveal_strlit("1");
        reveal_strlit("2");
        reveal_strlit("3");
        reveal_strlit("4");
        reveal_strlit("5");
        reveal_strlit("6");
        reveal_strlit("7");
        reveal_strlit("8");
        reveal_strlit("9");
        assert(t@ =~= seq![digit_char(d as nat)]);
    }
    s.append(t);
    proof {
        assert(s@ =~= old(s)@ + seq![digit_char(d as nat)]);
    }
}

/// Appends the decimal digits of `n`, most significant first.
fn push_dec_u32(s: &mut String, n: u32)
    ensures
        final(s)@ == old(s)@ + dec_digits(n as nat),
    decreases n,
{
    if n < 10 {
        push_digit(s, n);
    } else {
        push_dec_u32(s, n / 10);
        push_digit(s, n % 10);
        proof {
            assert(s@ =~= old(s)@ + dec_digits(n as nat));
        }
    }
}

/// Appends the decimal text of a signed value.
fn push_dec_i32(s: &mut String, n: i32)
    ensures
        final(s)@ == old(s)@ + dec_int(n as int),
{
    if n >= 0 {
        push_dec_u32(s, n as u32);
    } else {
        proof {
            reveal_strlit("-");
        }
        s.append("-");
        let wide: i64 = n as i64;
        let mag: u32 = (-wide) as u32;
        push_dec_u32(s, mag);
        proof {
            assert(s@ =~= old(s)@ + dec_int(n as int));
        }
    }
}

/// Builds the `[i/n] description` label that opens every rendered line.
pub fn format_label(group_idx: i32, total_groups: i32, desc: &str) -> (r: String)
    ensures
        r@ == label_text(group_idx as int, total_groups as int, desc@),
{
    let mut s = String::new();
    proof {
        reveal_strlit("[");
        reveal_strlit("/");
        reveal_strlit("] ");
    }
    s.append("[");
    push_dec_i32(&mut s, group_idx);
    s.append("/");
    push_dec_i32(&mut s, total_groups);
    s.append("] ");
    s.append(desc);
    proof {
        assert(s@ =~= label_text(group_idx as int, total_groups as int, desc@));
    }
    s
}

/// The line printed once when a task completes successfully.
pub fn success_line(group_idx: i32, total_groups: i32, desc: &str) -> (r: String)
    ensures
        r@ == finished_line(group_idx as int, total_groups as int, desc@, success_glyph()),
{
    let mut s = format_label(group_idx, total_groups, desc);
    proof {
        reveal_strlit(" ");
    }
    s.append(" ");
    s.append("✔");
    proof {
        assert(s@ =~= finished_line(group_idx as int, total_groups as int, desc@, success_glyph()));
    }
    s
}

/// The line printed once when a task fails.
pub fn failure_line(group_idx: i32, total_groups: i32, desc: &str) -> (r: String)
    ensures
        r@ == finished_line(group_idx as int, total_groups as int, desc@, failure_glyph()),
{
    let mut s = format_label(group_idx, total_groups, desc);
    proof {
        reveal_strlit(" ");
    }
    s.append(" ");
    s.append("✘");
    proof {
        assert(s@ =~= finished_line(group_idx as int, total_groups as int, desc@, failure_glyph()));
    }
    s
}

/// The spinner frame for polling step `frame`.
pub fn spinner_frame_text(frame: usize) -> (r: &'static str)
    ensures
        r@ == spinner_frame(frame as int),
{
    let k = frame % 4;
    if k == 0 {
        "—"
    } else if k == 1 {
        "\\"
    } else if k == 2 {
        "|"
    } else {
        "/"
    }
}

/// The erase-and-return control sequence, printed before a finished line
/// replaces the spinner.
pub fn clear_text() -> (r: &'static str)
    ensures
        r@ == clear_prefix(),
{
    "\r\x1b[2K"
}

/// One full in-progress frame, drawn in place over the previous one.
pub fn spinner_line(group_idx: i32, total_groups: i32, desc: &str, frame: usize) -> (r: String)
    ensures
        r@ == progress_line(group_idx as int, total_groups as int, desc@, frame as int),
{
    let mut s = String::new();
    s.append(clear_text());
    let label = format_label(group_idx, total_groups, desc);
    s.append(label.as_str());
    proof {
        reveal_strlit(" ");
    }
    s.append(" ");
    s.append(spinner_frame_text(frame));
    proof {
        assert(s@ =~= progress_line(group_idx as int, total_groups as int, desc@, frame as int));
    }
    s
}

} // verus!
