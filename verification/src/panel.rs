//! The boxed panel that presents the result of a successful upload.
//!
//! A panel is a title and some lines of text inside a frame of box-drawing
//! characters. How wide a text is on a terminal, and how it is padded to a
//! width, is the business of the `console` crate; how wide the box is and
//! what stands in each of its lines is decided here.

use vstd::prelude::*;
use vstd::string::*;

verus! {

/// The number of terminal columns that a text takes, as
/// `console::measure_text_width` counts them.
pub uninterp spec fn display_width(text: Seq<char>) -> nat;

/// Where a text stands in a field wider than itself.
#[derive(Clone, Copy, Debug, PartialEq, Eq, Structural)]
pub enum Alignment {
    Left,
    Center,
    Right,
}

/// `count` spaces.
pub open spec fn spaces(count: nat) -> Seq<char> {
    Seq::new(count, |i: int| ' ')
}

/// `text` padded with spaces to `width` columns. A text that already takes
/// `width` columns or more is left as it is; a centred text gets the smaller
/// half of the spaces on its left.
pub open spec fn padded(text: Seq<char>, width: nat, alignment: Alignment) -> Seq<char> {
    let columns = display_width(text);
    if columns >= width {
        text
    } else {
        let missing = (width - columns) as nat;
        match alignment {
            Alignment::Left => text + spaces(missing),
            Alignment::Right => spaces(missing) + text,
            Alignment::Center => spaces(missing / 2) + text + spaces(
                (missing - missing / 2) as nat,
            ),
        }
    }
}

/// Calls `console::measure_text_width`. Trusted: the result depends on the
/// text alone, and is what this library calls its display width.
#[verifier::external_body]
fn measure_width(text: &str) -> (width: usize)
    ensures
        width == display_width(text@),
{
    console::measure_text_width(text)
}

/// Calls `console::pad_str` without truncation. Trusted: a text that
/// `console::measure_text_width` finds narrower than `width` comes back with
/// the missing columns as spaces, on the side that the alignment leaves
/// free, or on both sides with the smaller half on the left; any other text
/// comes back as it is.
#[verifier::external_body]
fn pad_text(text: &str, width: usize, alignment: Alignment) -> (result: String)
    ensures
        result@ == padded(text@, width as nat, alignment),
{
    let align = match alignment {
        Alignment::Left => console::Alignment::Left,
        Alignment::Center => console::Alignment::Center,
        Alignment::Right => console::Alignment::Right,
    };
    console::pad_str(text, width, align, None).into_owned()
}

/// The largest of `widths`; zero where there are none.
pub open spec fn widest(widths: Seq<nat>) -> nat
    decreases widths.len(),
{
    if widths.len() == 0 {
        0
    } else if widest(widths.drop_last()) >= widths.last() {
        widest(widths.drop_last())
    } else {
        widths.last()
    }
}

/// Measured widths as numbers.
pub open spec fn as_nats(widths: Seq<usize>) -> Seq<nat> {
    Seq::new(widths.len(), |i: int| widths[i] as nat)
}

/// The columns that the widest of title and body lines takes.
pub open spec fn inner_width(title_width: nat, body_widths: Seq<nat>) -> nat {
    if widest(body_widths) >= title_width {
        widest(body_widths)
    } else {
        title_width
    }
}

/// The width of the box between its two vertical bars: the widest line and
/// one column of margin on either side; `None` where a size cannot hold that.
pub fn panel_width(title_width: usize, body_widths: &Vec<usize>) -> (width: Option<usize>)
    ensures
        match width {
            Some(columns) => columns == inner_width(title_width as nat, as_nats(body_widths@))
                + 2,
            None => inner_width(title_width as nat, as_nats(body_widths@)) + 2 > usize::MAX,
        },
{
    let mut most: usize = 0;
    let mut i: usize = 0;
    while i < body_widths.len()
        invariant
            i <= body_widths.len(),
            most == widest(as_nats(body_widths@).subrange(0, i as int)),
        decreases body_widths.len() - i,
    {
        assert(as_nats(body_widths@).subrange(0, i + 1).drop_last() =~= as_nats(
            body_widths@,
        ).subrange(0, i as int));
        if body_widths[i] > most {
            most = body_widths[i];
        }
        i += 1;
    }
    assert(as_nats(body_widths@).subrange(0, i as int) =~= as_nats(body_widths@));
    if title_width > most {
        most = title_width;
    }
    most.checked_add(2)
}

/// `count` horizontal strokes.
pub open spec fn strokes(count: nat) -> Seq<char> {
    Seq::new(count, |i: int| '─')
}

/// A horizontal line of the frame, `width` strokes between two corners.
pub open spec fn rule(left: char, right: char, width: nat) -> Seq<char> {
    seq![left] + strokes(width) + seq![right]
}

/// The title between the two vertical bars.
pub open spec fn title_row(title_line: Seq<char>) -> Seq<char> {
    seq!['│'] + title_line + seq!['│']
}

/// A body line between the two vertical bars, with its margins.
pub open spec fn body_row(line: Seq<char>) -> Seq<char> {
    seq!['│', ' '] + line + seq![' ', '│']
}

/// The lines of a panel around a title line and body lines that have been
/// padded already: an empty line, the top of the frame, the title, a
/// separator, the body, the bottom of the frame and an empty line.
pub open spec fn framed(width: nat, title_line: Seq<char>, body: Seq<Seq<char>>) -> Seq<
    Seq<char>,
> {
    seq![
        Seq::<char>::empty(),
        rule('┌', '┐', width),
        title_row(title_line),
        rule('├', '┤', width),
    ] + Seq::new(body.len(), |i: int| body_row(body[i])) + seq![
        rule('└', '┘', width),
        Seq::<char>::empty(),
    ]
}

/// A horizontal line of the frame.
fn draw_rule(left: &str, right: &str, width: usize) -> (line: String)
    ensures
        line@ == left@ + strokes(width as nat) + right@,
{
    let mut line = left.to_owned();
    let mut drawn: usize = 0;
    proof {
        reveal_strlit("─");
        assert(line@ =~= left@ + strokes(0));
    }
    while drawn < width
        invariant
            drawn <= width,
            line@ == left@ + strokes(drawn as nat),
            "─"@ == seq!['─'],
        decreases width - drawn,
    {
        line.append("─");
        drawn += 1;
        assert(line@ =~= left@ + strokes(drawn as nat));
    }
    line.append(right);
    line
}

/// Puts the frame around a title line and body lines that have been padded
/// already, the title to `width` columns and the body to two less.
pub fn frame_panel(width: usize, title_line: &str, body: &Vec<String>) -> (lines: Vec<String>)
    ensures
        lines.deep_view() == framed(width as nat, title_line@, body.deep_view()),
{
    proof {
        reveal_strlit("┌");
        reveal_strlit("┐");
        reveal_strlit("├");
        reveal_strlit("┤");
        reveal_strlit("└");
        reveal_strlit("┘");
        reveal_strlit("│");
        reveal_strlit("│ ");
        reveal_strlit(" │");
    }
    let mut lines: Vec<String> = Vec::new();
    lines.push(String::new());
    lines.push(draw_rule("┌", "┐", width));
    let mut title = "│".to_owned();
    title.append(title_line);
    title.append("│");
    lines.push(title);
    lines.push(draw_rule("├", "┤", width));
    let ghost head = lines.deep_view();
    assert(head =~= seq![
        Seq::<char>::empty(),
        rule('┌', '┐', width as nat),
        title_row(title_line@),
        rule('├', '┤', width as nat),
    ]) by {
        assert(head[2] =~= title_row(title_line@));
        assert(head[1] =~= rule('┌', '┐', width as nat));
        assert(head[3] =~= rule('├', '┤', width as nat));
    }
    let mut i: usize = 0;
    while i < body.len()
        invariant
            i <= body.len(),
            "│ "@ == seq!['│', ' '],
            " │"@ == seq![' ', '│'],
            lines.deep_view() == head + Seq::new(
                i as nat,
                |k: int| body_row(body.deep_view()[k]),
            ),
        decreases body.len() - i,
    {
        let mut row = "│ ".to_owned();
        row.append(body[i].as_str());
        row.append(" │");
        assert(row@ =~= body_row(body.deep_view()[i as int]));
        let ghost before = lines.deep_view();
        lines.push(row);
        i += 1;
        assert(lines.deep_view() =~= head + Seq::new(
            i as nat,
            |k: int| body_row(body.deep_view()[k]),
        )) by {
            assert(lines.deep_view() =~= before.push(row@));
        }
    }
    let ghost middle = lines.deep_view();
    lines.push(draw_rule("└", "┘", width));
    lines.push(String::new());
    assert(lines.deep_view() =~= framed(width as nat, title_line@, body.deep_view())) by {
        assert(lines.deep_view() =~= middle.push(rule('└', '┘', width as nat)).push(
            Seq::<char>::empty(),
        )) by {
            assert(lines.deep_view()[middle.len() as int] =~= rule('└', '┘', width as nat));
        }
    }
    lines
}

/// The width of the box for a title and body lines: the display width of
/// the widest of them and a margin of one column on either side.
pub open spec fn box_width(title: Seq<char>, body: Seq<Seq<char>>) -> nat {
    inner_width(display_width(title), Seq::new(body.len(), |i: int| display_width(body[i])))
        + 2
}

/// The panel for a title and body lines: the title centred over the whole
/// width of the box, each body line padded on its right to the width of the
/// widest line, and the frame around them.
pub open spec fn panel(title: Seq<char>, body: Seq<Seq<char>>) -> Seq<Seq<char>> {
    let width = box_width(title, body);
    framed(
        width,
        padded(title, width, Alignment::Center),
        Seq::new(body.len(), |i: int| padded(body[i], (width - 2) as nat, Alignment::Left)),
    )
}

/// Lays out the panel for `title` and the lines of `body`. The answer is
/// `None` only where the box would be wider than a size can count.
pub fn layout_panel(title: &str, body: &Vec<String>) -> (lines: Option<Vec<String>>)
    ensures
        match lines {
            Some(lines) => {
                &&& box_width(title@, body.deep_view()) <= usize::MAX
                &&& lines.deep_view() == panel(title@, body.deep_view())
            },
            None => box_width(title@, body.deep_view()) > usize::MAX,
        },
{
    let title_width: usize = measure_width(title);
    let mut widths: Vec<usize> = Vec::new();
    let mut i: usize = 0;
    while i < body.len()
        invariant
            i <= body.len(),
            widths.len() == i,
            forall|k: int| 0 <= k < i ==> #[trigger] widths[k] == display_width(body[k]@),
        decreases body.len() - i,
    {
        widths.push(measure_width(body[i].as_str()));
        i += 1;
    }
    assert(as_nats(widths@) =~= Seq::new(
        body.deep_view().len(),
        |k: int| display_width(body.deep_view()[k]),
    ));
    let width: usize = match panel_width(title_width, &widths) {
        Some(width) => width,
        None => {
            return None;
        },
    };
    let title_line = pad_text(title, width, Alignment::Center);
    let mut rows: Vec<String> = Vec::new();
    let mut j: usize = 0;
    while j < body.len()
        invariant
            j <= body.len(),
            rows.len() == j,
            width >= 2,
            forall|k: int|
                0 <= k < j ==> #[trigger] rows[k]@ == padded(
                    body[k]@,
                    (width - 2) as nat,
                    Alignment::Left,
                ),
        decreases body.len() - j,
    {
        rows.push(pad_text(body[j].as_str(), width - 2, Alignment::Left));
        j += 1;
    }
    assert(rows.deep_view() =~= Seq::new(
        body.deep_view().len(),
        |k: int| padded(body.deep_view()[k], (width - 2) as nat, Alignment::Left),
    ));
    Some(frame_panel(width, title_line.as_str(), &rows))
}

} // verus!
