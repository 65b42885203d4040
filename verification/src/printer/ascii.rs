//! ASCII-art utilities: measuring, framing and combining multi-line text.
//!
//! Lines follow the usual splitting rule: pieces between newline
//! characters, a carriage return directly before a newline stripped, and no
//! empty piece after a trailing newline.  Widths are measured in bytes of
//! the UTF-8 encoding, the measure the string length operator gives.

use vstd::prelude::*;

use vstd::string::StrSliceExecFns;
use vstd::string::StringExecFns;
use vstd::string::StringSliceAdditionalSpecFns;
use vstd::utf8::encode_utf8;

verus! {

/// Index of the first newline character, or the length when there is none.
pub open spec fn spec_first_nl(s: Seq<char>) -> int
    decreases s.len(),
{
    if s.len() == 0 {
        0
    } else if s[0] == '\n' {
        0
    } else {
        1 + spec_first_nl(s.drop_first())
    }
}

proof fn lemma_first_nl_is(s: Seq<char>, k: int)
    requires
        0 <= k <= s.len(),
        forall|j: int| 0 <= j < k ==> s[j] != '\n',
        k == s.len() || s[k] == '\n',
    ensures
        spec_first_nl(s) == k,
    decreases k,
{
    if k > 0 {
        lemma_first_nl_is(s.drop_first(), k - 1);
    }
}

/// The line with a trailing carriage return stripped.
pub open spec fn spec_strip_cr(l: Seq<char>) -> Seq<char> {
    if l.len() > 0 && l[l.len() - 1] == '\r' {
        l.drop_last()
    } else {
        l
    }
}

/// The lines of a character sequence.
pub open spec fn spec_split_lines(s: Seq<char>) -> Seq<Seq<char>>
    decreases s.len(),
{
    if s.len() == 0 {
        seq![]
    } else {
        let i = spec_first_nl(s);
        if 0 <= i && i < s.len() {
            seq![spec_strip_cr(s.take(i))] + spec_split_lines(s.skip(i + 1))
        } else {
            seq![s]
        }
    }
}

/// Splits a string into its lines.
pub fn split_lines(s: &str) -> (r: Vec<String>)
    ensures
        r@.map_values(|l: String| l@) == spec_split_lines(s@),
{
    let n = s.unicode_len();
    let mut out: Vec<String> = Vec::new();
    let mut start: usize = 0;
    let mut i: usize = 0;
    proof {
        assert(s@.skip(0) =~= s@);
        assert(out@.map_values(|l: String| l@) =~= Seq::<Seq<char>>::empty());
        assert(Seq::<Seq<char>>::empty() + spec_split_lines(s@) =~= spec_split_lines(s@));
    }
    while i < n
        invariant
            0 <= start <= i <= n,
            n == s@.len(),
            forall|j: int| start <= j < i ==> s@[j] != '\n',
            spec_split_lines(s@) == out@.map_values(|l: String| l@) + spec_split_lines(
                s@.skip(start as int),
            ),
        decreases n - i,
    {
        let c = s.get_char(i);
        if c == '\n' {
            let mut end: usize = i;
            if end > start && s.get_char(end - 1) == '\r' {
                end = end - 1;
            }
            let line = s.substring_char(start, end).to_owned();
            proof {
                let rest = s@.skip(start as int);
                lemma_first_nl_is(rest, i - start);
                assert(rest.take(i - start) =~= s@.subrange(start as int, i as int));
                assert(spec_strip_cr(rest.take(i - start)) =~= line@);
                assert(rest.skip(i - start + 1) =~= s@.skip(i + 1));
                assert((out@.push(line)).map_values(|l: String| l@) =~= out@.map_values(
                    |l: String| l@,
                ).push(line@));
            }
            out.push(line);
            start = i + 1;
        }
        i += 1;
    }
    proof {
        let rest = s@.skip(start as int);
        if start < n {
            lemma_first_nl_is(rest, n - start);
        }
    }
    if start < n {
        let line = s.substring_char(start, n).to_owned();
        proof {
            assert(s@.skip(start as int) =~= s@.subrange(start as int, n as int));
            assert((out@.push(line)).map_values(|l: String| l@) =~= out@.map_values(
                |l: String| l@,
            ).push(line@));
            assert(seq![line@] =~= Seq::<Seq<char>>::empty().push(line@));
        }
        out.push(line);
        proof {
            assert(out@.map_values(|l: String| l@) =~= spec_split_lines(s@));
        }
        out
    } else {
        proof {
            assert(out@.map_values(|l: String| l@) =~= spec_split_lines(s@));
        }
        out
    }
}

/// The widest line's width, in bytes of its UTF-8 encoding.
pub open spec fn spec_max_width(lines: Seq<Seq<char>>) -> int
    decreases lines.len(),
{
    if lines.len() == 0 {
        0
    } else {
        let rest = spec_max_width(lines.drop_first());
        if encode_utf8(lines[0]).len() > rest {
            encode_utf8(lines[0]).len() as int
        } else {
            rest
        }
    }
}

proof fn lemma_max_width_nonneg(lines: Seq<Seq<char>>)
    ensures
        spec_max_width(lines) >= 0,
    decreases lines.len(),
{
    if lines.len() > 0 {
        lemma_max_width_nonneg(lines.drop_first());
    }
}

proof fn lemma_max_width_bounds(lines: Seq<Seq<char>>, i: int)
    requires
        0 <= i < lines.len(),
    ensures
        encode_utf8(lines[i]).len() <= spec_max_width(lines),
    decreases i,
{
    if i == 0 {
        lemma_max_width_nonneg(lines.drop_first());
    } else {
        lemma_max_width_bounds(lines.drop_first(), i - 1);
    }
}

proof fn lemma_max_width_step(lines: Seq<Seq<char>>, i: int)
    requires
        0 <= i < lines.len(),
    ensures
        spec_max_width(lines.skip(i)) == (if encode_utf8(lines[i]).len() as int > spec_max_width(
            lines.skip(i + 1),
        ) {
            encode_utf8(lines[i]).len() as int
        } else {
            spec_max_width(lines.skip(i + 1))
        }),
{
    assert(lines.skip(i).drop_first() =~= lines.skip(i + 1));
    assert(lines.skip(i)[0] == lines[i]);
}

/// The byte width of the widest line of a list.
pub fn max_line_width(lines: &Vec<String>) -> (r: usize)
    ensures
        r == spec_max_width(lines@.map_values(|l: String| l@)),
{
    let ghost glines = lines@.map_values(|l: String| l@);
    let mut best: usize = 0;
    let mut i: usize = lines.len();
    proof {
        assert(glines.skip(i as int) =~= Seq::<Seq<char>>::empty());
    }
    while i > 0
        invariant
            0 <= i <= lines.len(),
            glines == lines@.map_values(|l: String| l@),
            best == spec_max_width(glines.skip(i as int)),
        decreases i,
    {
        i = i - 1;
        let w = lines[i].as_str().as_bytes().len();
        proof {
            lemma_max_width_step(glines, i as int);
        }
        if w > best {
            best = w;
        }
    }
    proof {
        assert(glines.skip(0) =~= glines);
    }
    best
}

/// Calculates the max width of a multi-line string, in bytes.
pub fn max_width(ascii_art: &str) -> (r: usize)
    ensures
        r == spec_max_width(spec_split_lines(ascii_art@)),
{
    let lines = split_lines(ascii_art);
    max_line_width(&lines)
}

/// The given piece repeated `n` times.
pub open spec fn spec_repeat(piece: Seq<char>, n: int) -> Seq<char>
    decreases n,
{
    if n <= 0 {
        Seq::empty()
    } else {
        spec_repeat(piece, n - 1) + piece
    }
}

/// Builds a string of `n` copies of the piece.
pub fn repeat_str(piece: &str, n: usize) -> (r: String)
    ensures
        r@ == spec_repeat(piece@, n as int),
{
    let mut out = String::new();
    proof {
        assert(out@ =~= spec_repeat(piece@, 0));
    }
    let mut i: usize = 0;
    while i < n
        invariant
            0 <= i <= n,
            out@ == spec_repeat(piece@, i as int),
        decreases n - i,
    {
        out.append(piece);
        i += 1;
    }
    out
}

/// One content line of a frame: a left border, the padding, the line, and
/// enough spaces to reach the frame's width.  There is no right border.
pub open spec fn spec_frame_line(line: Seq<char>, width: int, padding: int) -> Seq<char> {
    "│"@ + spec_repeat(" "@, padding) + line + spec_repeat(
        " "@,
        width - encode_utf8(line).len() + padding,
    ) + "\n"@
}

/// The concatenated content lines of a frame, over the first `n` lines.
pub open spec fn spec_frame_body(lines: Seq<Seq<char>>, n: int, width: int, padding: int) -> Seq<
    char,
>
    decreases n,
{
    if n <= 0 {
        Seq::empty()
    } else {
        spec_frame_body(lines, n - 1, width, padding) + spec_frame_line(
            lines[n - 1],
            width,
            padding,
        )
    }
}

/// A framed multi-line string: a top border sized to the widest line plus
/// padding on both sides, the content lines, and a bottom border.
pub open spec fn spec_frame(s: Seq<char>, padding: int) -> Seq<char> {
    let lines = spec_split_lines(s);
    let width = spec_max_width(lines);
    "┌"@ + spec_repeat("─"@, width + padding * 2) + "┐\n"@ + spec_frame_body(
        lines,
        lines.len() as int,
        width,
        padding,
    ) + "└"@ + spec_repeat("─"@, width + padding * 2) + "┘\n"@
}

/// Frames a multi-line string with a border.
pub fn frame(ascii_art: &str, padding: usize) -> (r: String)
    requires
        spec_max_width(spec_split_lines(ascii_art@)) + padding * 2 <= usize::MAX,
    ensures
        r@ == spec_frame(ascii_art@, padding as int),
{
    let lines = split_lines(ascii_art);
    let ghost glines = lines@.map_values(|l: String| l@);
    let width = max_line_width(&lines);
    proof {
        lemma_max_width_nonneg(glines);
    }
    let bar = repeat_str("─", width + padding * 2);

    let mut out = String::new();
    out.append("┌");
    out.append(bar.as_str());
    out.append("┐\n");
    proof {
        assert(out@ =~= "┌"@ + spec_repeat("─"@, width as int + padding as int * 2) + "┐\n"@);
    }
    let ghost top = out@;

    let mut i: usize = 0;
    while i < lines.len()
        invariant
            0 <= i <= lines.len(),
            glines == lines@.map_values(|l: String| l@),
            width == spec_max_width(glines),
            width + padding * 2 <= usize::MAX,
            out@ == top + spec_frame_body(glines, i as int, width as int, padding as int),
        decreases lines.len() - i,
    {
        proof {
            lemma_max_width_bounds(glines, i as int);
        }
        let line_width = lines[i].as_str().as_bytes().len();
        let ghost before = out@;
        out.append("│");
        let pad_left = repeat_str(" ", padding);
        out.append(pad_left.as_str());
        out.append(lines[i].as_str());
        let pad_right = repeat_str(" ", width - line_width + padding);
        out.append(pad_right.as_str());
        out.append("\n");
        proof {
            assert(out@ =~= before + spec_frame_line(
                glines[i as int],
                width as int,
                padding as int,
            ));
        }
        i += 1;
    }

    out.append("└");
    out.append(bar.as_str());
    out.append("┘\n");
    proof {
        assert(out@ =~= spec_frame(ascii_art@, padding as int));
    }
    out
}

/// One combined line: the left line, the separating spaces, the right line
/// and a newline; a missing line on either side is empty.
pub open spec fn spec_combined_line(
    left: Seq<Seq<char>>,
    right: Seq<Seq<char>>,
    i: int,
    spacing: int,
) -> Seq<char> {
    (if i < left.len() {
        left[i]
    } else {
        Seq::empty()
    }) + spec_repeat(" "@, spacing) + (if i < right.len() {
        right[i]
    } else {
        Seq::empty()
    }) + "\n"@
}

/// The first `n` combined lines, concatenated.
pub open spec fn spec_combined_body(
    left: Seq<Seq<char>>,
    right: Seq<Seq<char>>,
    n: int,
    spacing: int,
) -> Seq<char>
    decreases n,
{
    if n <= 0 {
        Seq::empty()
    } else {
        spec_combined_body(left, right, n - 1, spacing) + spec_combined_line(
            left,
            right,
            n - 1,
            spacing,
        )
    }
}

/// Two multi-line strings side by side: line by line, the left piece, the
/// separating spaces and the right piece, for as many lines as the taller
/// of the two has.
pub open spec fn spec_combine_horizontal(l: Seq<char>, r: Seq<char>, spacing: int) -> Seq<char> {
    let left = spec_split_lines(l);
    let right = spec_split_lines(r);
    let height = if left.len() >= right.len() {
        left.len() as int
    } else {
        right.len() as int
    };
    spec_combined_body(left, right, height, spacing)
}

/// Combines two multi-line strings side by side.
pub fn combine_horizontal(left: &str, right: &str, spacing: usize) -> (r: String)
    ensures
        r@ == spec_combine_horizontal(left@, right@, spacing as int),
{
    let left_lines = split_lines(left);
    let right_lines = split_lines(right);
    let ghost gleft = left_lines@.map_values(|l: String| l@);
    let ghost gright = right_lines@.map_values(|l: String| l@);
    let height = if left_lines.len() >= right_lines.len() {
        left_lines.len()
    } else {
        right_lines.len()
    };
    let sep = repeat_str(" ", spacing);
    let mut out = String::new();
    let mut i: usize = 0;
    proof {
        assert(out@ =~= spec_combined_body(gleft, gright, 0, spacing as int));
    }
    while i < height
        invariant
            0 <= i <= height,
            gleft == left_lines@.map_values(|l: String| l@),
            gright == right_lines@.map_values(|l: String| l@),
            height == (if gleft.len() >= gright.len() {
                gleft.len() as int
            } else {
                gright.len() as int
            }),
            sep@ == spec_repeat(" "@, spacing as int),
            out@ == spec_combined_body(gleft, gright, i as int, spacing as int),
        decreases height - i,
    {
        let ghost before = out@;
        if i < left_lines.len() {
            out.append(left_lines[i].as_str());
        }
        out.append(sep.as_str());
        if i < right_lines.len() {
            out.append(right_lines[i].as_str());
        }
        out.append("\n");
        proof {
            assert(out@ =~= before + spec_combined_line(gleft, gright, i as int, spacing as int));
        }
        i += 1;
    }
    out
}

} // verus!
