//! Shaping a field's documentation lines into a short and a long help text.

use vstd::prelude::*;

use crate::text::{contains_seq, contains_text, is_whitespace_char, trim_end_seq};

verus! {

/// The lines joined with one newline between each two, in order.
pub open spec fn join_lines_seq(lines: Seq<Seq<char>>) -> Seq<char>
    decreases lines.len(),
{
    if lines.len() == 0 {
        Seq::empty()
    } else if lines.len() == 1 {
        lines[0]
    } else {
        join_lines_seq(lines.drop_last()) + seq!['\n'] + lines.last()
    }
}

/// The text of each string.
pub open spec fn views(lines: Seq<String>) -> Seq<Seq<char>> {
    lines.map_values(|l: String| l@)
}

/// A paragraph boundary, two newlines in a row, starts at position `i`.
pub open spec fn is_break_at(s: Seq<char>, i: int) -> bool {
    0 <= i && i + 1 < s.len() && s[i] == '\n' && s[i + 1] == '\n'
}

/// Where the first paragraph boundary at or after `i` starts, or the length
/// of `s` when there is none.
pub open spec fn paragraph_end_from(s: Seq<char>, i: int) -> int
    recommends
        0 <= i,
    decreases s.len() - i,
{
    if i + 1 >= s.len() {
        s.len() as int
    } else if is_break_at(s, i) {
        i
    } else {
        paragraph_end_from(s, i + 1)
    }
}

/// The text before the first paragraph boundary, or all of `s` when there
/// is none.
pub open spec fn first_paragraph(s: Seq<char>) -> Seq<char> {
    s.take(paragraph_end_from(s, 0))
}

/// `s` without one final period, if it ends with one.
pub open spec fn strip_final_period(s: Seq<char>) -> Seq<char> {
    if s.len() > 0 && s.last() == '.' {
        s.drop_last()
    } else {
        s
    }
}

/// The short help for a long help text: its first paragraph, with trailing
/// whitespace and then one final period removed.
pub open spec fn short_help_seq(long: Seq<char>) -> Seq<char> {
    strip_final_period(trim_end_seq(first_paragraph(long)))
}

/// The closed set of inline style tags.
pub open spec fn style_markers() -> Seq<Seq<char>> {
    seq![
        seq!['<', 'c', '>'],
        seq!['<', '/', '>'],
        seq!['<', 's', '>'],
        seq!['<', 'u', '>'],
        seq!['<', 'k', '>'],
        seq!['<', 'r', '>'],
        seq!['<', 'g', '>'],
        seq!['<', 'b', '>'],
        seq!['<', 'y', '>'],
        seq!['<', 'm', '>'],
        seq!['<', 'c', 'y', 'a', 'n', '>'],
        seq!['<', 'w', 'h', 'i', 't', 'e', '>'],
    ]
}

/// Some style tag occurs in `s`.
pub open spec fn has_style_marker_seq(s: Seq<char>) -> bool {
    exists|k: int| 0 <= k < style_markers().len() && contains_seq(s, #[trigger] style_markers()[k])
}

/// The style tag with number `k`.
fn style_marker(k: usize) -> (r: &'static str)
    requires
        k < 12,
    ensures
        r@ == style_markers()[k as int],
{
    proof {
        reveal_strlit("<c>");
        reveal_strlit("</>");
        reveal_strlit("<s>");
        reveal_strlit("<u>");
        reveal_strlit("<k>");
        reveal_strlit("<r>");
        reveal_strlit("<g>");
        reveal_strlit("<b>");
        reveal_strlit("<y>");
        reveal_strlit("<m>");
        reveal_strlit("<cyan>");
        reveal_strlit("<white>");
    }
    let r = match k {
        0 => "<c>",
        1 => "</>",
        2 => "<s>",
        3 => "<u>",
        4 => "<k>",
        5 => "<r>",
        6 => "<g>",
        7 => "<b>",
        8 => "<y>",
        9 => "<m>",
        10 => "<cyan>",
        _ => "<white>",
    };
    assert(r@ =~= style_markers()[k as int]);
    r
}

/// Whether any inline style tag occurs in `text`. Tags are matched as plain
/// substrings: whether they are balanced is not looked at.
pub fn has_style_markers(text: &str) -> (r: bool)
    ensures
        r == has_style_marker_seq(text@),
{
    let mut k: usize = 0;
    while k < 12
        invariant
            k <= 12,
            style_markers().len() == 12,
            forall|j: int| 0 <= j < k ==> !contains_seq(text@, #[trigger] style_markers()[j]),
        decreases 12 - k,
    {
        if contains_text(text, style_marker(k)) {
            return true;
        }
        k = k + 1;
    }
    false
}

/// The lines joined with a newline between each two, in order.
pub fn join_lines(lines: &Vec<String>) -> (r: String)
    ensures
        r@ == join_lines_seq(views(lines@)),
{
    let mut r = String::new();
    let mut i: usize = 0;
    while i < lines.len()
        invariant
            i <= lines@.len(),
            r@ == join_lines_seq(views(lines@.take(i as int))),
        decreases lines@.len() - i,
    {
        proof {
            assert(views(lines@.take(i as int + 1)).drop_last() =~= views(lines@.take(i as int)));
            assert(views(lines@.take(i as int + 1)).last() == lines@[i as int]@);
        }
        let ghost v = views(lines@.take(i as int + 1));
        proof {
            reveal_strlit("\n");
            assert("\n"@ =~= seq!['\n']);
        }
        if i > 0 {
            r.append("\n");
        }
        r.append(lines[i].as_str());
        proof {
            if i == 0 {
                assert(r@ =~= v[0]);
            } else {
                assert(r@ =~= join_lines_seq(v.drop_last()) + seq!['\n'] + v.last());
            }
        }
        i = i + 1;
    }
    assert(lines@.take(i as int) =~= lines@);
    r
}

/// The short help for the long help text `long`: its first paragraph, with
/// trailing whitespace and then one final period removed.
pub fn short_help_of(long: &str) -> (r: String)
    ensures
        r@ == short_help_seq(long@),
{
    let n = long.unicode_len();
    let mut i: usize = 0;
    while i < n && i + 1 < n && !(long.get_char(i) == '\n' && long.get_char(i + 1) == '\n')
        invariant
            n == long@.len(),
            i <= n,
            paragraph_end_from(long@, 0) == paragraph_end_from(long@, i as int),
        decreases n - i,
    {
        i = i + 1;
    }
    let ghost para = first_paragraph(long@);
    let mut end: usize = if i < n && i + 1 < n {
        i
    } else {
        n
    };
    assert(long@.take(end as int) == para);
    while end > 0 && is_whitespace_char(long.get_char(end - 1))
        invariant
            end <= n == long@.len(),
            trim_end_seq(para) == trim_end_seq(long@.take(end as int)),
        decreases end,
    {
        assert(long@.take(end as int).drop_last() =~= long@.take(end as int - 1));
        end = end - 1;
    }
    assert(trim_end_seq(para) == long@.take(end as int));
    if end > 0 && long.get_char(end - 1) == '.' {
        assert(long@.take(end as int).drop_last() =~= long@.take(end as int - 1));
        end = end - 1;
    }
    assert(long@.subrange(0, end as int) =~= long@.take(end as int));
    String::from_str(long.substring_char(0, end))
}

/// A help declaration: the short and the long help text, and whether they
/// carry style tags that a renderer resolves when the help is displayed
/// (otherwise they are shown verbatim).
#[derive(Clone, Debug, PartialEq, Eq)]
pub struct HelpDecl {
    pub short_help: String,
    pub long_help: String,
    pub styled: bool,
}

/// `h` is the help declaration made from the (already trimmed) documentation
/// lines `lines`.
pub open spec fn describes(h: HelpDecl, lines: Seq<Seq<char>>) -> bool {
    let long = join_lines_seq(lines);
    &&& h.long_help@ == long
    &&& h.short_help@ == short_help_seq(long)
    &&& h.styled == has_style_marker_seq(long)
}

/// The help declaration made from documentation lines: the long help is the
/// lines joined by newlines, the short help is derived from it, and both are
/// styled when any style tag occurs in the joined text.
pub fn shape_help(lines: &Vec<String>) -> (r: HelpDecl)
    ensures
        describes(r, views(lines@)),
{
    let long_help = join_lines(lines);
    let short_help = short_help_of(long_help.as_str());
    let styled = has_style_markers(long_help.as_str());
    HelpDecl { short_help, long_help, styled }
}

} // verus!
