//! A field's attribute list, and the transformation that replaces its
//! documentation lines by a help declaration.

use vstd::prelude::*;

use crate::help::{describes, shape_help, views, HelpDecl};
use crate::text::{contains_seq, contains_text, trim_seq, trim_text};

verus! {

/// One attribute of a field, as far as the transformation reads it.
#[derive(Clone, Debug, PartialEq, Eq)]
pub enum FieldAttr {
    /// A documentation line, as written (not yet trimmed).
    Doc(String),
    /// An argument declaration with a list, given as the text of its tokens;
    /// `handle` lets the host find the attribute it stands for.
    Arg { tokens: String, handle: usize },
    /// A help declaration produced by the transformation.
    Help(HelpDecl),
    /// Any other attribute, which the transformation leaves as it is.
    Other { handle: usize },
}

/// The text `help =`.
pub open spec fn help_pattern() -> Seq<char> {
    seq!['h', 'e', 'l', 'p', ' ', '=']
}

/// The text `long_help =`.
pub open spec fn long_help_pattern() -> Seq<char> {
    seq!['l', 'o', 'n', 'g', '_', 'h', 'e', 'l', 'p', ' ', '=']
}

/// Declaration text that assigns a help or a long help. The match is on
/// plain substrings, so `help_heading = ..` alone does not count.
pub open spec fn declares_help(tokens: Seq<char>) -> bool {
    contains_seq(tokens, help_pattern()) || contains_seq(tokens, long_help_pattern())
}

/// The attribute already gives the field its help.
pub open spec fn gives_help(a: FieldAttr) -> bool {
    match a {
        FieldAttr::Arg { tokens, .. } => declares_help(tokens@),
        FieldAttr::Help(_) => true,
        _ => false,
    }
}

/// Some attribute of the list already gives the field its help.
pub open spec fn has_existing_help(attrs: Seq<FieldAttr>) -> bool {
    exists|i: int| 0 <= i < attrs.len() && #[trigger] gives_help(attrs[i])
}

/// The documentation lines of the list, each trimmed, in order.
pub open spec fn doc_texts(attrs: Seq<FieldAttr>) -> Seq<Seq<char>>
    decreases attrs.len(),
{
    if attrs.len() == 0 {
        Seq::empty()
    } else {
        let rest = doc_texts(attrs.drop_last());
        match attrs.last() {
            FieldAttr::Doc(s) => rest.push(trim_seq(s@)),
            _ => rest,
        }
    }
}

/// The list without its documentation lines, the others in order.
pub open spec fn without_docs(attrs: Seq<FieldAttr>) -> Seq<FieldAttr>
    decreases attrs.len(),
{
    if attrs.len() == 0 {
        Seq::empty()
    } else {
        let rest = without_docs(attrs.drop_last());
        if attrs.last() is Doc {
            rest
        } else {
            rest.push(attrs.last())
        }
    }
}

/// The transformation acts on a field with documentation and without help.
pub open spec fn acts_on(attrs: Seq<FieldAttr>) -> bool {
    !has_existing_help(attrs) && doc_texts(attrs).len() > 0
}

/// `after` is what the transformation makes of `before`: where it acts, the
/// documentation lines are gone and one help declaration made from them is
/// appended; elsewhere the list is unchanged.
pub open spec fn transformed(before: Seq<FieldAttr>, after: Seq<FieldAttr>) -> bool {
    if acts_on(before) {
        &&& after.len() == without_docs(before).len() + 1
        &&& after.drop_last() == without_docs(before)
        &&& after.last() is Help
        &&& describes(after.last()->Help_0, doc_texts(before))
    } else {
        after == before
    }
}

impl FieldAttr {
    /// Whether this is a documentation line.
    pub fn is_doc(&self) -> (r: bool)
        ensures
            r == (*self is Doc),
    {
        match self {
            FieldAttr::Doc(_) => true,
            _ => false,
        }
    }

    /// Whether this attribute already gives the field its help.
    pub fn gives_help(&self) -> (r: bool)
        ensures
            r == gives_help(*self),
    {
        match self {
            FieldAttr::Arg { tokens, .. } => declares_help_text(tokens.as_str()),
            FieldAttr::Help(_) => true,
            _ => false,
        }
    }
}

/// Whether declaration text assigns a help or a long help (`help =` or
/// `long_help =` occurs in it).
pub fn declares_help_text(tokens: &str) -> (r: bool)
    ensures
        r == declares_help(tokens@),
{
    proof {
        reveal_strlit("help =");
        reveal_strlit("long_help =");
    }
    let help = "help =";
    let long_help = "long_help =";
    assert(help@ =~= help_pattern());
    assert(long_help@ =~= long_help_pattern());
    contains_text(tokens, help) || contains_text(tokens, long_help)
}

/// Whether some attribute of the list already gives the field its help.
pub fn has_existing_help_attr(attrs: &Vec<FieldAttr>) -> (r: bool)
    ensures
        r == has_existing_help(attrs@),
{
    let mut i: usize = 0;
    while i < attrs.len()
        invariant
            i <= attrs@.len(),
            forall|j: int| 0 <= j < i ==> !#[trigger] gives_help(attrs@[j]),
        decreases attrs@.len() - i,
    {
        if attrs[i].gives_help() {
            return true;
        }
        i = i + 1;
    }
    false
}

/// The documentation lines of the list, each trimmed, in order.
pub fn collect_doc_lines(attrs: &Vec<FieldAttr>) -> (r: Vec<String>)
    ensures
        views(r@) == doc_texts(attrs@),
{
    let mut lines: Vec<String> = Vec::new();
    let mut i: usize = 0;
    while i < attrs.len()
        invariant
            i <= attrs@.len(),
            views(lines@) == doc_texts(attrs@.take(i as int)),
        decreases attrs@.len() - i,
    {
        assert(attrs@.take(i as int + 1).drop_last() =~= attrs@.take(i as int));
        match &attrs[i] {
            FieldAttr::Doc(s) => {
                let t = trim_text(s.as_str());
                lines.push(t);
                assert(views(lines@) =~= doc_texts(attrs@.take(i as int)).push(t@));
            },
            _ => {},
        }
        i = i + 1;
    }
    assert(attrs@.take(i as int) =~= attrs@);
    lines
}

/// Replaces the field's documentation lines by a help declaration made from
/// them, unless the field has no documentation or already has its help.
/// Returns whether the list changed.
pub fn process_field(attrs: &mut Vec<FieldAttr>) -> (acted: bool)
    ensures
        acted == acts_on(old(attrs)@),
        transformed(old(attrs)@, final(attrs)@),
{
    if has_existing_help_attr(attrs) {
        return false;
    }
    let lines = collect_doc_lines(attrs);
    if lines.len() == 0 {
        return false;
    }
    let help = shape_help(&lines);
    let mut rest: Vec<FieldAttr> = Vec::new();
    std::mem::swap(attrs, &mut rest);
    let ghost orig = rest@;
    let n = rest.len();
    let mut i: usize = 0;
    while rest.len() > 0
        invariant
            n == orig.len(),
            i <= n,
            i + rest@.len() == n,
            rest@ == orig.subrange(i as int, n as int),
            attrs@ == without_docs(orig.take(i as int)),
        decreases rest@.len(),
    {
        assert(orig.take(i as int + 1).drop_last() =~= orig.take(i as int));
        let a = rest.remove(0);
        assert(rest@ =~= orig.subrange(i as int + 1, n as int));
        if !a.is_doc() {
            attrs.push(a);
        }
        i = i + 1;
    }
    assert(orig.take(i as int) =~= orig);
    attrs.push(FieldAttr::Help(help));
    assert(attrs@.drop_last() =~= without_docs(orig));
    true
}

/// A list without documentation lines has no documentation text.
proof fn lemma_no_doc_attrs_no_texts(attrs: Seq<FieldAttr>)
    requires
        forall|i: int| 0 <= i < attrs.len() ==> !(#[trigger] attrs[i] is Doc),
    ensures
        doc_texts(attrs).len() == 0,
    decreases attrs.len(),
{
    if attrs.len() > 0 {
        lemma_no_doc_attrs_no_texts(attrs.drop_last());
    }
}

/// `without_docs` leaves no documentation line.
proof fn lemma_without_docs_has_none(attrs: Seq<FieldAttr>)
    ensures
        forall|i: int|
            0 <= i < without_docs(attrs).len() ==> !(#[trigger] without_docs(attrs)[i] is Doc),
    decreases attrs.len(),
{
    if attrs.len() > 0 {
        lemma_without_docs_has_none(attrs.drop_last());
    }
}

/// A field with an argument declaration whose text contains `help =` or
/// `long_help =` is left exactly as it was, documentation lines included.
pub proof fn lemma_explicit_help_kept(before: Seq<FieldAttr>, after: Seq<FieldAttr>, i: int)
    requires
        0 <= i < before.len(),
        before[i] is Arg,
        declares_help(before[i]->tokens@),
        transformed(before, after),
    ensures
        after == before,
{
    assert(gives_help(before[i]));
}

/// A field without documentation lines is left exactly as it was, whatever
/// else it declares.
pub proof fn lemma_undocumented_kept(before: Seq<FieldAttr>, after: Seq<FieldAttr>)
    requires
        forall|i: int| 0 <= i < before.len() ==> !(#[trigger] before[i] is Doc),
        transformed(before, after),
    ensures
        after == before,
{
    lemma_no_doc_attrs_no_texts(before);
}

/// Once the transformation has acted, no documentation line is left, and the
/// last attribute is the help declaration made from those lines.
pub proof fn lemma_docs_consumed(before: Seq<FieldAttr>, after: Seq<FieldAttr>)
    requires
        acts_on(before),
        transformed(before, after),
    ensures
        forall|i: int| 0 <= i < after.len() ==> !(#[trigger] after[i] is Doc),
        after.last() is Help,
        describes(after.last()->Help_0, doc_texts(before)),
{
    lemma_without_docs_has_none(before);
    assert forall|i: int| 0 <= i < after.len() implies !(#[trigger] after[i] is Doc) by {
        if i < after.len() - 1 {
            assert(after[i] == after.drop_last()[i]);
        }
    }
}

/// Transforming a field a second time changes nothing: after the first time
/// it either has its help declaration or was left as it was.
pub proof fn lemma_transform_idempotent(
    before: Seq<FieldAttr>,
    once: Seq<FieldAttr>,
    twice: Seq<FieldAttr>,
)
    requires
        transformed(before, once),
        transformed(once, twice),
    ensures
        twice == once,
{
    if acts_on(before) {
        assert(gives_help(once[once.len() - 1]));
    }
}

} // verus!
