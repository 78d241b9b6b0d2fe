//! Turns the documentation lines of a command-line option field into help
//! metadata: a short and a long help text, marked as styled when the text
//! carries inline style tags.

pub mod field;
pub mod help;
pub mod text;

pub use field::{
    collect_doc_lines, declares_help_text, has_existing_help_attr, process_field, FieldAttr,
};
pub use help::{has_style_markers, join_lines, shape_help, short_help_of, HelpDecl};
pub use text::{contains_text, is_whitespace_char, trim_text};
