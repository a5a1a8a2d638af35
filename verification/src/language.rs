//! The closed set of recognized languages, each with a display name, a
//! textual-or-asset flag, and a comment syntax that selects its line
//! classifier.

use vstd::prelude::*;

use crate::line_kind::Estimator;
use crate::line_kind::Generic;
use crate::line_kind::GenericWithComment;
use crate::line_kind::MultilineCommentAware;

verus! {

/// A recognized language or file category, used as the aggregation key.
#[derive(Clone, Copy, PartialEq, Eq, Structural, Debug, Hash)]
pub enum Language {
    Rust,
    C,
    Js,
    Json,
    Python,
    Generic,
    Toml,
    Go,
    Yaml,
    Markdown,
    VueJs,
    Css,
    Csv,
    Dockerfile,
    Shader,
    CMake,
    Makefile,
    Asset,
    Tex,
    Liquid,
    Ruby,
    Html,
    Shell,
    Txt,
    Slang,
    Lockfile,
}

/// The human-readable name of each language.
pub open spec fn spec_display_name(language: Language) -> Seq<char> {
    match language {
        Language::Rust => "Rust"@,
        Language::C => "C/C++"@,
        Language::Generic => "Other"@,
        Language::Js => "Javascript"@,
        Language::Json => "JSON"@,
        Language::Python => "Python"@,
        Language::Toml => "TOML"@,
        Language::Go => "GO"@,
        Language::Yaml => "YAML"@,
        Language::Markdown => "Markdown"@,
        Language::VueJs => "VueJs"@,
        Language::Css => "CSS"@,
        Language::Html => "HTML"@,
        Language::Csv => "CSV"@,
        Language::Dockerfile => "Dockerfile"@,
        Language::Shader => "Shader"@,
        Language::CMake => "CMake"@,
        Language::Asset => "Asset"@,
        Language::Makefile => "Makefile"@,
        Language::Tex => "Tex/Latex"@,
        Language::Txt => "Text"@,
        Language::Shell => "Shell"@,
        Language::Ruby => "Ruby"@,
        Language::Liquid => "Liquid"@,
        Language::Lockfile => "Lockfile"@,
        Language::Slang => "Slang"@,
    }
}

/// A language whose files are counted line by line; a non-textual language
/// (an asset or a lockfile) is counted as present without reading its lines.
pub open spec fn spec_is_textual(language: Language) -> bool {
    !(language == Language::Lockfile || language == Language::Asset)
}

impl Language {
    /// The human-readable name of this language.
    pub fn display_name(&self) -> (r: &'static str)
        ensures
            r@ == spec_display_name(*self),
    {
        match self {
            Language::Rust => "Rust",
            Language::C => "C/C++",
            Language::Generic => "Other",
            Language::Js => "Javascript",
            Language::Json => "JSON",
            Language::Python => "Python",
            Language::Toml => "TOML",
            Language::Go => "GO",
            Language::Yaml => "YAML",
            Language::Markdown => "Markdown",
            Language::VueJs => "VueJs",
            Language::Css => "CSS",
            Language::Html => "HTML",
            Language::Csv => "CSV",
            Language::Dockerfile => "Dockerfile",
            Language::Shader => "Shader",
            Language::CMake => "CMake",
            Language::Asset => "Asset",
            Language::Makefile => "Makefile",
            Language::Tex => "Tex/Latex",
            Language::Txt => "Text",
            Language::Shell => "Shell",
            Language::Ruby => "Ruby",
            Language::Liquid => "Liquid",
            Language::Lockfile => "Lockfile",
            Language::Slang => "Slang",
        }
    }
}

/// `r` is a fresh line-comment-only classifier whose token is `token`.
pub open spec fn is_comment_estimator(r: Option<Estimator>, token: Seq<char>) -> bool {
    r matches Some(Estimator::CommentAware(g)) && g.comment@ == token
}

/// `r` is a fresh block-comment-aware classifier with the given tokens,
/// starting outside any block comment.
pub open spec fn is_multiline_estimator(
    r: Option<Estimator>,
    token: Seq<char>,
    open_token: Seq<char>,
    close_token: Seq<char>,
) -> bool {
    r matches Some(Estimator::MultilineAware(m)) && m.comment@ == token && m.block_open@
        == open_token && m.block_close@ == close_token && !m.is_in_multiline_comment
}

/// `r` is the classifier that only tells blank lines from code.
pub open spec fn is_plain_estimator(r: Option<Estimator>) -> bool {
    r matches Some(Estimator::Plain(..))
}

/// The classifier registry: the comment syntax of each language, as a fresh
/// classifier for one file, or `None` for a non-textual language whose line
/// contents are never read.
pub fn make_line_kind_estimator(language: Language) -> (r: Option<Estimator>)
    ensures
        language == Language::Rust ==> is_comment_estimator(r, "//"@),
        (language == Language::Python || language == Language::Toml) ==> is_comment_estimator(
            r,
            "#"@,
        ),
        language == Language::Tex ==> is_comment_estimator(r, "%"@),
        (language == Language::VueJs || language == Language::Slang || language == Language::C
            || language == Language::Js || language == Language::Go || language
            == Language::Shader) ==> is_multiline_estimator(r, "//"@, "/*"@, "*/"@),
        (language == Language::Markdown || language == Language::Makefile || language
            == Language::Css || language == Language::Yaml || language == Language::Html
            || language == Language::Csv || language == Language::Liquid || language
            == Language::Dockerfile || language == Language::Generic || language
            == Language::CMake || language == Language::Ruby || language == Language::Txt
            || language == Language::Shell || language == Language::Json) ==> is_plain_estimator(
            r,
        ),
        r is Some <==> spec_is_textual(language),
{
    match language {
        Language::Rust => Some(Estimator::CommentAware(GenericWithComment::new("//"))),
        Language::VueJs | Language::Slang | Language::C | Language::Js | Language::Go
        | Language::Shader => Some(
            Estimator::MultilineAware(MultilineCommentAware::new("//", ["/*", "*/"])),
        ),
        Language::Python | Language::Toml => Some(
            Estimator::CommentAware(GenericWithComment::new("#")),
        ),
        Language::Tex => Some(Estimator::CommentAware(GenericWithComment::new("%"))),
        Language::Markdown | Language::Makefile | Language::Css | Language::Yaml | Language::Html
        | Language::Csv | Language::Liquid | Language::Dockerfile | Language::Generic
        | Language::CMake | Language::Ruby | Language::Txt | Language::Shell | Language::Json => {
            Some(Estimator::Plain(Generic))
        },
        Language::Lockfile | Language::Asset => None,
    }
}

} // verus!
