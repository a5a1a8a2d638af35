//! The per-language line classifier: a small state machine that labels each
//! line of a file as code, comment, or blank, carrying multi-line-comment
//! state between lines. Each classifier's transition is specified by a pure
//! `spec_step` function; the executable `estimate` is proved to follow it, so
//! the verdicts are a function of the line sequence alone.

use vstd::prelude::*;

use crate::text::chars_of;
use crate::text::contains_chars;
use crate::text::contains_spec;
use crate::text::ends_with_chars;
use crate::text::ends_with_spec;
use crate::text::starts_with_chars;
use crate::text::starts_with_spec;
use crate::text::trim_chars;
use crate::text::trim_spec;

verus! {

/// The verdict for one line.
#[derive(Clone, Copy, PartialEq, Eq, Structural, Debug)]
pub enum LineKind {
    Comment,
    Code,
    Empty,
}

/// Which verdicts a classifier can ever produce; a language with no comment
/// syntax, for example, never reports a comment.
#[derive(Clone, Copy, PartialEq, Eq, Structural, Debug)]
pub struct AvailableLineKinds {
    pub code: bool,
    pub comment: bool,
    pub empty: bool,
}

/// A stateful line classifier. `spec_step` gives the transition as a pure
/// function from the current state and the line to the verdict and the
/// successor state; `estimate` is proved to follow it exactly, so
/// reclassifying the same lines from a fresh instance always repeats the
/// same verdicts.
pub trait LineKindEstimator: Sized {
    /// The verdict for `line` in state `self`, and the successor state.
    spec fn spec_step(self, line: Seq<char>) -> (LineKind, Self);

    /// The verdicts this classifier can produce.
    spec fn spec_available(&self) -> AvailableLineKinds;

    /// Classify one line and advance the classifier's state.
    fn estimate(&mut self, line: &str) -> (k: LineKind)
        ensures
            ({
                let (verdict, successor) = (*old(self)).spec_step(line@);
                k == verdict && *final(self) == successor
            }),
    ;

    /// Report which verdicts this classifier can produce.
    fn available_line_kinds(&self) -> (r: AvailableLineKinds)
        ensures
            r == self.spec_available(),
    ;
}

/// Classifier for languages with a line-comment token and a block-comment
/// pair, such as C-family languages. The one piece of carried state is
/// whether the classifier currently sits inside a block comment.
pub struct MultilineCommentAware {
    pub comment: Vec<char>,
    pub block_open: Vec<char>,
    pub block_close: Vec<char>,
    pub is_in_multiline_comment: bool,
}

impl MultilineCommentAware {
    /// A fresh classifier, outside any block comment.
    pub fn new(comment: &'static str, multi_line_comment: [&'static str; 2]) -> (r: Self)
        ensures
            r.comment@ == comment@,
            r.block_open@ == multi_line_comment[0]@,
            r.block_close@ == multi_line_comment[1]@,
            !r.is_in_multiline_comment,
    {
        Self {
            comment: chars_of(comment),
            block_open: chars_of(multi_line_comment[0]),
            block_close: chars_of(multi_line_comment[1]),
            is_in_multiline_comment: false,
        }
    }
}

impl LineKindEstimator for MultilineCommentAware {
    /// Inside a block comment the whole line is a comment, and the block ends
    /// when the trimmed line contains the close token anywhere (a line that
    /// closes the block is still wholly a comment, even if code follows the
    /// close token). Outside, a blank trimmed line is empty; a line starting
    /// with the line-comment token is a comment; a line starting with the
    /// open token is a comment and enters the block, unless the same trimmed
    /// line also ends with the close token (a one-line block comment);
    /// anything else is code.
    open spec fn spec_step(self, line: Seq<char>) -> (LineKind, Self) {
        let t = trim_spec(line);
        if self.is_in_multiline_comment {
            (
                LineKind::Comment,
                MultilineCommentAware {
                    is_in_multiline_comment: !contains_spec(t, self.block_close@),
                    ..self
                },
            )
        } else if t.len() == 0 {
            (LineKind::Empty, self)
        } else if starts_with_spec(t, self.comment@) {
            (LineKind::Comment, self)
        } else if starts_with_spec(t, self.block_open@) {
            (
                LineKind::Comment,
                MultilineCommentAware {
                    is_in_multiline_comment: !ends_with_spec(t, self.block_close@),
                    ..self
                },
            )
        } else {
            (LineKind::Code, self)
        }
    }

    open spec fn spec_available(&self) -> AvailableLineKinds {
        AvailableLineKinds { code: true, comment: true, empty: true }
    }

    fn estimate(&mut self, line: &str) -> (k: LineKind) {
        let cs = chars_of(line);
        let t = trim_chars(&cs);
        if self.is_in_multiline_comment {
            if contains_chars(&t, &self.block_close) {
                self.is_in_multiline_comment = false;
            }
            LineKind::Comment
        } else if t.len() == 0 {
            LineKind::Empty
        } else if starts_with_chars(&t, &self.comment) {
            LineKind::Comment
        } else if starts_with_chars(&t, &self.block_open) {
            if !ends_with_chars(&t, &self.block_close) {
                self.is_in_multiline_comment = true;
            }
            LineKind::Comment
        } else {
            LineKind::Code
        }
    }

    fn available_line_kinds(&self) -> (r: AvailableLineKinds) {
        AvailableLineKinds { code: true, comment: true, empty: true }
    }
}

/// Classifier for languages with only a line-comment token. Stateless: each
/// line's verdict depends on that line alone.
pub struct GenericWithComment {
    pub comment: Vec<char>,
}

impl GenericWithComment {
    pub fn new(comment: &'static str) -> (r: Self)
        ensures
            r.comment@ == comment@,
    {
        Self { comment: chars_of(comment) }
    }
}

impl LineKindEstimator for GenericWithComment {
    /// A blank trimmed line is empty; a line starting with the comment token
    /// is a comment; anything else is code.
    open spec fn spec_step(self, line: Seq<char>) -> (LineKind, Self) {
        let t = trim_spec(line);
        if t.len() == 0 {
            (LineKind::Empty, self)
        } else if starts_with_spec(t, self.comment@) {
            (LineKind::Comment, self)
        } else {
            (LineKind::Code, self)
        }
    }

    open spec fn spec_available(&self) -> AvailableLineKinds {
        AvailableLineKinds { code: true, comment: true, empty: true }
    }

    fn estimate(&mut self, line: &str) -> (k: LineKind) {
        let cs = chars_of(line);
        let t = trim_chars(&cs);
        if t.len() == 0 {
            LineKind::Empty
        } else if starts_with_chars(&t, &self.comment) {
            LineKind::Comment
        } else {
            LineKind::Code
        }
    }

    fn available_line_kinds(&self) -> (r: AvailableLineKinds) {
        AvailableLineKinds { code: true, comment: true, empty: true }
    }
}

/// Classifier for languages with no comment concept: a line is either blank
/// or code.
pub struct Generic;

impl LineKindEstimator for Generic {
    open spec fn spec_step(self, line: Seq<char>) -> (LineKind, Self) {
        let t = trim_spec(line);
        if t.len() == 0 {
            (LineKind::Empty, self)
        } else {
            (LineKind::Code, self)
        }
    }

    open spec fn spec_available(&self) -> AvailableLineKinds {
        AvailableLineKinds { code: true, comment: false, empty: true }
    }

    fn estimate(&mut self, line: &str) -> (k: LineKind) {
        let cs = chars_of(line);
        let t = trim_chars(&cs);
        if t.len() == 0 {
            LineKind::Empty
        } else {
            LineKind::Code
        }
    }

    fn available_line_kinds(&self) -> (r: AvailableLineKinds) {
        AvailableLineKinds { code: true, comment: false, empty: true }
    }
}

/// A classifier for some language, chosen by the classifier registry.
pub enum Estimator {
    MultilineAware(MultilineCommentAware),
    CommentAware(GenericWithComment),
    Plain(Generic),
}

impl LineKindEstimator for Estimator {
    open spec fn spec_step(self, line: Seq<char>) -> (LineKind, Self) {
        match self {
            Estimator::MultilineAware(m) => {
                let (k, m2) = m.spec_step(line);
                (k, Estimator::MultilineAware(m2))
            },
            Estimator::CommentAware(g) => {
                let (k, g2) = g.spec_step(line);
                (k, Estimator::CommentAware(g2))
            },
            Estimator::Plain(g) => {
                let (k, g2) = g.spec_step(line);
                (k, Estimator::Plain(g2))
            },
        }
    }

    open spec fn spec_available(&self) -> AvailableLineKinds {
        match self {
            Estimator::MultilineAware(m) => m.spec_available(),
            Estimator::CommentAware(g) => g.spec_available(),
            Estimator::Plain(g) => g.spec_available(),
        }
    }

    fn estimate(&mut self, line: &str) -> (k: LineKind) {
        match self {
            Estimator::MultilineAware(m) => m.estimate(line),
            Estimator::CommentAware(g) => g.estimate(line),
            Estimator::Plain(g) => g.estimate(line),
        }
    }

    fn available_line_kinds(&self) -> (r: AvailableLineKinds) {
        match self {
            Estimator::MultilineAware(m) => m.available_line_kinds(),
            Estimator::CommentAware(g) => g.available_line_kinds(),
            Estimator::Plain(g) => g.available_line_kinds(),
        }
    }
}

} // verus!
