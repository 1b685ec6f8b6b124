//! Immutable, equality-by-value building blocks of an extraction request.

use vstd::prelude::*;
use crate::errors::DomainError;
use crate::text::{owned, chars_of, ascii_alpha, ascii_alnum, is_ascii_alpha, is_ascii_alnum};

verus! {

/// Path to a Rust source file; never empty.
#[derive(Debug, PartialEq, Eq, Hash)]
pub struct FilePath(String);

impl Clone for FilePath {
    fn clone(&self) -> (c: Self)
        ensures
            c == *self,
    {
        FilePath(self.0.clone())
    }
}

impl View for FilePath {
    type V = Seq<char>;

    closed spec fn view(&self) -> Seq<char> {
        self.0@
    }
}

impl FilePath {
    /// Accepts any non-empty path text.
    pub fn new(raw: &str) -> (r: Result<Self, DomainError>)
        ensures
            raw@.len() > 0 ==> (r matches Ok(p) && p@ == raw@),
            raw@.len() == 0 ==> (r matches Err(DomainError::InvalidFilePath(s)) && s@ == raw@),
    {
        let s = owned(raw);
        if s.as_str().is_empty() {
            return Err(DomainError::InvalidFilePath(s));
        }
        Ok(FilePath(s))
    }

    pub fn as_str(&self) -> (s: &str)
        ensures
            s@ == self@,
    {
        self.0.as_str()
    }
}


/// Half-open byte range `[start, end)` within a source file.
#[derive(Debug, Clone, Copy, PartialEq, Eq, Hash)]
pub struct ByteRange {
    pub start: u32,
    pub end: u32,
}

impl ByteRange {
    /// Accepts exactly the ranges with `start < end`.
    pub fn new(start: u32, end: u32) -> (r: Result<Self, DomainError>)
        ensures
            start < end ==> r == Ok::<ByteRange, DomainError>(ByteRange { start, end }),
            start >= end ==> r == Err::<ByteRange, DomainError>(DomainError::EmptySelectionRange),
    {
        if start >= end {
            return Err(DomainError::EmptySelectionRange);
        }
        Ok(ByteRange { start, end })
    }

    pub fn is_empty(&self) -> (b: bool)
        ensures
            b == (self.start >= self.end),
    {
        self.start >= self.end
    }

    /// Number of bytes covered; an inverted range has no length.
    pub fn len(&self) -> (n: u32)
        requires
            self.start <= self.end,
        ensures
            n == self.end - self.start,
    {
        self.end - self.start
    }

    pub fn contains(&self, offset: u32) -> (b: bool)
        ensures
            b == (self.start <= offset && offset < self.end),
    {
        offset >= self.start && offset < self.end
    }
}

/// A Rust identifier in the ASCII subset: a letter or `_`, then letters,
/// digits or `_`.
pub open spec fn is_rust_ident(s: Seq<char>) -> bool {
    &&& s.len() > 0
    &&& (s[0] == '_' || is_ascii_alpha(s[0]))
    &&& forall|i: int| 1 <= i < s.len() ==> (#[trigger] s[i] == '_' || is_ascii_alnum(s[i]))
}

fn is_valid_rust_ident(s: &str) -> (b: bool)
    ensures
        b == is_rust_ident(s@),
{
    let cs = chars_of(s);
    if cs.len() == 0 {
        return false;
    }
    let c0 = cs[0];
    if !(c0 == '_' || ascii_alpha(c0)) {
        return false;
    }
    let mut i: usize = 1;
    while i < cs.len()
        invariant
            1 <= i <= cs.len(),
            cs@ == s@,
            forall|j: int| 1 <= j < i ==> (#[trigger] cs@[j] == '_' || is_ascii_alnum(cs@[j])),
        decreases cs.len() - i,
    {
        let c = cs[i];
        if !(c == '_' || ascii_alnum(c)) {
            return false;
        }
        i += 1;
    }
    true
}

/// Valid Rust identifier used as the name of the extracted function.
#[derive(Debug, PartialEq, Eq, Hash)]
pub struct FunctionName(String);

impl Clone for FunctionName {
    fn clone(&self) -> (c: Self)
        ensures
            c == *self,
    {
        FunctionName(self.0.clone())
    }
}

impl View for FunctionName {
    type V = Seq<char>;

    closed spec fn view(&self) -> Seq<char> {
        self.0@
    }
}

impl FunctionName {
    /// Accepts exactly the Rust identifiers (ASCII subset).
    pub fn new(raw: &str) -> (r: Result<Self, DomainError>)
        ensures
            is_rust_ident(raw@) ==> (r matches Ok(n) && n@ == raw@),
            !is_rust_ident(raw@) ==> (r matches Err(DomainError::InvalidFunctionName(s))
                && s@ == raw@),
    {
        let s = owned(raw);
        if s.as_str().is_empty() || !is_valid_rust_ident(s.as_str()) {
            return Err(DomainError::InvalidFunctionName(s));
        }
        Ok(FunctionName(s))
    }

    pub fn as_str(&self) -> (s: &str)
        ensures
            s@ == self@,
    {
        self.0.as_str()
    }
}

/// `s` names a lifetime: a quote followed by at least one character.
pub open spec fn is_lifetime_text(s: Seq<char>) -> bool {
    s.len() >= 2 && s[0] == '\''
}

/// A named lifetime parameter such as `'a` or `'static`.
#[derive(Debug, Clone, PartialEq, Eq, Hash)]
pub struct LifetimeParameter(String);

impl View for LifetimeParameter {
    type V = Seq<char>;

    closed spec fn view(&self) -> Seq<char> {
        self.0@
    }
}

impl LifetimeParameter {
    /// Accepts the texts that start with `'` and hold more than the quote.
    pub fn new(raw: &str) -> (r: Result<Self, DomainError>)
        ensures
            is_lifetime_text(raw@) ==> (r matches Ok(l) && l@ == raw@),
            !is_lifetime_text(raw@) ==> (r matches Err(DomainError::InvalidLifetimeParameter(s))
                && s@ == raw@),
    {
        let s = owned(raw);
        let cs = chars_of(raw);
        if cs.len() < 2 || cs[0] != '\'' {
            return Err(DomainError::InvalidLifetimeParameter(s));
        }
        Ok(LifetimeParameter(s))
    }

    pub fn as_str(&self) -> (s: &str)
        ensures
            s@ == self@,
    {
        self.0.as_str()
    }

    /// The well-known `'static` lifetime.
    pub fn static_lifetime() -> (l: Self)
        ensures
            l@ == "'static"@,
    {
        LifetimeParameter(owned("'static"))
    }
}

/// How a value crossing the new function boundary is passed.
#[derive(Debug, Clone, Copy, PartialEq, Eq, Hash, Structural)]
pub enum OwnershipKind {
    /// By value (move).
    Owned,
    /// As `&T`.
    SharedRef,
    /// As `&mut T`.
    MutRef,
}

/// Non-local control flow that may leave the extracted fragment.
#[derive(Debug, Clone, Copy, PartialEq, Eq, Hash, Structural)]
pub enum ControlFlowKind {
    Return,
    Break,
    Continue,
    Try,
}

} // verus!
