//! Source spans and identifiers.

use vstd::prelude::*;

verus! {

/// A range of source text: `start..end` in the source numbered `source`.
#[derive(Clone, Copy, Debug, PartialEq, Eq, Structural, Hash)]
pub struct Span {
    pub source: usize,
    pub start: usize,
    pub end: usize,
}

impl Span {
    pub fn new(source: usize, start: usize, end: usize) -> (res: Span)
        ensures
            res == (Span { source, start, end }),
    {
        Span { source, start, end }
    }

    /// The smallest span that covers both spans, which are in one source.
    pub fn join(s1: Span, s2: Span) -> (res: Span)
        requires
            s1.source == s2.source,
        ensures
            res.source == s1.source,
            res.start == (if s1.start <= s2.start { s1.start } else { s2.start }),
            res.end == (if s1.end >= s2.end { s1.end } else { s2.end }),
    {
        Span {
            source: s1.source,
            start: if s1.start <= s2.start { s1.start } else { s2.start },
            end: if s1.end >= s2.end { s1.end } else { s2.end },
        }
    }
}

/// An identifier with the span it was written at.  Two identifiers are the
/// same name when their strings are equal, wherever they were written.
#[derive(Clone, Debug)]
pub struct Ident {
    pub name: String,
    pub span: Span,
}

impl Ident {
    pub fn new(name: String, span: Span) -> (res: Ident)
        ensures
            res.name@ == name@,
            res.span == span,
    {
        Ident { name, span }
    }

    pub fn as_str(&self) -> (res: &str)
        ensures
            res@ == self.name@,
    {
        self.name.as_str()
    }

    /// Whether two identifiers name the same thing.
    pub fn same_name(&self, other: &Ident) -> (res: bool)
        ensures
            res == (self.name@ == other.name@),
    {
        self.name == other.name
    }

    /// A copy of this identifier.
    pub fn duplicate(&self) -> (res: Ident)
        ensures
            res == *self,
    {
        Ident { name: self.name.clone(), span: self.span }
    }
}

/// A copy of each identifier of a list.
pub fn duplicate_idents(v: &Vec<Ident>) -> (res: Vec<Ident>)
    ensures
        res@ == v@,
{
    let mut res: Vec<Ident> = Vec::new();
    let mut i: usize = 0;
    while i < v.len()
        invariant
            0 <= i <= v@.len(),
            res@ =~= v@.subrange(0, i as int),
        decreases v@.len() - i,
    {
        res.push(v[i].duplicate());
        i = i + 1;
    }
    assert(res@ =~= v@);
    res
}

/// Whether two lists of identifiers name the same things, in order.
pub fn same_names(a: &Vec<Ident>, b: &Vec<Ident>) -> (res: bool)
    ensures
        res == (a@.len() == b@.len() && forall|i: int| 0 <= i < a@.len() ==> #[trigger] a@[i].name@ == b@[i].name@),
{
    if a.len() != b.len() {
        return false;
    }
    let mut i: usize = 0;
    while i < a.len()
        invariant
            a@.len() == b@.len(),
            0 <= i <= a@.len(),
            forall|j: int| 0 <= j < i ==> #[trigger] a@[j].name@ == b@[j].name@,
        decreases a@.len() - i,
    {
        if !a[i].same_name(&b[i]) {
            return false;
        }
        i = i + 1;
    }
    true
}

/// A path to a symbol: `prefixes::suffix`.
#[derive(Debug)]
pub struct CallPath {
    pub prefixes: Vec<Ident>,
    pub suffix: Ident,
    pub is_absolute: bool,
}

impl CallPath {
    /// Whether two paths name the same symbol in the same way.
    pub open spec fn same_path(&self, other: &CallPath) -> bool {
        &&& self.prefixes@.len() == other.prefixes@.len()
        &&& forall|i: int| 0 <= i < self.prefixes@.len() ==> #[trigger] self.prefixes@[i].name@ == other.prefixes@[i].name@
        &&& self.suffix.name@ == other.suffix.name@
        &&& self.is_absolute == other.is_absolute
    }

    pub fn eq(&self, other: &CallPath) -> (res: bool)
        ensures
            res == self.same_path(other),
    {
        same_names(&self.prefixes, &other.prefixes) && self.suffix.same_name(&other.suffix)
            && self.is_absolute == other.is_absolute
    }

    pub fn duplicate(&self) -> (res: CallPath)
        ensures
            res.prefixes@ == self.prefixes@,
            res.suffix == self.suffix,
            res.is_absolute == self.is_absolute,
    {
        CallPath {
            prefixes: duplicate_idents(&self.prefixes),
            suffix: self.suffix.duplicate(),
            is_absolute: self.is_absolute,
        }
    }
}

} // verus!
