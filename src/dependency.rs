//! Identity and classification of dependency edges.
use vstd::prelude::*;

verus! {

/// Identifies one dependency within a compilation.
#[derive(Clone, Copy, Debug, PartialEq, Eq, Hash, Structural)]
pub struct DependencyId {
    pub id: u32,
}

/// Hands out dependency ids in increasing order, so that no id is given twice.
#[derive(Debug)]
pub struct DependencyIdGenerator {
    pub next: u32,
}

impl DependencyIdGenerator {
    pub fn new() -> (r: DependencyIdGenerator)
        ensures
            r.next == 0,
    {
        DependencyIdGenerator { next: 0 }
    }

    /// A fresh id, larger than every id handed out before; `None` once the
    /// id space is exhausted.
    pub fn fresh(&mut self) -> (r: Option<DependencyId>)
        ensures
            old(self).next < u32::MAX ==> r == Some(DependencyId { id: old(self).next })
                && final(self).next == old(self).next + 1,
            old(self).next == u32::MAX ==> r.is_none() && final(self).next == old(self).next,
    {
        if self.next < u32::MAX {
            let id = DependencyId { id: self.next };
            self.next = self.next + 1;
            Some(id)
        } else {
            None
        }
    }
}

/// The module system a dependency belongs to.
#[derive(Clone, Copy, Debug, PartialEq, Eq, Hash, Structural)]
pub enum DependencyCategory {
    Esm,
    CommonJs,
}

/// The fine-grained kind of a dependency.
#[derive(Clone, Copy, Debug, PartialEq, Eq, Hash, Structural)]
pub enum DependencyType {
    EsmExportSpecifier,
    EsmExportExpression,
    EsmExportImportedSpecifier,
    EsmImport,
    DynamicImport,
}

/// Whether evaluating a module for its side effects is required through a
/// dependency.
#[derive(Clone, Copy, Debug, PartialEq, Eq, Hash, Structural)]
pub enum ConnectionState {
    Bool(bool),
    /// Not known yet: the module is on the chain being visited.
    Maybe,
}

/// Logical or of two connection states, where `Maybe` counts as a
/// conservative true.
pub open spec fn connection_or(a: ConnectionState, b: ConnectionState) -> ConnectionState {
    if a == ConnectionState::Bool(true) || b == ConnectionState::Bool(true) {
        ConnectionState::Bool(true)
    } else if a == ConnectionState::Maybe || b == ConnectionState::Maybe {
        ConnectionState::Maybe
    } else {
        ConnectionState::Bool(false)
    }
}

impl ConnectionState {
    /// Combines the states of two dependencies of one module.
    pub fn or(self, other: ConnectionState) -> (r: ConnectionState)
        ensures
            r == connection_or(self, other),
    {
        match (self, other) {
            (ConnectionState::Bool(true), _) | (_, ConnectionState::Bool(true)) => {
                ConnectionState::Bool(true)
            },
            (ConnectionState::Maybe, _) | (_, ConnectionState::Maybe) => ConnectionState::Maybe,
            _ => ConnectionState::Bool(false),
        }
    }

    /// Whether the module must be evaluated: anything but a definite false.
    pub fn is_required(self) -> (r: bool)
        ensures
            r == (self != ConnectionState::Bool(false)),
    {
        match self {
            ConnectionState::Bool(b) => b,
            ConnectionState::Maybe => true,
        }
    }
}

/// Whether the presence of a dependency could change behaviour that the
/// referencing module observes.
#[derive(Clone, Copy, Debug, PartialEq, Eq, Hash, Structural)]
pub enum AffectType {
    False,
    True,
    Transitive,
}

/// Where a dependency stands in its source file, by 1-based line and
/// 0-based column.
#[derive(Clone, Copy, Debug, PartialEq, Eq, Hash, Structural)]
pub struct DependencyLocation {
    pub start_line: u32,
    pub start_column: u32,
    pub end_line: u32,
    pub end_column: u32,
}

/// The decimal digit for `d < 10`.
pub open spec fn digit_char(d: nat) -> char {
    if d == 0 { '0' }
    else if d == 1 { '1' }
    else if d == 2 { '2' }
    else if d == 3 { '3' }
    else if d == 4 { '4' }
    else if d == 5 { '5' }
    else if d == 6 { '6' }
    else if d == 7 { '7' }
    else if d == 8 { '8' }
    else { '9' }
}

/// The decimal notation of `n`, without leading zeros.
pub open spec fn decimal(n: nat) -> Seq<char>
    decreases n,
{
    if n < 10 {
        seq![digit_char(n)]
    } else {
        decimal(n / 10).push(digit_char(n % 10))
    }
}

/// A location as text: `line:column-column` on one line, else
/// `line:column-line:column`.
pub open spec fn location_text(l: DependencyLocation) -> Seq<char> {
    if l.start_line == l.end_line {
        decimal(l.start_line as nat) + seq![':'] + decimal(l.start_column as nat) + seq!['-']
            + decimal(l.end_column as nat)
    } else {
        decimal(l.start_line as nat) + seq![':'] + decimal(l.start_column as nat) + seq!['-']
            + decimal(l.end_line as nat) + seq![':'] + decimal(l.end_column as nat)
    }
}

fn digit_str(d: u32) -> (r: &'static str)
    requires
        d < 10,
    ensures
        r@ == seq![digit_char(d as nat)],
{
    proof {
        reveal_strlit("0");
        reveal_strlit("1");
        reveal_strlit("2");
        reveal_strlit("3");
        reveal_strlit("4");
        reveal_strlit("5");
        reveal_strlit("6");
        reveal_strlit("7");
        reveal_strlit("8");
        reveal_strlit("9");
    }
    if d == 0 { "0" }
    else if d == 1 { "1" }
    else if d == 2 { "2" }
    else if d == 3 { "3" }
    else if d == 4 { "4" }
    else if d == 5 { "5" }
    else if d == 6 { "6" }
    else if d == 7 { "7" }
    else if d == 8 { "8" }
    else { "9" }
}

/// Appends the decimal notation of `n`.
fn push_decimal(s: &mut String, n: u32)
    ensures
        final(s)@ == old(s)@ + decimal(n as nat),
    decreases n,
{
    if n < 10 {
        s.append(digit_str(n));
    } else {
        push_decimal(s, n / 10);
        s.append(digit_str(n % 10));
        assert(decimal(n as nat) == decimal((n / 10) as nat).push(digit_char((n % 10) as nat)));
        assert(final(s)@ =~= old(s)@ + decimal(n as nat));
    }
}

fn push_char_str(s: &mut String, c: &str)
    ensures
        final(s)@ == old(s)@ + c@,
{
    s.append(c);
}

impl DependencyLocation {
    /// The location as text.
    pub fn to_text(&self) -> (r: String)
        ensures
            r@ == location_text(*self),
    {
        let mut s = String::new();
        proof {
            reveal_strlit(":");
            reveal_strlit("-");
        }
        push_decimal(&mut s, self.start_line);
        push_char_str(&mut s, ":");
        push_decimal(&mut s, self.start_column);
        push_char_str(&mut s, "-");
        if self.start_line != self.end_line {
            push_decimal(&mut s, self.end_line);
            push_char_str(&mut s, ":");
        }
        push_decimal(&mut s, self.end_column);
        assert(s@ =~= location_text(*self));
        s
    }
}

} // verus!
