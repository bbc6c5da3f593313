//! Common vocabulary shared across the front end.

use vstd::prelude::*;

verus! {

/// One of two things.
#[derive(Debug, Clone)]
pub enum Either<L, R> {
    Left(L),
    Right(R),
}

/// Whether a construct runs in safe mode.
#[derive(Debug, Clone, Copy, PartialEq, Eq, Structural)]
pub enum Safety {
    /// Determined to be safe-mode.
    Safe,
    /// Explicitly allows unsafe-mode.
    Unsafe,
    /// Undetermined safety. Assumed safe-mode.
    Unknown,
}

/// Whether a binding may change.
#[derive(Debug, Clone, Copy, PartialEq, Eq, Structural)]
pub enum Mutability {
    /// Explicitly mutable.
    Mutable,
    /// Determined to be immutable.
    Immutable,
    /// Undetermined mutability. Assumed immutable.
    Unknown,
}

/// Whether a declaration is visible outside its module.
#[derive(Debug, Clone, Copy, PartialEq, Eq, Structural)]
pub enum Visability {
    /// Explicitly visible.
    Public,
    /// Determined not to be visible.
    Private,
    /// Undetermined visibility. Assumed private.
    Unknown,
}

/// Core build directives.
#[derive(Debug, Clone, Copy, PartialEq, Eq, Structural)]
pub enum Directive {
    Run,
    Use,
    Build,
    Define,
    UNKNOWN,
}

/// The directive a piece of text names.
pub open spec fn spec_directive_of(text: Seq<char>) -> Directive {
    if text == "run"@ {
        Directive::Run
    } else if text == "use"@ {
        Directive::Use
    } else if text == "build"@ {
        Directive::Build
    } else if text == "define"@ {
        Directive::Define
    } else {
        Directive::UNKNOWN
    }
}

/// The text that names a known directive.
pub open spec fn spec_directive_text(d: Directive) -> Seq<char> {
    match d {
        Directive::Run => "run"@,
        Directive::Use => "use"@,
        Directive::Build => "build"@,
        Directive::Define => "define"@,
        Directive::UNKNOWN => Seq::empty(),
    }
}

impl Directive {
    /// Maps a piece of text to the directive it names.
    pub fn map_to(s: &str) -> (r: Self)
        ensures
            r == spec_directive_of(s@),
    {
        let t: String = s.to_owned();
        if t == "run".to_owned() {
            Directive::Run
        } else if t == "use".to_owned() {
            Directive::Use
        } else if t == "build".to_owned() {
            Directive::Build
        } else if t == "define".to_owned() {
            Directive::Define
        } else {
            Directive::UNKNOWN
        }
    }

    /// The text of a known directive.
    pub fn map_from(&self) -> (r: &str)
        requires
            *self != Directive::UNKNOWN,
        ensures
            r@ == spec_directive_text(*self),
    {
        match self {
            Directive::Run => "run",
            Directive::Use => "use",
            Directive::Build => "build",
            Directive::Define => "define",
            Directive::UNKNOWN => "",
        }
    }
}

/// Directive names round-trip: rendering a known directive and mapping
/// the text back yields the same directive.
pub proof fn lemma_directive_round_trip(d: Directive)
    requires
        d != Directive::UNKNOWN,
    ensures
        spec_directive_of(spec_directive_text(d)) == d,
{
    reveal_strlit("run");
    reveal_strlit("use");
    reveal_strlit("build");
    reveal_strlit("define");
    assert("run"@.len() == 3 && "use"@.len() == 3 && "build"@.len() == 5 && "define"@.len() == 6);
    assert("run"@[0] == 'r' && "use"@[0] == 'u');
}

/// Core attributes a declaration can carry.
#[derive(Debug, Clone, Copy)]
pub enum Attribute {
    Inline(Inlinedness),
}

/// The attributes collected off a declaration.
#[derive(Debug, Clone)]
pub struct Attributes(pub Vec<Attribute>);

/// How strongly a function asks to be inlined.
#[derive(Debug, Clone, Copy)]
pub enum Inlinedness {
    /// Prevents inlining.
    Disable,
    /// Suggests inlining.
    Weak,
    /// Forces inlining.
    Strong,
}

} // verus!
