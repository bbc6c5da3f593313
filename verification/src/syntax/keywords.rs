//! The closed keyword table, as the parser classifies keywords.

use vstd::prelude::*;

verus! {

/// A keyword of the subject language.
#[derive(Debug, Clone, Copy, PartialEq, Eq, Structural)]
pub enum KeywordKind {
    Pub,
    Mod,
    Use,
    Mut,
    Defer,
    Return,
    Inline,
    /// Likely not a keyword.
    UNKNOWN,
}

/// The keyword a piece of text names.
pub open spec fn spec_keyword_of(text: Seq<char>) -> KeywordKind {
    if text == "pub"@ {
        KeywordKind::Pub
    } else if text == "mod"@ {
        KeywordKind::Mod
    } else if text == "use"@ {
        KeywordKind::Use
    } else if text == "mut"@ {
        KeywordKind::Mut
    } else if text == "defer"@ {
        KeywordKind::Defer
    } else if text == "return"@ {
        KeywordKind::Return
    } else if text == "inline"@ {
        KeywordKind::Inline
    } else {
        KeywordKind::UNKNOWN
    }
}

/// The text of a known keyword.
pub open spec fn spec_keyword_text(k: KeywordKind) -> Seq<char> {
    match k {
        KeywordKind::Pub => "pub"@,
        KeywordKind::Mod => "mod"@,
        KeywordKind::Use => "use"@,
        KeywordKind::Mut => "mut"@,
        KeywordKind::Defer => "defer"@,
        KeywordKind::Return => "return"@,
        KeywordKind::Inline => "inline"@,
        KeywordKind::UNKNOWN => Seq::empty(),
    }
}

impl KeywordKind {
    /// Maps a piece of text to the keyword it names.
    pub fn from_text(value: &str) -> (r: Self)
        ensures
            r == spec_keyword_of(value@),
    {
        let t: String = value.to_owned();
        if t == "pub".to_owned() {
            KeywordKind::Pub
        } else if t == "mod".to_owned() {
            KeywordKind::Mod
        } else if t == "use".to_owned() {
            KeywordKind::Use
        } else if t == "mut".to_owned() {
            KeywordKind::Mut
        } else if t == "defer".to_owned() {
            KeywordKind::Defer
        } else if t == "return".to_owned() {
            KeywordKind::Return
        } else if t == "inline".to_owned() {
            KeywordKind::Inline
        } else {
            KeywordKind::UNKNOWN
        }
    }

    /// The text of a known keyword.
    pub fn as_text(&self) -> (r: &str)
        requires
            *self != KeywordKind::UNKNOWN,
        ensures
            r@ == spec_keyword_text(*self),
    {
        match self {
            KeywordKind::Pub => "pub",
            KeywordKind::Mod => "mod",
            KeywordKind::Use => "use",
            KeywordKind::Mut => "mut",
            KeywordKind::Defer => "defer",
            KeywordKind::Return => "return",
            KeywordKind::Inline => "inline",
            KeywordKind::UNKNOWN => "",
        }
    }
}

/// Keyword names round-trip: rendering a known keyword and mapping the
/// text back yields the same keyword.
pub proof fn lemma_keyword_round_trip(k: KeywordKind)
    requires
        k != KeywordKind::UNKNOWN,
    ensures
        spec_keyword_of(spec_keyword_text(k)) == k,
{
    reveal_strlit("pub");
    reveal_strlit("mod");
    reveal_strlit("use");
    reveal_strlit("mut");
    reveal_strlit("defer");
    reveal_strlit("return");
    reveal_strlit("inline");
    assert("pub"@.len() == 3 && "mod"@.len() == 3 && "use"@.len() == 3 && "mut"@.len() == 3);
    assert("defer"@.len() == 5 && "return"@.len() == 6 && "inline"@.len() == 6);
    assert("pub"@[0] == 'p' && "mod"@[0] == 'm' && "use"@[0] == 'u' && "mut"@[0] == 'm');
    assert("mod"@[1] == 'o' && "mut"@[1] == 'u');
    assert("return"@[0] == 'r' && "inline"@[0] == 'i');
}

} // verus!
