//! Identifiers: the names of structures and of their fields.
//!
//! The generator writes these names into the declarations it makes, so it
//! takes only what can be written back as one word, whatever reads the
//! tokens: ASCII letters, digits and `_`. A name with other letters, or a
//! raw identifier such as `r#type`, is not an [`Identifier`].

use vstd::prelude::*;
use vstd::string::*;

verus! {

/// A character that may begin an identifier: an ASCII letter or `_`.
pub open spec fn is_ident_start(c: char) -> bool {
    c == '_' || ('a' <= c && c <= 'z') || ('A' <= c && c <= 'Z')
}

/// A character that may follow the first one: an ASCII letter, an ASCII digit or `_`.
pub open spec fn is_ident_continue(c: char) -> bool {
    is_ident_start(c) || ('0' <= c && c <= '9')
}

/// The texts that are identifiers: not empty, begun by a letter or `_`,
/// continued by letters, digits and `_`.
pub open spec fn is_identifier(s: Seq<char>) -> bool {
    &&& s.len() > 0
    &&& is_ident_start(s[0])
    &&& forall|i: int| 0 <= i < s.len() ==> is_ident_continue(#[trigger] s[i])
}

fn ident_start(c: char) -> (b: bool)
    ensures
        b == is_ident_start(c),
{
    c == '_' || ('a' <= c && c <= 'z') || ('A' <= c && c <= 'Z')
}

fn ident_continue(c: char) -> (b: bool)
    ensures
        b == is_ident_continue(c),
{
    ident_start(c) || ('0' <= c && c <= '9')
}

/// Whether `text` is an identifier.
pub fn check_identifier(text: &str) -> (b: bool)
    ensures
        b == is_identifier(text@),
{
    let n: usize = text.unicode_len();
    if n == 0 {
        return false;
    }
    if !ident_start(text.get_char(0)) {
        return false;
    }
    let mut i: usize = 0;
    while i < n
        invariant
            n == text@.len(),
            i <= n,
            forall|j: int| 0 <= j < i ==> is_ident_continue(#[trigger] text@[j]),
        decreases n - i,
    {
        if !ident_continue(text.get_char(i)) {
            return false;
        }
        i = i + 1;
    }
    true
}

/// Whether two texts hold the same characters.
pub fn same_text(a: &str, b: &str) -> (same: bool)
    ensures
        same == (a@ == b@),
{
    let n: usize = a.unicode_len();
    if n != b.unicode_len() {
        return false;
    }
    let mut i: usize = 0;
    while i < n
        invariant
            n == a@.len(),
            n == b@.len(),
            i <= n,
            forall|j: int| 0 <= j < i ==> a@[j] == b@[j],
        decreases n - i,
    {
        if a.get_char(i) != b.get_char(i) {
            return false;
        }
        i = i + 1;
    }
    assert(a@ =~= b@);
    true
}

/// A name, known to be an identifier.
#[derive(Debug)]
pub struct Identifier {
    text: String,
}

impl View for Identifier {
    type V = Seq<char>;

    closed spec fn view(&self) -> Seq<char> {
        self.text@
    }
}

impl Identifier {
    #[verifier::type_invariant]
    spec fn well_formed(self) -> bool {
        is_identifier(self.text@)
    }

    /// The identifier spelled `text`, or `None` where `text` is no identifier.
    pub fn new(text: &str) -> (made: Option<Identifier>)
        ensures
            made is Some <==> is_identifier(text@),
            made matches Some(id) ==> id@ == text@,
    {
        if check_identifier(text) {
            Some(Identifier { text: String::from_str(text) })
        } else {
            None
        }
    }

    /// The identifier spelled `text`, which is known to be one.
    pub(crate) fn from_word(text: &str) -> (made: Identifier)
        requires
            is_identifier(text@),
        ensures
            made@ == text@,
    {
        Identifier { text: String::from_str(text) }
    }

    /// The identifier's text.
    pub fn as_str(&self) -> (text: &str)
        ensures
            text@ == self@,
            is_identifier(text@),
    {
        proof {
            use_type_invariant(self);
        }
        self.text.as_str()
    }

    /// Whether the identifier is spelled `word`.
    pub fn is(&self, word: &str) -> (same: bool)
        ensures
            same == (self@ == word@),
    {
        same_text(self.text.as_str(), word)
    }

    /// The identifier made of this one's text followed by `suffix`.
    pub fn with_suffix(&self, suffix: &Identifier) -> (joined: Identifier)
        ensures
            joined@ == self@ + suffix@,
    {
        proof {
            use_type_invariant(self);
            use_type_invariant(suffix);
        }
        let mut text = String::from_str(self.text.as_str());
        text.append(suffix.text.as_str());
        Identifier { text }
    }

    /// A copy of the identifier.
    pub fn duplicate(&self) -> (copy: Identifier)
        ensures
            copy@ == self@,
    {
        proof {
            use_type_invariant(self);
        }
        Identifier { text: self.text.clone() }
    }
}

} // verus!
