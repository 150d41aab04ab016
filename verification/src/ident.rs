//! The names that a `builder` attribute may give to a method: identifiers.
//!
//! An identifier starts with a character of the Unicode class XID_Start or
//! with an underscore, goes on with characters of the class XID_Continue, and
//! is not the underscore alone. Which characters the two classes hold is
//! left to the Unicode tables of `unicode-ident`; what an identifier is, given
//! the classes of its characters, is decided here.

use vstd::prelude::*;

verus! {

/// Whether the character has the Unicode property XID_Start, as
/// `unicode_ident::is_xid_start` tells it.
pub uninterp spec fn xid_start(c: char) -> bool;

/// Whether the character has the Unicode property XID_Continue, as
/// `unicode_ident::is_xid_continue` tells it.
pub uninterp spec fn xid_continue(c: char) -> bool;

/// Calls `unicode_ident::is_xid_start`, which looks the character up in the
/// crate's tables. Nothing is claimed of the answer but that it is the
/// table's: the same character always has the same class.
#[verifier::external_body]
fn is_xid_start(c: char) -> (start: bool)
    ensures
        start == xid_start(c),
{
    unicode_ident::is_xid_start(c)
}

/// Calls `unicode_ident::is_xid_continue`, which looks the character up in
/// the crate's tables. Nothing is claimed of the answer but that it is the
/// table's: the same character always has the same class.
#[verifier::external_body]
fn is_xid_continue(c: char) -> (cont: bool)
    ensures
        cont == xid_continue(c),
{
    unicode_ident::is_xid_continue(c)
}

/// What matters of one character of a name.
#[derive(Clone, Copy, Debug, PartialEq, Eq)]
pub struct CharClass {
    /// The character is the underscore.
    pub underscore: bool,
    /// The character may start an identifier.
    pub start: bool,
    /// The character may stand inside an identifier.
    pub cont: bool,
}

/// The class of a character.
pub open spec fn class_of(c: char) -> CharClass {
    CharClass { underscore: c == '_', start: xid_start(c), cont: xid_continue(c) }
}

/// The classes of the characters of a name, in order.
pub open spec fn classes(name: Seq<char>) -> Seq<CharClass> {
    Seq::new(name.len(), |i: int| class_of(name[i]))
}

/// Whether characters of these classes spell an identifier: the first starts
/// one, or is an underscore that does not stand alone, and every later one
/// may stand inside.
pub open spec fn spell_identifier(cs: Seq<CharClass>) -> bool {
    &&& cs.len() > 0
    &&& cs[0].start || (cs[0].underscore && cs.len() > 1)
    &&& forall|i: int| 1 <= i < cs.len() ==> cs[i].cont
}

/// Whether the name is an identifier.
pub open spec fn identifier(name: Seq<char>) -> bool {
    spell_identifier(classes(name))
}

/// Decides whether characters of the given classes spell an identifier.
pub fn spells_identifier(cs: &Vec<CharClass>) -> (yes: bool)
    ensures
        yes == spell_identifier(cs@),
{
    if cs.len() == 0 {
        return false;
    }
    if !(cs[0].start || (cs[0].underscore && cs.len() > 1)) {
        return false;
    }
    let mut i: usize = 1;
    while i < cs.len()
        invariant
            1 <= i <= cs.len(),
            forall|j: int| 1 <= j < i ==> cs@[j].cont,
        decreases cs.len() - i,
    {
        if !cs[i].cont {
            return false;
        }
        i += 1;
    }
    true
}

/// Looks up the class of every character of a name.
pub fn classify(name: &str) -> (cs: Vec<CharClass>)
    ensures
        cs@ == classes(name@),
{
    let mut cs: Vec<CharClass> = Vec::new();
    for c in it: name.chars()
        invariant
            it.seq() == name@,
            cs@.len() == it.index(),
            forall|j: int| 0 <= j < cs@.len() ==> cs@[j] == class_of(name@[j]),
    {
        cs.push(CharClass { underscore: c == '_', start: is_xid_start(c), cont: is_xid_continue(c) });
    }
    assert(cs@ =~= classes(name@));
    cs
}

/// Decides whether a name is an identifier.
pub fn is_identifier(name: &str) -> (yes: bool)
    ensures
        yes == identifier(name@),
{
    spells_identifier(&classify(name))
}

} // verus!
