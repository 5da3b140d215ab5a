//! Method signatures of the foreign runtime: what a method takes, between
//! the round brackets, and what it returns, behind them.

use crate::text::str_eq;
use vstd::prelude::*;

verus! {

/// What a method returns.
#[derive(Debug, PartialEq, Eq)]
pub enum ReturnKind {
    Void,
    Bool,
    Int,
    Long,
    /// An object, with the name of its class.
    Object(String),
    /// Anything that the bridge does not read.
    Other,
}

pub enum ReturnKindView {
    Void,
    Bool,
    Int,
    Long,
    Object(Seq<char>),
    Other,
}

impl DeepView for ReturnKind {
    type V = ReturnKindView;

    open spec fn deep_view(&self) -> ReturnKindView {
        match *self {
            ReturnKind::Void => ReturnKindView::Void,
            ReturnKind::Bool => ReturnKindView::Bool,
            ReturnKind::Int => ReturnKindView::Int,
            ReturnKind::Long => ReturnKindView::Long,
            ReturnKind::Object(class) => ReturnKindView::Object(class@),
            ReturnKind::Other => ReturnKindView::Other,
        }
    }
}

/// Where the last closing bracket stands among the first `upto` characters.
pub open spec fn last_close(sig: Seq<char>, upto: int) -> Option<int>
    decreases upto,
{
    if upto <= 0 || upto > sig.len() {
        None
    } else if sig[upto - 1] == ')' {
        Some(upto - 1)
    } else {
        last_close(sig, upto - 1)
    }
}

/// The part of a signature that says what is returned: what follows the
/// last closing bracket, or the whole text where there is none.
pub open spec fn returned_part(sig: Seq<char>) -> Seq<char> {
    match last_close(sig, sig.len() as int) {
        Some(at) => sig.subrange(at + 1, sig.len() as int),
        None => sig,
    }
}

/// What the returned part of a signature stands for: one letter for
/// nothing, for a boolean, for a 32-bit and for a 64-bit integer; a class
/// name between `L` and `;` for an object.
pub open spec fn kind_of(part: Seq<char>) -> ReturnKindView {
    if part == seq!['V'] {
        ReturnKindView::Void
    } else if part == seq!['Z'] {
        ReturnKindView::Bool
    } else if part == seq!['I'] {
        ReturnKindView::Int
    } else if part == seq!['J'] {
        ReturnKindView::Long
    } else if part.len() >= 2 && part[0] == 'L' && part[part.len() - 1] == ';' {
        ReturnKindView::Object(part.subrange(1, part.len() - 1))
    } else {
        ReturnKindView::Other
    }
}

/// Whether a signature takes no argument.
pub open spec fn spec_takes_nothing(sig: Seq<char>) -> bool {
    sig.len() >= 2 && sig[0] == '(' && sig[1] == ')'
}

/// Finds the last closing bracket of a signature.
fn find_last_close(sig: &str) -> (found: Option<usize>)
    ensures
        match found {
            Some(at) => last_close(sig@, sig@.len() as int) == Some(at as int) && at < sig@.len(),
            None => last_close(sig@, sig@.len() as int) is None,
        },
{
    let len = sig.unicode_len();
    let mut at: usize = len;
    while at > 0
        invariant
            at <= len,
            len == sig@.len(),
            last_close(sig@, len as int) == last_close(sig@, at as int),
        decreases at,
    {
        at -= 1;
        if sig.get_char(at) == ')' {
            return Some(at);
        }
    }
    None
}

/// Tells what a method of this signature returns.
pub fn return_kind(sig: &str) -> (kind: ReturnKind)
    ensures
        kind.deep_view() == kind_of(returned_part(sig@)),
{
    let len = sig.unicode_len();
    let start: usize = match find_last_close(sig) {
        Some(at) => at + 1,
        None => 0,
    };
    let part = sig.substring_char(start, len);
    assert(part@ == returned_part(sig@)) by {
        if last_close(sig@, len as int) is None {
            assert(sig@.subrange(0, len as int) =~= sig@);
        }
    }
    let part_len = len - start;
    if part_len == 1 {
        let letter = part.get_char(0);
        assert(part@ =~= seq![letter]);
        if letter == 'V' {
            ReturnKind::Void
        } else if letter == 'Z' {
            ReturnKind::Bool
        } else if letter == 'I' {
            ReturnKind::Int
        } else if letter == 'J' {
            ReturnKind::Long
        } else {
            ReturnKind::Other
        }
    } else if part_len >= 2 && part.get_char(0) == 'L' && part.get_char(part_len - 1) == ';' {
        ReturnKind::Object(String::from_str(part.substring_char(1, part_len - 1)))
    } else {
        ReturnKind::Other
    }
}

/// Tells whether a method of this signature takes no argument.
pub fn takes_nothing(sig: &str) -> (nothing: bool)
    ensures
        nothing == spec_takes_nothing(sig@),
{
    let len = sig.unicode_len();
    len >= 2 && sig.get_char(0) == '(' && sig.get_char(1) == ')'
}

/// Whether a method of this signature is an accessor that the bridge can
/// read from an object: it takes nothing and returns something.
pub open spec fn spec_is_accessor(sig: Seq<char>) -> bool {
    spec_takes_nothing(sig) && !(kind_of(returned_part(sig)) is Void)
}

/// Tells whether a method of this signature is an accessor that the bridge
/// can read from an object.
pub fn is_accessor(sig: &str) -> (accessor: bool)
    ensures
        accessor == spec_is_accessor(sig@),
{
    if !takes_nothing(sig) {
        return false;
    }
    match return_kind(sig) {
        ReturnKind::Void => false,
        _ => true,
    }
}

/// The name of the accessor that lists the names under which a keyed
/// accessor answers: the name of the keyed accessor followed by `Names`.
pub fn names_accessor(keyed: &str) -> (names: String)
    ensures
        names@ == keyed@ + "Names"@,
{
    let mut names = String::from_str(keyed);
    names.append("Names");
    names
}

/// Tells whether a method of this signature takes one string and nothing
/// else.
pub fn takes_one_string(sig: &str) -> (one: bool)
    ensures
        one == (sig@.len() >= 20 && sig@.subrange(0, 20) == "(Ljava/lang/String;)"@),
{
    let len = sig.unicode_len();
    proof {
        reveal_strlit("(Ljava/lang/String;)");
    }
    len >= 20 && str_eq(sig.substring_char(0, 20), "(Ljava/lang/String;)")
}

} // verus!
