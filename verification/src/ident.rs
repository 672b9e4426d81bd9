//! Which strings can serve as the name of an accessor.

use vstd::prelude::*;
use vstd::string::StrSliceExecFns;

verus! {

/// Whether `c` has the Unicode property XID_Start, as `unicode_ident` decides it.
pub uninterp spec fn xid_start(c: char) -> bool;

/// Whether `c` has the Unicode property XID_Continue, as `unicode_ident` decides it.
pub uninterp spec fn xid_continue(c: char) -> bool;

/// Calls `unicode_ident::is_xid_start`. The result depends on the character
/// alone; the contract only gives it its name.
#[verifier::external_body]
fn is_xid_start(c: char) -> (r: bool)
    ensures
        r == xid_start(c),
{
    unicode_ident::is_xid_start(c)
}

/// Calls `unicode_ident::is_xid_continue`. The result depends on the character
/// alone; the contract only gives it its name.
#[verifier::external_body]
fn is_xid_continue(c: char) -> (r: bool)
    ensures
        r == xid_continue(c),
{
    unicode_ident::is_xid_continue(c)
}

/// An ASCII decimal digit.
pub open spec fn is_digit(c: char) -> bool {
    '0' <= c <= '9'
}

/// Whether an identifier may begin with `c`.
pub open spec fn may_start(c: char) -> bool {
    c == '_' || xid_start(c)
}

/// The strings from which `proc_macro2::Ident::new` makes an identifier: not
/// empty, not a number, an underscore or an XID_Start character first, and
/// XID_Continue characters after it.
pub open spec fn is_identifier_text(s: Seq<char>) -> bool {
    &&& s.len() > 0
    &&& exists|i: int| 0 <= i < s.len() && !is_digit(#[trigger] s[i])
    &&& may_start(s[0])
    &&& forall|i: int| 1 <= i < s.len() ==> xid_continue(#[trigger] s[i])
}

/// What the rule for identifiers asks of one character.
#[derive(Clone, Copy, Debug, PartialEq, Eq, Structural)]
pub struct CharClass {
    /// It is an ASCII decimal digit.
    pub digit: bool,
    /// An identifier may begin with it.
    pub start: bool,
    /// An identifier may go on with it.
    pub cont: bool,
}

/// The class of a character.
pub open spec fn class_of(c: char) -> CharClass {
    CharClass { digit: is_digit(c), start: may_start(c), cont: xid_continue(c) }
}

/// Whether characters of the given classes, in that order, make an identifier.
pub open spec fn classes_make_identifier(classes: Seq<CharClass>) -> bool {
    &&& classes.len() > 0
    &&& exists|i: int| 0 <= i < classes.len() && !(#[trigger] classes[i]).digit
    &&& classes[0].start
    &&& forall|i: int| 1 <= i < classes.len() ==> (#[trigger] classes[i]).cont
}

/// Classifies one character.
pub fn classify_char(c: char) -> (r: CharClass)
    ensures
        r == class_of(c),
{
    CharClass {
        digit: '0' <= c && c <= '9',
        start: c == '_' || is_xid_start(c),
        cont: is_xid_continue(c),
    }
}

/// Decides from the classes of its characters whether a string is an
/// identifier.
pub fn identifier_from_classes(classes: &Vec<CharClass>) -> (r: bool)
    ensures
        r == classes_make_identifier(classes@),
{
    if classes.len() == 0 || !classes[0].start {
        return false;
    }
    let mut all_digits: bool = classes[0].digit;
    let mut i: usize = 1;
    while i < classes.len()
        invariant
            1 <= i <= classes.len(),
            all_digits == (forall|j: int| 0 <= j < i ==> (#[trigger] classes[j]).digit),
            forall|j: int| 1 <= j < i ==> (#[trigger] classes[j]).cont,
        decreases classes.len() - i,
    {
        if !classes[i].cont {
            return false;
        }
        all_digits = all_digits && classes[i].digit;
        i += 1;
    }
    !all_digits
}

/// Whether `s` can be the name of an accessor.
pub fn is_identifier(s: &str) -> (r: bool)
    ensures
        r == is_identifier_text(s@),
{
    let n: usize = s.unicode_len();
    let mut classes: Vec<CharClass> = Vec::new();
    let mut i: usize = 0;
    while i < n
        invariant
            i <= n,
            n == s@.len(),
            classes.len() == i,
            forall|j: int| 0 <= j < i ==> #[trigger] classes[j] == class_of(s@[j]),
        decreases n - i,
    {
        classes.push(classify_char(s.get_char(i)));
        i += 1;
    }
    proof {
        if is_identifier_text(s@) {
            let k = choose|k: int| 0 <= k < s@.len() && !is_digit(#[trigger] s@[k]);
            assert(!classes[k].digit);
            assert(classes[0] == class_of(s@[0]));
            assert forall|j: int| 1 <= j < classes.len() implies (#[trigger] classes[j]).cont by {
                assert(xid_continue(s@[j]));
            }
        }
        if classes_make_identifier(classes@) {
            let k = choose|k: int| 0 <= k < classes.len() && !(#[trigger] classes[k]).digit;
            assert(!is_digit(s@[k]));
            assert(classes[0] == class_of(s@[0]));
            assert forall|j: int| 1 <= j < s@.len() implies xid_continue(#[trigger] s@[j]) by {
                assert(classes[j].cont);
            }
        }
    }
    identifier_from_classes(&classes)
}

} // verus!
