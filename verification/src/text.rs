//! Small operations on text that the derivation is built from.
//!
//! The code that the library emits is text in the form in which `proc_macro2`
//! prints a token stream: one space between two tokens, an operator of
//! several characters unbroken, and no space on the inside of parentheses.

use vstd::prelude::*;
use vstd::string::*;
use vstd::utf8::*;

verus! {

/// What separates the items of a list in the emitted code.
pub const SEPARATOR: &'static str = " , ";

/// What separates two emitted definitions.
pub const SPACE: &'static str = " ";

/// The texts of a list of string slices, in the same order.
pub open spec fn str_views(items: Seq<&str>) -> Seq<Seq<char>> {
    items.map_values(|item: &str| item@)
}

/// The texts of a list of strings, in the same order.
pub open spec fn string_views(items: Seq<String>) -> Seq<Seq<char>> {
    items.map_values(|item: String| item@)
}

/// Whether `text` ends in `suffix`.
pub open spec fn ends_with(text: Seq<char>, suffix: Seq<char>) -> bool {
    suffix.len() <= text.len() && text.subrange(text.len() - suffix.len(), text.len() as int)
        == suffix
}

/// The items of a list, each one after a separator: `" , a , b"` for the
/// items `a` and `b`, and nothing for no item.
pub open spec fn listed(items: Seq<Seq<char>>) -> Seq<char>
    decreases items.len(),
{
    if items.len() == 0 {
        Seq::empty()
    } else {
        listed(items.drop_last()) + SEPARATOR@ + items.last()
    }
}

/// Whether two string slices hold the same text.
pub fn same_text(left: &str, right: &str) -> (same: bool)
    ensures
        same == (left@ == right@),
{
    let a = left.as_bytes();
    let b = right.as_bytes();
    proof {
        // A text is what its bytes decode to, so equal bytes mean equal texts.
        encode_utf8_decode_utf8(left@);
        encode_utf8_decode_utf8(right@);
    }
    if a.len() != b.len() {
        return false;
    }
    let mut i: usize = 0;
    while i < a.len()
        invariant
            i <= a.len(),
            a.len() == b.len(),
            a@ == left.spec_bytes(),
            b@ == right.spec_bytes(),
            forall|j: int| 0 <= j < i ==> a@[j] == b@[j],
        decreases a.len() - i,
    {
        if a[i] != b[i] {
            return false;
        }
        i += 1;
    }
    assert(a@ =~= b@);
    true
}

/// Whether `name` is one of `names`.
pub fn is_listed(names: &[&str], name: &str) -> (found: bool)
    ensures
        found == str_views(names@).contains(name@),
{
    let mut i: usize = 0;
    while i < names.len()
        invariant
            i <= names.len(),
            forall|j: int| 0 <= j < i ==> str_views(names@)[j] != name@,
        decreases names.len() - i,
    {
        if same_text(names[i], name) {
            assert(str_views(names@)[i as int] == name@);
            return true;
        }
        i += 1;
    }
    false
}

/// Appends the items of a list to `out`, each one after a separator.
pub fn append_listed(out: &mut String, items: &Vec<String>)
    ensures
        final(out)@ == old(out)@ + listed(string_views(items@)),
{
    let mut i: usize = 0;
    while i < items.len()
        invariant
            i <= items.len(),
            out@ == old(out)@ + listed(string_views(items@).take(i as int)),
        decreases items.len() - i,
    {
        out.append(SEPARATOR);
        out.append(items[i].as_str());
        proof {
            let all = string_views(items@);
            assert(all.take(i + 1).drop_last() =~= all.take(i as int));
            assert(all.take(i + 1).last() == items@[i as int]@);
            assert(out@ =~= old(out)@ + listed(all.take(i + 1)));
        }
        i += 1;
    }
    assert(string_views(items@).take(items.len() as int) =~= string_views(items@));
}

} // verus!
