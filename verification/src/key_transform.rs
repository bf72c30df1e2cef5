//! The key transform: from a record's field name to the key the parameter store knows it by.

use vstd::prelude::*;

verus! {

/// The separator between the words of a field name.
pub const FIELD_SEPARATOR: char = '_';

/// The separator between the words of a store key.
pub const KEY_SEPARATOR: char = '-';

/// What one character of a field name becomes in the store key.
pub open spec fn kebab_char(c: char) -> char {
    if c == FIELD_SEPARATOR {
        KEY_SEPARATOR
    } else {
        c
    }
}

/// The store key of a field name: the same text, every field separator replaced by the key
/// separator, every other character left where it is.
pub open spec fn kebab(name: Seq<char>) -> Seq<char> {
    Seq::new(name.len(), |i: int| kebab_char(name[i]))
}

/// The standard library's `String::push`.
///
/// Trusted: it appends the given character to the end of the string and changes nothing else.
pub assume_specification[ String::push ](s: &mut String, ch: char)
    ensures
        final(s)@ == old(s)@.push(ch),
;

/// Maps a field name to its store key.
pub fn snake_case_to_kebab_case(s: &str) -> (key: String)
    ensures
        key@ == kebab(s@),
        key@.len() == s@.len(),
        forall|i: int|
            0 <= i < s@.len() ==> #[trigger] key@[i] == (if s@[i] == FIELD_SEPARATOR {
                KEY_SEPARATOR
            } else {
                s@[i]
            }),
{
    let mut key = String::new();
    let chars = s.chars();
    for c in it: chars
        invariant
            it.seq() == s@,
            key@ == kebab(s@.take(it.index())),
    {
        if c == FIELD_SEPARATOR {
            key.push(KEY_SEPARATOR);
        } else {
            key.push(c);
        }
        assert(key@ =~= kebab(s@.take(it.index() + 1)));
    }
    assert(s@.take(s@.len() as int) =~= s@);
    key
}

/// Transforming a key again changes nothing: a key is as long as the name it came from and
/// holds no field separator.
pub proof fn law_kebab_idempotent(name: Seq<char>)
    ensures
        kebab(kebab(name)) == kebab(name),
        kebab(name).len() == name.len(),
        forall|i: int| 0 <= i < name.len() ==> #[trigger] kebab(name)[i] != FIELD_SEPARATOR,
{
    assert(kebab(kebab(name)) =~= kebab(name));
}

/// A name without a field separator is its own key.
pub proof fn law_kebab_keeps_separator_free_names(name: Seq<char>)
    requires
        forall|i: int| 0 <= i < name.len() ==> #[trigger] name[i] != FIELD_SEPARATOR,
    ensures
        kebab(name) == name,
{
    assert(kebab(name) =~= name);
}

} // verus!
