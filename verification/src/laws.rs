//! Laws of the container, stated over its entry view and proved once for all
//! inputs.

use vstd::prelude::*;

use crate::headers::{append_effect, insert_effect, remove_effect};
use crate::syntax::{
    entries_for, first_value_for, is_name_char, is_value_char, lower_seq, valid_name_text,
    valid_value_text,
};

verus! {

/// A key inserted under any ASCII-case spelling is retrievable under every
/// other spelling: after an insertion, a lookup whose lowercased probe equals
/// the stored key yields exactly the inserted value.
pub proof fn lemma_case_insensitive_retrieval(
    before: Seq<(Seq<char>, Seq<char>)>,
    after: Seq<(Seq<char>, Seq<char>)>,
    key: Seq<char>,
    value: Seq<char>,
    probe: Seq<char>,
)
    requires
        insert_effect(before, after, key, value),
        lower_seq(probe) == key,
    ensures
        first_value_for(after, lower_seq(probe)) == Some(value),
        entries_for(after, lower_seq(probe)) == seq![value],
{
    assert(entries_for(after, key) == seq![value]);
}

/// An insertion fully replaces prior values: whatever the key held before,
/// afterwards it holds exactly the one new value.
pub proof fn lemma_insert_replaces(
    before: Seq<(Seq<char>, Seq<char>)>,
    after: Seq<(Seq<char>, Seq<char>)>,
    key: Seq<char>,
    value: Seq<char>,
)
    requires
        insert_effect(before, after, key, value),
    ensures
        entries_for(after, key) == seq![value],
        first_value_for(after, key) == Some(value),
{
}

/// Appending preserves prior values in order: two successive appends leave
/// the key's values as they were, followed by the two new values in call
/// order, and touch no other key.
pub proof fn lemma_append_preserves_order(
    first: Seq<(Seq<char>, Seq<char>)>,
    second: Seq<(Seq<char>, Seq<char>)>,
    third: Seq<(Seq<char>, Seq<char>)>,
    key: Seq<char>,
    value1: Seq<char>,
    value2: Seq<char>,
)
    requires
        append_effect(first, second, key, value1),
        append_effect(second, third, key, value2),
    ensures
        entries_for(third, key) == entries_for(first, key).push(value1).push(value2),
        forall|k: Seq<char>| k != key ==> entries_for(third, k) == entries_for(first, k),
{
}

/// Removing an absent key returns nothing to remove and leaves the container
/// entirely unchanged, its count included.
pub proof fn lemma_remove_absent_is_noop(
    before: Seq<(Seq<char>, Seq<char>)>,
    after: Seq<(Seq<char>, Seq<char>)>,
    key: Seq<char>,
)
    requires
        remove_effect(before, after, key),
        entries_for(before, key).len() == 0,
    ensures
        after == before,
        after.len() == before.len(),
        first_value_for(before, key) is None,
{
}

/// A text containing a newline character is never a well-formed header
/// value, so every mutation rejects it.
pub proof fn lemma_newline_value_rejected(s: Seq<char>, i: int)
    requires
        0 <= i < s.len(),
        s[i] == '\n',
    ensures
        !valid_value_text(s),
{
    assert(!is_value_char('\n'));
}

/// A text containing any character beyond ASCII tilde, such as an emoji, is
/// never a well-formed header name, so name construction rejects it.
pub proof fn lemma_non_ascii_name_rejected(s: Seq<char>, i: int)
    requires
        0 <= i < s.len(),
        s[i] as u32 > 126,
    ensures
        !valid_name_text(s),
{
    assert(!is_name_char(s[i]));
}

} // verus!
