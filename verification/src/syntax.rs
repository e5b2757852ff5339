//! The syntax of header names and header values.
//!
//! A header name is a nonempty ASCII token: lowercase letters, digits and a
//! fixed set of punctuation characters, with uppercase ASCII letters accepted
//! and normalized to their lowercase forms.  A header value is text whose
//! characters are horizontal tabs or anything at or above the space character,
//! other than the ASCII delete character.

use vstd::prelude::*;

verus! {

/// The longest header name the underlying storage accepts, in bytes.
pub const MAX_NAME_LEN: usize = 65535;

/// Mutating entry points require the container to hold fewer values than
/// this, which keeps the underlying storage well below the capacity at which
/// its own insertion aborts.
pub const CAPACITY_GUARD: usize = 4096;

/// Characters allowed in a header name, before lowercase normalization.
pub open spec fn is_name_char(c: char) -> bool {
    ||| ('a' <= c && c <= 'z')
    ||| ('A' <= c && c <= 'Z')
    ||| ('0' <= c && c <= '9')
    ||| c == '!'
    ||| c == '"'
    ||| c == '#'
    ||| c == '$'
    ||| c == '%'
    ||| c == '&'
    ||| c == '\''
    ||| c == '*'
    ||| c == '+'
    ||| c == '-'
    ||| c == '.'
    ||| c == '^'
    ||| c == '_'
    ||| c == '`'
    ||| c == '|'
    ||| c == '~'
}

/// Characters allowed in a header value: tab, or any character at or above
/// space other than ASCII delete.
pub open spec fn is_value_char(c: char) -> bool {
    ||| c == '\t'
    ||| (c as u32 >= 32 && c as u32 != 127)
}

/// A well-formed header name: nonempty, within the storage's length bound,
/// made of name characters only.  Uppercase letters are allowed here; they
/// are normalized away by construction.
pub open spec fn valid_name_text(s: Seq<char>) -> bool {
    &&& s.len() >= 1
    &&& s.len() <= MAX_NAME_LEN
    &&& forall|i: int| 0 <= i < s.len() ==> is_name_char(#[trigger] s[i])
}

/// A well-formed header value: every character is a value character.
pub open spec fn valid_value_text(s: Seq<char>) -> bool {
    forall|i: int| 0 <= i < s.len() ==> is_value_char(#[trigger] s[i])
}

/// Characters the zero-copy static-value constructor accepts: tab, or
/// visible ASCII.  Stricter than `is_value_char`: no character above ASCII
/// tilde.
pub open spec fn is_visible_ascii_char(c: char) -> bool {
    ||| c == '\t'
    ||| (c as u32 >= 32 && (c as u32) < 127)
}

/// A text the zero-copy static-value constructor accepts.
pub open spec fn visible_ascii_text(s: Seq<char>) -> bool {
    forall|i: int| 0 <= i < s.len() ==> is_visible_ascii_char(#[trigger] s[i])
}

/// ASCII lowercase of one character.
pub open spec fn lower_char(c: char) -> char {
    if 'A' <= c && c <= 'Z' {
        ((c as u32) + 32) as char
    } else {
        c
    }
}

/// ASCII lowercase of a text.
pub open spec fn lower_seq(s: Seq<char>) -> Seq<char> {
    s.map_values(|c: char| lower_char(c))
}

/// The values stored under one key, in storage order, given the flat entry
/// sequence of a container.
pub open spec fn entries_for(entries: Seq<(Seq<char>, Seq<char>)>, key: Seq<char>) -> Seq<Seq<char>> {
    entries.filter(|e: (Seq<char>, Seq<char>)| e.0 == key).map_values(|e: (Seq<char>, Seq<char>)| e.1)
}

/// The first value stored under one key, if any.
pub open spec fn first_value_for(entries: Seq<(Seq<char>, Seq<char>)>, key: Seq<char>) -> Option<Seq<char>> {
    if entries_for(entries, key).len() > 0 {
        Some(entries_for(entries, key)[0])
    } else {
        None
    }
}

} // verus!
