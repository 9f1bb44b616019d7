//! Record identifiers.
//!
//! A client may choose an identifier; it is then kept as given. Where the
//! client chooses none, a random 128-bit identifier is drawn and written in
//! its canonical form: 32 lower-case hexadecimal digits in groups of
//! 8, 4, 4, 4 and 12, separated by hyphens.

use vstd::prelude::*;
use vstd::string::StrSliceExecFns;

verus! {

/// Length of a canonical identifier, hyphens included.
pub const CANONICAL_LEN: usize = 36;

pub open spec fn is_lower_hex(c: char) -> bool {
    ('0' <= c && c <= '9') || ('a' <= c && c <= 'f')
}

pub open spec fn is_hyphen_position(i: int) -> bool {
    i == 8 || i == 13 || i == 18 || i == 23
}

/// What a canonical identifier holds at position `i`.
pub open spec fn canonical_at(s: Seq<char>, i: int) -> bool {
    if is_hyphen_position(i) {
        s[i] == '-'
    } else {
        is_lower_hex(s[i])
    }
}

/// The canonical hyphenated form of a 128-bit identifier.
pub open spec fn is_canonical_identifier(s: Seq<char>) -> bool {
    &&& s.len() == 36
    &&& forall|i: int| 0 <= i < 36 ==> #[trigger] canonical_at(s, i)
}

/// Whether the client left the choice of identifier to the service.
pub open spec fn lacks_identifier(supplied: Option<Seq<char>>) -> bool {
    match supplied {
        Some(s) => s.len() == 0,
        None => true,
    }
}

/// The text of an optional string.
pub open spec fn option_text(s: Option<String>) -> Option<Seq<char>> {
    match s {
        Some(t) => Some(t@),
        None => None,
    }
}

/// Calls `uuid::Uuid::new_v4` and writes the identifier with `to_string`.
///
/// Trusted: the text is the canonical hyphenated lower-case form, which is
/// how `Uuid` displays itself. The identifier is random, so nothing else is
/// claimed, and two calls need not agree.
#[verifier::external_body]
pub(crate) fn fresh_identifier() -> (id: String)
    ensures
        is_canonical_identifier(id@),
{
    uuid::Uuid::new_v4().to_string()
}

fn lower_hex(c: char) -> (r: bool)
    ensures
        r == is_lower_hex(c),
{
    ('0' <= c && c <= '9') || ('a' <= c && c <= 'f')
}

/// Decides whether a text is an identifier in canonical form.
pub fn is_canonical(text: &str) -> (r: bool)
    ensures
        r == is_canonical_identifier(text@),
{
    if text.unicode_len() != CANONICAL_LEN {
        return false;
    }
    let mut i: usize = 0;
    while i < CANONICAL_LEN
        invariant
            i <= 36,
            text@.len() == 36,
            forall|j: int| 0 <= j < i ==> #[trigger] canonical_at(text@, j),
        decreases 36 - i,
    {
        let c = text.get_char(i);
        let ok = if i == 8 || i == 13 || i == 18 || i == 23 {
            c == '-'
        } else {
            lower_hex(c)
        };
        if !ok {
            assert(!canonical_at(text@, i as int));
            return false;
        }
        i = i + 1;
    }
    true
}

/// Settles the identifier of a new record.
///
/// A non-empty identifier from the client is returned as it is. Otherwise
/// a random one is drawn, of which only the form is known.
pub fn resolve_identifier(supplied: Option<String>) -> (id: String)
    ensures
        !lacks_identifier(option_text(supplied)) ==> Some(id@) == option_text(supplied),
        lacks_identifier(option_text(supplied)) ==> is_canonical_identifier(id@),
        id@.len() > 0,
{
    match supplied {
        Some(s) => {
            if s.as_str().is_empty() {
                fresh_identifier()
            } else {
                s
            }
        },
        None => fresh_identifier(),
    }
}

/// A canonical identifier is never empty, so an assigned identifier is
/// never taken for a missing one.
pub proof fn canonical_is_not_empty(s: Seq<char>)
    requires
        is_canonical_identifier(s),
    ensures
        s.len() == 36,
        !lacks_identifier(Some(s)),
{
}

} // verus!
