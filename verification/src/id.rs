//! Identifiers of hosts, actors and providers: public keys in text form.
//!
//! A key is 56 characters long and opens with the letter of what it names:
//! `N` for a host, `M` for an actor, `V` for a provider.

use vstd::prelude::*;
use vstd::string::*;
use crate::text::join2;

verus! {

/// What an identifier names.
#[derive(Debug, Clone, Copy, PartialEq, Eq, Structural)]
pub enum IdKind {
    Host,
    Actor,
    Provider,
}

/// The number of characters of a public key in text form.
pub const KEY_LENGTH: usize = 56;

/// The letter that opens the key of a kind.
pub open spec fn prefix_of(kind: IdKind) -> char {
    match kind {
        IdKind::Host => 'N',
        IdKind::Actor => 'M',
        IdKind::Provider => 'V',
    }
}

/// The text has the shape of a key of the kind.
pub open spec fn key_shaped(kind: IdKind, s: Seq<char>) -> bool {
    s.len() == KEY_LENGTH && s[0] == prefix_of(kind)
}

/// Why a text is no identifier.
#[derive(Debug, Clone, PartialEq, Eq)]
pub enum IdError {
    /// The text of `field` does not have the length of a key.
    WrongLength { field: String, found: usize },
    /// The text of `field` has the length of a key but opens with a letter
    /// other than that of its kind.
    WrongPrefix { field: String, kind: IdKind },
}

/// What an [`IdError`] stands for in contracts, with texts as sequences of
/// characters.
pub enum IdErrorView {
    WrongLength { field: Seq<char>, found: usize },
    WrongPrefix { field: Seq<char>, kind: IdKind },
}

impl View for IdError {
    type V = IdErrorView;

    open spec fn view(&self) -> IdErrorView {
        match *self {
            IdError::WrongLength { field, found } => IdErrorView::WrongLength {
                field: field@,
                found,
            },
            IdError::WrongPrefix { field, kind } => IdErrorView::WrongPrefix { field: field@, kind },
        }
    }
}

/// An identifier or the reason why there is none, by view.
pub open spec fn id_view(r: Result<String, IdError>) -> Result<Seq<char>, IdErrorView> {
    match r {
        Ok(id) => Ok(id@),
        Err(e) => Err(e@),
    }
}

/// What the text given for `field` comes to as an identifier of the kind: the
/// text itself where it has the shape of a key; else what is wrong with it,
/// its length first and its first letter next.
pub open spec fn checked(kind: IdKind, field: Seq<char>, value: Seq<char>) -> Result<
    Seq<char>,
    IdErrorView,
> {
    if value.len() != KEY_LENGTH {
        Err(IdErrorView::WrongLength { field, found: value.len() as usize })
    } else if value[0] != prefix_of(kind) {
        Err(IdErrorView::WrongPrefix { field, kind })
    } else {
        Ok(value)
    }
}

/// The description of an identifier error for the user; it names the field.
pub open spec fn error_text(e: IdErrorView) -> Seq<char> {
    match e {
        IdErrorView::WrongLength { field, .. } => field + ": a key has 56 characters"@,
        IdErrorView::WrongPrefix { field, kind } => match kind {
            IdKind::Host => field + ": the key of a host starts with N"@,
            IdKind::Actor => field + ": the key of an actor starts with M"@,
            IdKind::Provider => field + ": the key of a provider starts with V"@,
        },
    }
}

impl IdError {
    /// The description of this error for the user; it names the field.
    pub fn message(&self) -> (m: String)
        ensures
            m@ == error_text(self@),
    {
        match self {
            IdError::WrongLength { field, .. } => join2(field.as_str(), ": a key has 56 characters"),
            IdError::WrongPrefix { field, kind } => match kind {
                IdKind::Host => join2(field.as_str(), ": the key of a host starts with N"),
                IdKind::Actor => join2(field.as_str(), ": the key of an actor starts with M"),
                IdKind::Provider => join2(field.as_str(), ": the key of a provider starts with V"),
            },
        }
    }
}

/// A text is taken as an identifier exactly where it has the shape of a key.
pub proof fn taken_iff_key_shaped(kind: IdKind, field: Seq<char>, value: Seq<char>)
    ensures
        checked(kind, field, value) is Ok <==> key_shaped(kind, value),
        key_shaped(kind, value) ==> checked(kind, field, value) == Ok::<Seq<char>, IdErrorView>(
            value,
        ),
{
}

/// The letter that opens the key of a kind.
pub fn prefix(kind: IdKind) -> (c: char)
    ensures
        c == prefix_of(kind),
{
    match kind {
        IdKind::Host => 'N',
        IdKind::Actor => 'M',
        IdKind::Provider => 'V',
    }
}

/// Reads the identifier that was given for `field`. A text of the shape of a
/// key of the kind is taken as it is; any other is turned down with the name
/// of the field, for its length first and for its first letter next.
pub fn parse_id(kind: IdKind, field: &str, value: &str) -> (r: Result<String, IdError>)
    ensures
        id_view(r) == checked(kind, field@, value@),
{
    let n = value.unicode_len();
    if n != KEY_LENGTH {
        Err(IdError::WrongLength { field: String::from_str(field), found: n })
    } else if value.get_char(0) == prefix(kind) {
        Ok(String::from_str(value))
    } else {
        Err(IdError::WrongPrefix { field: String::from_str(field), kind })
    }
}

} // verus!
