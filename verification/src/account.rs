//! NEAR account identifiers, modelled as validated strings.
//!
//! An account identifier is a string of 2 to 64 characters drawn from
//! lowercase ASCII letters, digits and the separators `-`, `_` and `.`,
//! where no separator stands first or last and no two separators are
//! adjacent. Validation itself is delegated to the `near-sdk` crate; the
//! rule it enforces is restated here as a spec function, so that everything
//! built on top of a parsed identifier is verified against it.

use vstd::prelude::*;

verus! {

/// A separator character inside an account identifier.
pub open spec fn is_separator_char(c: char) -> bool {
    c == '-' || c == '_' || c == '.'
}

/// A character allowed anywhere in an account identifier.
pub open spec fn is_account_char(c: char) -> bool {
    ('a' <= c && c <= 'z') || ('0' <= c && c <= '9') || is_separator_char(c)
}

/// From position `i` on, every character is allowed and no separator stands
/// where the previous character was one. `prev_is_separator` starts out true
/// at position 0, which also rules out a leading separator; past the end it
/// demands that the last character was not a separator.
pub open spec fn separators_well_placed_from(s: Seq<char>, i: int, prev_is_separator: bool) -> bool
    decreases s.len() - i,
{
    if i < 0 || i >= s.len() {
        !prev_is_separator
    } else {
        &&& is_account_char(s[i])
        &&& !(is_separator_char(s[i]) && prev_is_separator)
        &&& separators_well_placed_from(s, i + 1, is_separator_char(s[i]))
    }
}

/// The NEAR account-identifier format: bounded length, restricted alphabet,
/// disciplined separators.
pub open spec fn account_id_valid(s: Seq<char>) -> bool {
    &&& 2 <= s.len() <= 64
    &&& separators_well_placed_from(s, 0, true)
}

/// Relies on `near_sdk::AccountId::validate` (crate `near-account-id`): it
/// accepts exactly the strings of 2 to 64 characters over `a-z`, `0-9`, `-`,
/// `_`, `.` with no separator first, last or doubled. It bounds the length in
/// bytes, but a string whose byte and character counts differ holds a
/// non-ASCII character and is rejected by the alphabet check either way, so
/// the character-level statement below is equivalent.
#[verifier::external_body]
fn near_account_id_ok(s: &str) -> (r: bool)
    ensures
        r == account_id_valid(s@),
{
    near_sdk::AccountId::validate(s).is_ok()
}

/// A validated account identifier. The only way to obtain one is
/// [`AccountId::parse`], so every value of this type satisfies
/// [`AccountId::wf`].
pub struct AccountId {
    id: String,
}

impl View for AccountId {
    type V = Seq<char>;

    closed spec fn view(&self) -> Seq<char> {
        self.id@
    }
}

impl Clone for AccountId {
    fn clone(&self) -> (r: Self)
        ensures
            r@ == self@,
    {
        AccountId { id: self.id.clone() }
    }
}

impl AccountId {
    /// The identifier is a well-formed NEAR account identifier.
    pub open spec fn wf(&self) -> bool {
        account_id_valid(self@)
    }

    /// Parse a string into an account identifier; `None` exactly on strings
    /// that are not valid account identifiers.
    pub fn parse(s: &str) -> (r: Option<AccountId>)
        ensures
            r is Some <==> account_id_valid(s@),
            r matches Some(a) ==> a@ == s@ && a.wf(),
    {
        if near_account_id_ok(s) {
            Some(AccountId { id: s.to_owned() })
        } else {
            None
        }
    }

    /// The identifier's characters.
    pub fn as_str(&self) -> (r: &str)
        ensures
            r@ == self@,
    {
        self.id.as_str()
    }
}

} // verus!
