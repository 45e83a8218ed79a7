//! Parse-validated identifiers used as routing and ownership keys.
//!
//! Construction goes through `from_str` alone, so that every value of these
//! types satisfies its validity predicate before any downstream component
//! (routing, authorization, persistence) sees it.

use vstd::prelude::*;

use crate::error::Error;
use crate::error::ErrorKind;

verus! {

/// Whether `c` may appear in a project name: an ASCII letter, an ASCII
/// digit, `-` or `_`.
pub open spec fn is_name_char(c: char) -> bool {
    ('a' as u32 <= c as u32 && c as u32 <= 'z' as u32) || ('A' as u32 <= c as u32 && c as u32
        <= 'Z' as u32) || ('0' as u32 <= c as u32 && c as u32 <= '9' as u32) || c == '-' || c == '_'
}

/// A valid project name: between 3 and 64 characters, all of them name
/// characters.
pub open spec fn valid_project_name(s: Seq<char>) -> bool {
    3 <= s.len() <= 64 && (forall|i: int| 0 <= i < s.len() ==> is_name_char(s[i]))
}

/// A validated project name, used as a stable routing and ownership key.
#[derive(Debug, Clone, PartialEq, Eq)]
pub struct ProjectName(pub String);

impl ProjectName {
    /// The sole constructor: succeeds exactly on valid project names and
    /// stores the input unchanged, so the name round-trips to the original
    /// string. Every rejection carries `InvalidProjectName`.
    pub fn from_str(s: &str) -> (r: Result<ProjectName, Error>)
        ensures
            r is Ok <==> valid_project_name(s@),
            r matches Ok(p) ==> p.0@ == s@,
            r matches Err(e) ==> e.kind_spec() == ErrorKind::InvalidProjectName
                && e.cause_spec() is None,
    {
        let n = s.unicode_len();
        if n < 3 || n > 64 {
            return Err(Error::from_kind(ErrorKind::InvalidProjectName));
        }
        let mut i: usize = 0;
        while i < n
            invariant
                i <= n,
                n == s@.len(),
                3 <= n <= 64,
                forall|j: int| 0 <= j < i ==> is_name_char(s@[j]),
            decreases n - i,
        {
            if !name_char(s.get_char(i)) {
                return Err(Error::from_kind(ErrorKind::InvalidProjectName));
            }
            i += 1;
        }
        Ok(ProjectName(s.to_owned()))
    }

    pub fn as_str(&self) -> (r: &str)
        ensures
            r@ == self.0@,
    {
        self.0.as_str()
    }
}

fn name_char(c: char) -> (r: bool)
    ensures
        r == is_name_char(c),
{
    let u = c as u32;
    (97 <= u && u <= 122) || (65 <= u && u <= 90) || (48 <= u && u <= 57) || c == '-' || c == '_'
}

/// A validated account name: the owning-identity key for projects. The
/// current rule accepts any non-empty string; stricter rules are reserved.
#[derive(Debug, Clone, PartialEq, Eq)]
pub struct AccountName(pub String);

impl AccountName {
    /// The sole constructor: succeeds exactly on non-empty strings and
    /// stores the input unchanged.
    pub fn from_str(s: &str) -> (r: Result<AccountName, Error>)
        ensures
            r is Ok <==> s@.len() > 0,
            r matches Ok(a) ==> a.0@ == s@,
            r matches Err(e) ==> e.kind_spec() == ErrorKind::InvalidProjectName
                && e.cause_spec() is None,
    {
        if s.is_empty() {
            Err(Error::from_kind(ErrorKind::InvalidProjectName))
        } else {
            Ok(AccountName(s.to_owned()))
        }
    }

    pub fn as_str(&self) -> (r: &str)
        ensures
            r@ == self.0@,
    {
        self.0.as_str()
    }
}

} // verus!
