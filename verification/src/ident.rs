//! Validation of user-supplied identifiers.
//!
//! Share and disk tags, and the user name sent to the tap daemon, are
//! pasted into argv for external tools and into file names. They are
//! therefore restricted to ASCII letters, digits, `.`, `_` and `-`:
//! no whitespace, no slash, no shell metacharacters.

use vstd::prelude::*;
use vstd::string::StrSliceExecFns;
use vstd::string::StringExecFns;

verus! {

/// A character allowed in an identifier: an ASCII letter, an ASCII digit,
/// `.`, `_` or `-`.
pub open spec fn is_ident_char(c: char) -> bool {
    ('a' <= c && c <= 'z') || ('A' <= c && c <= 'Z') || ('0' <= c && c <= '9')
        || c == '.' || c == '_' || c == '-'
}

/// A valid identifier is a non-empty string of identifier characters.
pub open spec fn is_valid_identifier(s: Seq<char>) -> bool {
    s.len() > 0 && forall|i: int| 0 <= i < s.len() ==> is_ident_char(s[i])
}

/// The rejected name, kept so the error message can quote it.
#[derive(Debug)]
pub struct IdentifierValidationError(pub String);

/// Accepts exactly the valid identifiers and hands the name back; every
/// other string is rejected, carried inside the error.
pub fn check_is_valid_identifier(name: String) -> (r: Result<
    String,
    IdentifierValidationError,
>)
    ensures
        r is Ok <==> is_valid_identifier(name@),
        r matches Ok(n) ==> n == name,
        r matches Err(e) ==> e.0 == name,
{
    let len = name.as_str().unicode_len();
    if len == 0 {
        return Err(IdentifierValidationError(name));
    }
    let mut i: usize = 0;
    while i < len
        invariant
            len == name@.len(),
            i <= len,
            forall|j: int| 0 <= j < i ==> is_ident_char(name@[j]),
        decreases len - i,
    {
        let c = name.as_str().get_char(i);
        let ok = ('a' <= c && c <= 'z') || ('A' <= c && c <= 'Z')
            || ('0' <= c && c <= '9') || c == '.' || c == '_' || c == '-';
        if !ok {
            return Err(IdentifierValidationError(name));
        }
        i = i + 1;
    }
    Ok(name)
}

impl IdentifierValidationError {
    /// The one-line description: the rejected name in quotes, and the
    /// accepted character set.
    pub open spec fn spec_message(&self) -> Seq<char> {
        "\""@ + self.0@ + "\" is not a valid identifier, should match ^[a-zA-Z0-9._-]+$"@
    }

    /// The rejected name.
    pub fn name(&self) -> (r: &String)
        ensures
            r == self.0,
    {
        &self.0
    }

    /// A one-line description quoting the rejected name and the accepted
    /// character set.
    pub fn message(&self) -> (m: String)
        ensures
            m@ == self.spec_message(),
    {
        let mut m = String::new();
        m.append("\"");
        m.append(self.0.as_str());
        m.append("\" is not a valid identifier, should match ^[a-zA-Z0-9._-]+$");
        m
    }
}

} // verus!
