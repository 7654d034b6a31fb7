//! Account settings and the rule that login names follow.
use vstd::prelude::*;
use vstd::string::StrSliceExecFns;

verus! {

/// The settings of the accounts service; none yet.
#[derive(Debug, Clone, Copy, PartialEq, Eq, Structural, Default)]
pub struct AccountsConfig {}

impl AccountsConfig {
    pub fn new() -> (r: AccountsConfig)
        ensures
            r == (AccountsConfig {}),
    {
        AccountsConfig {}
    }
}

/// The accounts service.
#[derive(Debug, Clone, Copy, PartialEq, Eq, Structural)]
pub struct Accounts {}

/// Why an account operation failed.
#[derive(Debug, Clone, PartialEq, Eq)]
pub enum AccountsError {
    /// The login name holds a character that names may not hold.
    InvalidLoginName(String),
    AccountAlreadyExists,
    InvalidLoginOrPassword,
    /// The store failed, for the reason given.
    DatabaseError(String),
}

/// Whether a character may stand in a login name: an ASCII letter or digit,
/// or an underscore.
pub open spec fn is_name_char(c: char) -> bool {
    ('a' <= c && c <= 'z') || ('A' <= c && c <= 'Z') || ('0' <= c && c <= '9') || c == '_'
}

/// Whether every character of `login` may stand in a login name.
pub open spec fn is_valid_login(login: Seq<char>) -> bool {
    forall|i: int| 0 <= i < login.len() ==> is_name_char(#[trigger] login[i])
}

impl Accounts {
    /// Accepts a login name made of ASCII letters, digits and underscores
    /// only; refuses any other, naming it.
    pub fn is_valid_name(login: &str) -> (r: Result<(), AccountsError>)
        ensures
            is_valid_login(login@) ==> r is Ok,
            !is_valid_login(login@) ==> (r matches Err(AccountsError::InvalidLoginName(name)) && name@ == login@),
    {
        let n = login.unicode_len();
        let mut i: usize = 0;
        while i < n
            invariant
                n == login@.len(),
                i <= n,
                forall|j: int| 0 <= j < i ==> is_name_char(#[trigger] login@[j]),
            decreases n - i,
        {
            let c = login.get_char(i);
            if !(('a' <= c && c <= 'z') || ('A' <= c && c <= 'Z') || ('0' <= c && c <= '9') || c == '_') {
                return Err(AccountsError::InvalidLoginName(login.to_owned()));
            }
            i += 1;
        }
        Ok(())
    }
}

} // verus!
