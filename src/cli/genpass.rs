//! Options of the password command.
use vstd::prelude::*;

use crate::genpass::{genpass_fails, is_password, process_genpass, PasswordError};

verus! {

/// Generates a random password.
#[derive(Debug, Clone)]
pub struct GenPassOpts {
    pub length: u8,
    pub no_uppercase: bool,
    pub no_lowercase: bool,
    pub no_number: bool,
    pub no_symbol: bool,
}

/// Relies on `zxcvbn::zxcvbn` (version 2) with no user inputs, and `Entropy::score`:
/// a blank password is an error, as is a failure to read the clock; otherwise a
/// score from 0 to 4. The score also depends on the current year, which zxcvbn
/// reads from the clock, so nothing more is promised of it.
#[verifier::external_body]
fn strength_score(password: &str) -> (r: Option<u8>)
    ensures
        password@.len() == 0 ==> r is None,
        r matches Some(s) ==> s <= 4,
{
    match zxcvbn::zxcvbn(password, &[]) {
        Ok(entropy) => Some(entropy.score()),
        Err(_) => None,
    }
}

impl GenPassOpts {
    /// A password as these options ask, with its strength score where one could be
    /// computed.
    pub fn generate(&self) -> (r: Result<(String, Option<u8>), PasswordError>)
        ensures
            r is Err <==> genpass_fails(
                self.length as nat,
                self.no_uppercase,
                self.no_lowercase,
                self.no_number,
                self.no_symbol,
            ),
            r matches Ok((p, s)) ==> is_password(
                p@,
                self.length as nat,
                self.no_uppercase,
                self.no_lowercase,
                self.no_number,
                self.no_symbol,
            ),
            r matches Ok((p, s)) ==> (s matches Some(x) ==> x <= 4),
            r matches Ok((p, s)) ==> (p@.len() == 0 ==> s is None),
    {
        let password = process_genpass(
            self.length,
            self.no_uppercase,
            self.no_lowercase,
            self.no_number,
            self.no_symbol,
        )?;
        let score = strength_score(password.as_str());
        Ok((password, score))
    }
}

} // verus!
