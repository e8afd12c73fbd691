use vstd::prelude::*;

verus! {

/// The longest password, in bytes, that can be blinded: its length is
/// written into the oblivious function's input on two bytes.
pub const MAX_PASSWORD_LEN: usize = 65535;

/// The passwords that an exchange accepts: not empty, and no longer than
/// `MAX_PASSWORD_LEN` bytes.
pub open spec fn usable(password: &str) -> bool {
    0 < password.len() <= MAX_PASSWORD_LEN
}

/// Whether an exchange accepts this password.
pub fn is_usable(password: &str) -> (ok: bool)
    ensures
        ok == usable(password),
{
    let n: usize = password.len();
    0 < n && n <= MAX_PASSWORD_LEN
}

} // verus!
