use vstd::prelude::*;
use vstd::string::*;

verus! {

/// The database password, written into the source on purpose.
pub const DB_PASSWORD: &'static str = "S3cr3tPassw0rd!!";

/// What precedes the password in the connection message.
pub const CONNECT_PREFIX: &'static str = "Connecting to DB with password: ";

/// The connection message: the prefix followed by the password, unmasked.
pub fn credential_message() -> (r: String)
    ensures
        r@ == CONNECT_PREFIX@ + DB_PASSWORD@,
        r@.subrange(CONNECT_PREFIX@.len() as int, r@.len() as int) == DB_PASSWORD@,
{
    let mut msg = String::from_str(CONNECT_PREFIX);
    msg.append(DB_PASSWORD);
    proof {
        assert(msg@.subrange(CONNECT_PREFIX@.len() as int, msg@.len() as int) =~= DB_PASSWORD@);
    }
    msg
}

} // verus!
