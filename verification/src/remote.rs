//! The remote repository: where its resources are and how they are fetched.

use vstd::prelude::*;

verus! {

/// The time after which a request is given up, in seconds.
pub const FETCH_TIMEOUT_SECS: u64 = 60;

/// The size of the chunks in which a body is read, in bytes.
pub const CHUNK_SIZE: usize = 0x4000;

/// The address of the catalogue of all map packs.
pub fn database_url() -> (r: String)
    ensures
        r@ == "https://www.quaddicted.com/reviews/quaddicted_database.xml"@,
{
    "https://www.quaddicted.com/reviews/quaddicted_database.xml".to_owned()
}

/// The name of the file in which the catalogue is kept.
pub fn database_file_name() -> (r: String)
    ensures
        r@ == "database.xml"@,
{
    "database.xml".to_owned()
}

} // verus!
