//! The literal locations that a run falls back on when the operator names none.

use vstd::prelude::*;

verus! {

/// Location of the store when none is given.
pub fn default_db_path() -> (path: String)
    ensures
        path@ == "../data/mine.db"@,
{
    "../data/mine.db".to_owned()
}

/// Endpoint of the ledger node when none is given.
pub fn default_rpc_url() -> (url: String)
    ensures
        url@ == "https://api.mainnet-beta.solana.com"@,
{
    "https://api.mainnet-beta.solana.com".to_owned()
}

/// Identifier file of the xalt collection when none is given.
pub fn default_xalt_mints_file() -> (path: String)
    ensures
        path@ == "../data/xalt-mints"@,
{
    "../data/xalt-mints".to_owned()
}

/// Identifier file of the xape collection when none is given.
pub fn default_xape_mints_file() -> (path: String)
    ensures
        path@ == "../data/xape-mints"@,
{
    "../data/xape-mints".to_owned()
}

/// Seconds after which a request to either network boundary is given up.
pub fn default_timeout_secs() -> (seconds: u64)
    ensures
        seconds == 30,
{
    30
}

} // verus!
