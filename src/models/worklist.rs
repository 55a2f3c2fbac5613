use vstd::prelude::*;

verus! {

/// Where the worklist server is and how both ends are named: the server address
/// (`host:port`), the calling (local) and called (remote) application entity titles.
pub struct WorklistSettingReq {
    pub port: String,
    pub calling_ae_title: String,
    pub called_ae_title: String,
}

} // verus!
