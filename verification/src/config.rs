//! The run configuration: which guide to synchronize, the credential for
//! the remote platform, and which spreadsheets to read. Gathering it from
//! the environment happens outside the verified core.

use vstd::prelude::*;

verus! {

/// Configuration of one synchronization run.
pub struct Config {
    /// The remote guide all entities belong to.
    pub guide_id: u32,
    /// The remote platform credential.
    pub api_key: String,
    /// The custom list holding the presenters.
    pub presenter_custom_list_id: u32,
    pub spreadsheet_id_sessions: String,
    pub spreadsheet_id_presenter_institutions: String,
    pub spreadsheet_id_strands: String,
}

} // verus!
