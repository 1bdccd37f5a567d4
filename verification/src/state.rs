//! What the handlers share: the settings of the service and its data.

use vstd::prelude::*;
use crate::keys::UserDirectory;
use crate::store::RecordStore;

verus! {

/// The settings of the service.
#[derive(Debug)]
pub struct Config {
    pub database_url: String,
    pub jwt_secret: String,
    /// How long an identity token holds, in seconds.
    pub jwt_maxage: i64,
    pub port: u16,
    /// The largest payload an upload may carry, in bytes.
    pub max_file_size: usize,
    /// Whether a shared file may be retrieved only once.
    pub single_retrieval: bool,
}

/// The data of the service: its users and its shared files.
#[derive(Debug)]
pub struct DBClient {
    pub users: UserDirectory,
    pub files: RecordStore,
}

impl DBClient {
    /// A client over no users and no files.
    pub fn new() -> (client: DBClient)
        ensures
            client.users@.len() == 0,
            client.files@.len() == 0,
            client.files.wf(),
    {
        DBClient { users: UserDirectory::new(), files: RecordStore::new() }
    }
}

/// The state that every handler works on.
#[derive(Debug)]
pub struct AppState {
    pub env: Config,
    pub db_client: DBClient,
}

impl AppState {
    /// The state's data is consistent.
    pub open spec fn wf(&self) -> bool {
        self.db_client.files.wf()
    }

    /// The state of a service that starts with `env` and no data.
    pub fn new(env: Config) -> (state: AppState)
        ensures
            state.wf(),
            state.env == env,
            state.db_client.users@.len() == 0,
            state.db_client.files@.len() == 0,
    {
        AppState { env, db_client: DBClient::new() }
    }
}

} // verus!
