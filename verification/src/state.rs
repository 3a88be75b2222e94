//! What the server keeps in memory.

use std::collections::HashMap;
use vstd::hash_map::StringHashMap;
use vstd::prelude::*;

use crate::auth::two_fa::OtpEntry;
use crate::room::socket::{Connection, Session};

verus! {

/// Open sockets by connection id, sessions by session id, logins that wait for
/// their code by temporary session id, and codes by user id.
pub struct AppState {
    pub connections: HashMap<u128, Connection>,
    pub sessions: StringHashMap<Session>,
    pub temp_sessions: StringHashMap<Session>,
    pub otp_store: HashMap<u128, OtpEntry>,
}

/// The contents of an `AppState`.
#[verifier::ext_equal]
pub struct AppStateView {
    pub connections: Map<u128, Connection>,
    pub sessions: Map<Seq<char>, Session>,
    pub temp_sessions: Map<Seq<char>, Session>,
    pub otp_store: Map<u128, OtpEntry>,
}

impl View for AppState {
    type V = AppStateView;

    open spec fn view(&self) -> AppStateView {
        AppStateView {
            connections: self.connections@,
            sessions: self.sessions@,
            temp_sessions: self.temp_sessions@,
            otp_store: self.otp_store@,
        }
    }
}

impl AppStateView {
    /// The state of a server that has just started.
    pub open spec fn empty() -> AppStateView {
        AppStateView {
            connections: Map::empty(),
            sessions: Map::empty(),
            temp_sessions: Map::empty(),
            otp_store: Map::empty(),
        }
    }

    /// No code has been tried more often than the limit allows.
    pub open spec fn inv(self) -> bool {
        forall|user: u128| #[trigger]
            self.otp_store.contains_key(user) ==> self.otp_store[user].wf()
    }
}

impl AppState {
    /// The state of a server that has just started.
    pub fn new() -> (state: AppState)
        ensures
            state@ == AppStateView::empty(),
            state@.inv(),
    {
        AppState {
            connections: HashMap::new(),
            sessions: StringHashMap::new(),
            temp_sessions: StringHashMap::new(),
            otp_store: HashMap::new(),
        }
    }
}

} // verus!
