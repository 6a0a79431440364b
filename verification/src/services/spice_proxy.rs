//! Console sessions of the SPICE WebSocket proxy: which browser session may
//! reach which VM's SPICE port, and how long.
use vstd::prelude::*;

use crate::services::session_table::SessionTable;
use crate::text::{concat, decimal, push_decimal, push_str};
use crate::tokens::{hex_lower, random_hex};

verus! {

/// Configuration for the SPICE WebSocket proxy. Durations are in seconds.
#[derive(Debug)]
pub struct SpiceProxyConfig {
    pub bind_address: String,
    pub port_range: (u16, u16),
    pub max_connections: usize,
    pub connection_timeout_secs: u64,
    pub auth_timeout_secs: u64,
    pub enable_tls: bool,
}

impl SpiceProxyConfig {
    pub fn duplicate(&self) -> (r: Self)
        ensures
            r == *self,
    {
        SpiceProxyConfig {
            bind_address: self.bind_address.clone(),
            port_range: self.port_range,
            max_connections: self.max_connections,
            connection_timeout_secs: self.connection_timeout_secs,
            auth_timeout_secs: self.auth_timeout_secs,
            enable_tls: self.enable_tls,
        }
    }
}

impl Default for SpiceProxyConfig {
    fn default() -> (c: Self)
        ensures
            c.bind_address@ == "127.0.0.1"@,
            c.port_range == (6080u16, 6089u16),
            c.max_connections == 10,
            c.connection_timeout_secs == 30,
            c.auth_timeout_secs == 10,
            !c.enable_tls,
    {
        SpiceProxyConfig {
            bind_address: "127.0.0.1".to_owned(),
            port_range: (6080, 6089),
            max_connections: 10,
            connection_timeout_secs: 30,
            auth_timeout_secs: 10,
            enable_tls: false,
        }
    }
}

#[derive(Debug, Clone, PartialEq)]
pub enum ConnectionStatus {
    Authenticating,
    Connected,
    Disconnected,
    Error(String),
}

/// Information about an active SPICE console connection. `created_at` is in
/// nanoseconds since the Unix epoch.
#[derive(Debug, Clone, PartialEq)]
pub struct SpiceConnection {
    pub vm_id: String,
    pub spice_port: u16,
    pub websocket_port: u16,
    pub auth_token: String,
    pub created_at: u128,
    pub status: ConnectionStatus,
}

/// Console information returned to clients
#[derive(Debug, Clone, PartialEq)]
pub struct ConsoleInfo {
    pub websocket_url: String,
    pub auth_token: String,
    pub connection_id: String,
}

/// The id of a session: the VM id and the WebSocket port.
pub open spec fn connection_id(vm_id: Seq<char>, websocket_port: u16) -> Seq<char> {
    vm_id + ":"@ + decimal(websocket_port as nat)
}

/// The address a browser opens a session's WebSocket at.
pub open spec fn websocket_url(bind_address: Seq<char>, websocket_port: u16) -> Seq<char> {
    "ws://"@ + bind_address + ":"@ + decimal(websocket_port as nat)
}

/// The text the web server reports for a session status.
pub open spec fn status_text(s: ConnectionStatus) -> Seq<char> {
    match s {
        ConnectionStatus::Authenticating => "authenticating"@,
        ConnectionStatus::Connected => "connected"@,
        ConnectionStatus::Disconnected => "disconnected"@,
        ConnectionStatus::Error(e) => "error: "@ + e@,
    }
}

/// A session has outlived the timeout at time `now` (all in nanoseconds
/// but the timeout, in seconds); a session created after `now` has not.
pub open spec fn expired(created_at: u128, now: u128, timeout_secs: u64) -> bool {
    now >= created_at && now - created_at > timeout_secs * 1_000_000_000
}

impl ConnectionStatus {
    pub fn duplicate(&self) -> (r: Self)
        ensures
            r == *self,
    {
        match self {
            ConnectionStatus::Authenticating => ConnectionStatus::Authenticating,
            ConnectionStatus::Connected => ConnectionStatus::Connected,
            ConnectionStatus::Disconnected => ConnectionStatus::Disconnected,
            ConnectionStatus::Error(e) => ConnectionStatus::Error(e.clone()),
        }
    }

    /// The text the web server reports for the status.
    pub fn text(&self) -> (r: String)
        ensures
            r@ == status_text(*self),
    {
        match self {
            ConnectionStatus::Authenticating => "authenticating".to_owned(),
            ConnectionStatus::Connected => "connected".to_owned(),
            ConnectionStatus::Disconnected => "disconnected".to_owned(),
            ConnectionStatus::Error(e) => crate::text::concat("error: ", e.as_str()),
        }
    }
}

impl SpiceConnection {
    pub fn duplicate(&self) -> (r: Self)
        ensures
            r == *self,
    {
        SpiceConnection {
            vm_id: self.vm_id.clone(),
            spice_port: self.spice_port,
            websocket_port: self.websocket_port,
            auth_token: self.auth_token.clone(),
            created_at: self.created_at,
            status: self.status.duplicate(),
        }
    }

    /// The id of the session.
    pub fn id(&self) -> (r: String)
        ensures
            r@ == connection_id(self.vm_id@, self.websocket_port),
    {
        let mut r = String::new();
        push_str(&mut r, self.vm_id.as_str());
        push_str(&mut r, ":");
        push_decimal(&mut r, self.websocket_port as u64);
        r
    }
}

/// The first message a browser sends on a console WebSocket, or what
/// came instead.
#[derive(Debug, Clone, PartialEq)]
pub enum FirstMessage {
    Text(String),
    /// A message that is not text.
    Other,
    /// The connection closed before a message came.
    Closed,
    /// The WebSocket reported an error.
    Failed(String),
    /// Nothing came within the authentication timeout.
    TimedOut,
}

/// What a proxy does with a browser after its first message.
#[derive(Debug, Clone, PartialEq)]
pub enum Handshake {
    /// Send `reply` (when there is one) and end the connection with
    /// `error`.
    Refuse { reply: Option<String>, error: String },
    /// Send `reply`, then relay between the browser and the console
    /// server at `server_address` for the session `connection_id`.
    Accept { reply: String, connection_id: String, server_address: String },
}

/// SPICE WebSocket proxy service: the configuration and the open sessions.
pub struct SpiceProxyService {
    config: SpiceProxyConfig,
    connections: SessionTable<SpiceConnection>,
}

impl SpiceProxyService {
    pub closed spec fn sessions(&self) -> SessionTable<SpiceConnection> {
        self.connections
    }

    pub closed spec fn settings(&self) -> SpiceProxyConfig {
        self.config
    }

    /// The sessions are well formed.
    pub open spec fn wf(&self) -> bool {
        self.sessions().wf()
    }

    pub fn new(config: SpiceProxyConfig) -> (s: Self)
        ensures
            s.wf(),
            s.settings() == config,
            s.sessions().len_spec() == 0,
            forall|k: Seq<char>| #[trigger] s.sessions().lookup(k).is_none(),
    {
        SpiceProxyService { config, connections: SessionTable::new() }
    }

    pub fn config(&self) -> (r: &SpiceProxyConfig)
        ensures
            *r == self.settings(),
    {
        &self.config
    }

    /// The ports a WebSocket listener may take, in order.
    pub fn port_candidates(&self) -> (r: Vec<u16>)
        ensures
            r@.len() == if self.settings().port_range.0 <= self.settings().port_range.1 {
                self.settings().port_range.1 - self.settings().port_range.0 + 1
            } else {
                0
            },
            forall|i: int| 0 <= i < r@.len() ==> r@[i] == self.settings().port_range.0 + i,
    {
        let (lo, hi) = self.config.port_range;
        let mut r: Vec<u16> = Vec::new();
        if lo > hi {
            return r;
        }
        let mut p = lo;
        loop
            invariant_except_break
                r@.len() == p - lo,
            invariant
                lo <= p <= hi,
                (lo, hi) == self.settings().port_range,
                forall|i: int| 0 <= i < r@.len() ==> r@[i] == lo + i,
            ensures
                r@.len() == hi - lo + 1,
                forall|i: int| 0 <= i < r@.len() ==> r@[i] == lo + i,
            decreases hi - p,
        {
            r.push(p);
            if p == hi {
                break;
            }
            p = p + 1;
        }
        r
    }

    /// Generate a cryptographically secure authentication token: 32 random
    /// bytes in lowercase hexadecimal.
    pub fn generate_auth_token() -> (r: String)
        ensures
            r@.len() == 64,
            exists|b: Seq<u8>| b.len() == 32 && r@ == hex_lower(b),
    {
        random_hex(32)
    }

    /// Create a new console session for a VM, reached through
    /// `websocket_port` with `auth_token`, created at `now` (nanoseconds
    /// since the Unix epoch); it replaces a session with the same id.
    pub fn create_console_session(
        &mut self,
        vm_id: String,
        spice_port: u16,
        websocket_port: u16,
        auth_token: String,
        now: u128,
    ) -> (info: ConsoleInfo)
        requires
            old(self).wf(),
        ensures
            final(self).wf(),
            final(self).settings() == old(self).settings(),
            info.connection_id@ == connection_id(vm_id@, websocket_port),
            info.websocket_url@ == websocket_url(old(self).settings().bind_address@, websocket_port),
            info.auth_token == auth_token,
            final(self).sessions().lookup(info.connection_id@) == Some(
                SpiceConnection {
                    vm_id,
                    spice_port,
                    websocket_port,
                    auth_token,
                    created_at: now,
                    status: ConnectionStatus::Authenticating,
                },
            ),
            forall|k: Seq<char>|
                k != info.connection_id@ ==> #[trigger] final(self).sessions().lookup(k) == old(
                    self,
                ).sessions().lookup(k),
    {
        let connection = SpiceConnection {
            vm_id: vm_id.clone(),
            spice_port,
            websocket_port,
            auth_token: auth_token.clone(),
            created_at: now,
            status: ConnectionStatus::Authenticating,
        };
        let connection_id = connection.id();
        let mut url = String::new();
        push_str(&mut url, "ws://");
        push_str(&mut url, self.config.bind_address.as_str());
        push_str(&mut url, ":");
        push_decimal(&mut url, websocket_port as u64);
        self.connections.insert(connection_id.clone(), connection);
        ConsoleInfo { websocket_url: url, auth_token, connection_id }
    }

    /// Remove a console session; whether there was one.
    pub fn remove_console_session(&mut self, connection_id: &str) -> (removed: bool)
        requires
            old(self).wf(),
        ensures
            final(self).wf(),
            final(self).settings() == old(self).settings(),
            removed == old(self).sessions().lookup(connection_id@).is_some(),
            final(self).sessions().lookup(connection_id@).is_none(),
            forall|k: Seq<char>|
                k != connection_id@ ==> #[trigger] final(self).sessions().lookup(k) == old(
                    self,
                ).sessions().lookup(k),
    {
        self.connections.remove(connection_id).is_some()
    }

    /// Get status of a console session
    pub fn get_console_status(&self, connection_id: &str) -> (r: Option<ConnectionStatus>)
        requires
            self.wf(),
        ensures
            match self.sessions().lookup(connection_id@) {
                Some(c) => r == Some(c.status),
                None => r.is_none(),
            },
    {
        match self.connections.get(connection_id) {
            Some(c) => Some(c.status.duplicate()),
            None => None,
        }
    }

    /// List all active console connections, in the order they were opened.
    pub fn list_connections(&self) -> (r: Vec<SpiceConnection>)
        requires
            self.wf(),
        ensures
            r@ == self.sessions().val_seq(),
    {
        let mut r: Vec<SpiceConnection> = Vec::new();
        let mut i: usize = 0;
        let n = self.connections.len();
        while i < n
            invariant
                self.wf(),
                n == self.sessions().len_spec(),
                i <= n,
                r@ == self.sessions().val_seq().take(i as int),
            decreases n - i,
        {
            let c = self.connections.value_at(i).duplicate();
            r.push(c);
            assert(self.sessions().val_seq().take(i + 1) == self.sessions().val_seq().take(
                i as int,
            ).push(self.sessions().val_seq()[i as int]));
            i = i + 1;
        }
        assert(self.sessions().val_seq().take(n as int) == self.sessions().val_seq());
        r
    }

    /// The first session, from position `k` on, whose token is `token`.
    pub open spec fn first_with_token_from(&self, token: Seq<char>, k: int) -> Option<SpiceConnection>
        decreases self.sessions().val_seq().len() - k,
    {
        if k < 0 || k >= self.sessions().val_seq().len() {
            None
        } else if self.sessions().val_seq()[k].auth_token@ == token {
            Some(self.sessions().val_seq()[k])
        } else {
            self.first_with_token_from(token, k + 1)
        }
    }

    /// The first session, in the order they were opened, whose token is
    /// `token`.
    pub open spec fn first_with_token(&self, token: Seq<char>) -> Option<SpiceConnection> {
        self.first_with_token_from(token, 0)
    }

    /// The session a browser's first WebSocket message authenticates: the
    /// first one with that token.
    pub fn authenticate(&self, token: &str) -> (r: Option<SpiceConnection>)
        requires
            self.wf(),
        ensures
            r == self.first_with_token(token@),
    {
        let n = self.connections.len();
        let mut i: usize = 0;
        while i < n
            invariant
                self.wf(),
                n == self.sessions().len_spec(),
                i <= n,
                self.first_with_token(token@) == self.first_with_token_from(token@, i as int),
            decreases n - i,
        {
            let c = self.connections.value_at(i);
            if c.auth_token == token.to_owned() {
                return Some(c.duplicate());
            }
            i = i + 1;
        }
        None
    }

    /// Sets the status of a session, if it exists.
    pub fn set_status(&mut self, connection_id: &str, status: ConnectionStatus)
        requires
            old(self).wf(),
        ensures
            final(self).wf(),
            final(self).settings() == old(self).settings(),
            match old(self).sessions().lookup(connection_id@) {
                Some(c) => final(self).sessions().lookup(connection_id@) == Some(
                    SpiceConnection { status, ..c },
                ),
                None => final(self).sessions().lookup(connection_id@).is_none(),
            },
            forall|k: Seq<char>|
                k != connection_id@ ==> #[trigger] final(self).sessions().lookup(k) == old(
                    self,
                ).sessions().lookup(k),
    {
        let updated = match self.connections.get(connection_id) {
            Some(c) => {
                let mut d = c.duplicate();
                d.status = status;
                Some(d)
            },
            None => None,
        };
        match updated {
            Some(d) => self.connections.insert(connection_id.to_owned(), d),
            None => {},
        }
    }

    /// Stop: every session is dropped.
    pub fn stop(&mut self)
        requires
            old(self).wf(),
        ensures
            final(self).wf(),
            final(self).settings() == old(self).settings(),
            final(self).sessions().len_spec() == 0,
            forall|k: Seq<char>| #[trigger] final(self).sessions().lookup(k).is_none(),
    {
        self.connections.clear();
    }

    /// Decides on a browser by its first message: a text message must be
    /// the token of a session, which then counts as connected and is
    /// relayed to its SPICE server on this machine.
    pub fn authenticate_browser(&mut self, first: FirstMessage) -> (r: Handshake)
        requires
            old(self).wf(),
        ensures
            final(self).wf(),
            final(self).settings() == old(self).settings(),
            match first {
                FirstMessage::Text(token) => match old(self).first_with_token(token@) {
                    Some(c) => {
                        &&& r matches Handshake::Accept { reply, connection_id: id, server_address }
                        &&& reply@ == "OK"@
                        &&& id@ == connection_id(c.vm_id@, c.websocket_port)
                        &&& server_address@ == "127.0.0.1:"@ + decimal(c.spice_port as nat)
                        &&& match old(self).sessions().lookup(id@) {
                            Some(d) => final(self).sessions().lookup(id@) == Some(
                                SpiceConnection { status: ConnectionStatus::Connected, ..d },
                            ),
                            None => final(self).sessions().lookup(id@).is_none(),
                        }
                        &&& forall|k: Seq<char>|
                            k != id@ ==> #[trigger] final(self).sessions().lookup(k)
                                == old(self).sessions().lookup(k)
                    },
                    None => {
                        &&& r matches Handshake::Refuse { reply: Some(m), error }
                        &&& m@ == "Authentication failed"@
                        &&& error@ == "Invalid authentication token"@
                        &&& final(self).sessions() == old(self).sessions()
                    },
                },
                FirstMessage::Other => {
                    &&& r matches Handshake::Refuse { reply: None, error }
                    &&& error@ == "Invalid authentication message"@
                    &&& final(self).sessions() == old(self).sessions()
                },
                FirstMessage::Closed => {
                    &&& r matches Handshake::Refuse { reply: None, error }
                    &&& error@ == "Connection closed during auth"@
                    &&& final(self).sessions() == old(self).sessions()
                },
                FirstMessage::Failed(e) => {
                    &&& r matches Handshake::Refuse { reply: None, error }
                    &&& error@ == "WebSocket error: "@ + e@
                    &&& final(self).sessions() == old(self).sessions()
                },
                FirstMessage::TimedOut => {
                    &&& r matches Handshake::Refuse { reply: None, error }
                    &&& error@ == "Authentication timeout"@
                    &&& final(self).sessions() == old(self).sessions()
                },
            },
    {
        match first {
            FirstMessage::Text(token) => match self.authenticate(token.as_str()) {
                Some(c) => {
                    let id = c.id();
                    self.set_status(id.as_str(), ConnectionStatus::Connected);
                    let mut address = "127.0.0.1:".to_owned();
                    push_decimal(&mut address, c.spice_port as u64);
                    Handshake::Accept { reply: "OK".to_owned(), connection_id: id, server_address: address }
                },
                None => Handshake::Refuse {
                    reply: Some("Authentication failed".to_owned()),
                    error: "Invalid authentication token".to_owned(),
                },
            },
            FirstMessage::Other => Handshake::Refuse {
                reply: None,
                error: "Invalid authentication message".to_owned(),
            },
            FirstMessage::Closed => Handshake::Refuse {
                reply: None,
                error: "Connection closed during auth".to_owned(),
            },
            FirstMessage::Failed(e) => Handshake::Refuse {
                reply: None,
                error: concat("WebSocket error: ", e.as_str()),
            },
            FirstMessage::TimedOut => Handshake::Refuse {
                reply: None,
                error: "Authentication timeout".to_owned(),
            },
        }
    }

    /// Records that the relay of a session ended.
    pub fn session_ended(&mut self, connection_id: &str)
        requires
            old(self).wf(),
        ensures
            final(self).wf(),
            final(self).settings() == old(self).settings(),
            match old(self).sessions().lookup(connection_id@) {
                Some(c) => final(self).sessions().lookup(connection_id@) == Some(
                    SpiceConnection { status: ConnectionStatus::Disconnected, ..c },
                ),
                None => final(self).sessions().lookup(connection_id@).is_none(),
            },
            forall|k: Seq<char>|
                k != connection_id@ ==> #[trigger] final(self).sessions().lookup(k) == old(
                    self,
                ).sessions().lookup(k),
    {
        self.set_status(connection_id, ConnectionStatus::Disconnected);
    }

    /// Clean up expired connections at time `now` (nanoseconds since the
    /// Unix epoch); the ids removed.
    pub fn cleanup_expired_connections(&mut self, now: u128) -> (removed: Vec<String>)
        requires
            old(self).wf(),
        ensures
            final(self).wf(),
            final(self).settings() == old(self).settings(),
            forall|k: Seq<char>| #[trigger]
                final(self).sessions().lookup(k) == match old(self).sessions().lookup(k) {
                    Some(c) => if expired(c.created_at, now, old(self).settings().connection_timeout_secs) {
                        None
                    } else {
                        Some(c)
                    },
                    None => None,
                },
            forall|j: int|
                0 <= j < removed@.len() ==> old(self).sessions().lookup(#[trigger] removed@[j]@).is_some()
                    && expired(
                    old(self).sessions().lookup(removed@[j]@)->0.created_at,
                    now,
                    old(self).settings().connection_timeout_secs,
                ),
            forall|k: Seq<char>|
                #[trigger] old(self).sessions().lookup(k).is_some() && expired(
                    old(self).sessions().lookup(k)->0.created_at,
                    now,
                    old(self).settings().connection_timeout_secs,
                ) ==> exists|m: int| 0 <= m < removed@.len() && removed@[m]@ == k,
    {
        let ghost cfg = self.settings();
        let timeout = self.config.connection_timeout_secs;
        let limit: u128 = (timeout as u128) * 1_000_000_000;
        let n = self.connections.len();
        let mut expired_ids: Vec<String> = Vec::new();
        let mut i: usize = 0;
        while i < n
            invariant
                self.wf(),
                self.settings() == cfg,
                n == self.sessions().len_spec(),
                i <= n,
                limit == timeout * 1_000_000_000,
                timeout == self.settings().connection_timeout_secs,
                forall|j: int|
                    0 <= j < expired_ids@.len() ==> {
                        &&& self.sessions().lookup(#[trigger] expired_ids@[j]@).is_some()
                        &&& expired(
                            self.sessions().lookup(expired_ids@[j]@)->0.created_at,
                            now,
                            timeout,
                        )
                    },
                forall|j: int|
                    0 <= j < i && expired(
                        (#[trigger] self.sessions().val_seq()[j]).created_at,
                        now,
                        timeout,
                    ) ==> exists|m: int|
                        0 <= m < expired_ids@.len() && expired_ids@[m]@ == self.sessions().key_seq()[j],
            decreases n - i,
        {
            let c = self.connections.value_at(i);
            proof {
                self.connections.lemma_lookup_at(i as int);
            }
            let ghost ids_before = expired_ids@;
            if now >= c.created_at && now - c.created_at > limit {
                let id = self.connections.key_at(i).clone();
                expired_ids.push(id);
                assert(expired_ids@[expired_ids@.len() - 1]@ == self.sessions().key_seq()[i as int]);
            }
            assert forall|j: int|
                0 <= j < i + 1 && expired(
                    (#[trigger] self.sessions().val_seq()[j]).created_at,
                    now,
                    timeout,
                ) implies exists|m: int|
                0 <= m < expired_ids@.len() && expired_ids@[m]@ == self.sessions().key_seq()[j] by {
                if j < i {
                    let m = choose|m: int|
                        0 <= m < ids_before.len() && ids_before[m]@ == self.sessions().key_seq()[j];
                    assert(expired_ids@[m] == ids_before[m]);
                } else {
                    assert(expired_ids@[expired_ids@.len() - 1]@ == self.sessions().key_seq()[i as int]);
                }
            }
            i = i + 1;
        }
        let ghost before = self.sessions();
        let mut k: usize = 0;
        while k < expired_ids.len()
            invariant
                self.wf(),
                self.settings() == cfg,
                before.wf(),
                k <= expired_ids.len(),
                self.settings().connection_timeout_secs == timeout,
                forall|j: int|
                    0 <= j < expired_ids@.len() ==> {
                        &&& before.lookup(#[trigger] expired_ids@[j]@).is_some()
                        &&& expired(before.lookup(expired_ids@[j]@)->0.created_at, now, timeout)
                    },
                forall|j: int|
                    0 <= j < before.len_spec() && expired(
                        (#[trigger] before.val_seq()[j]).created_at,
                        now,
                        timeout,
                    ) ==> exists|m: int|
                        0 <= m < expired_ids@.len() && expired_ids@[m]@ == before.key_seq()[j],
                forall|key: Seq<char>| #[trigger]
                    self.sessions().lookup(key) == if exists|m: int|
                        0 <= m < k && expired_ids@[m]@ == key {
                        None
                    } else {
                        before.lookup(key)
                    },
            decreases expired_ids.len() - k,
        {
            let ghost prev = self.sessions();
            self.connections.remove(expired_ids[k].as_str());
            assert forall|key: Seq<char>| #[trigger]
                self.sessions().lookup(key) == if exists|m: int|
                    0 <= m < k + 1 && expired_ids@[m]@ == key {
                    None
                } else {
                    before.lookup(key)
                } by {
                if key == expired_ids@[k as int]@ {
                    assert(exists|m: int| 0 <= m < k + 1 && expired_ids@[m]@ == key);
                } else {
                    if exists|m: int| 0 <= m < k + 1 && expired_ids@[m]@ == key {
                        let m = choose|m: int| 0 <= m < k + 1 && expired_ids@[m]@ == key;
                        assert(m < k);
                    }
                }
            }
            k = k + 1;
        }
        assert forall|key: Seq<char>| #[trigger]
            self.sessions().lookup(key) == match before.lookup(key) {
                Some(c) => if expired(c.created_at, now, timeout) {
                    None
                } else {
                    Some(c)
                },
                None => None,
            } by {
            if exists|m: int| 0 <= m < k && expired_ids@[m]@ == key {
                let m = choose|m: int| 0 <= m < k && expired_ids@[m]@ == key;
                assert(before.lookup(expired_ids@[m]@).is_some());
            } else {
                match before.lookup(key) {
                    Some(c) => {
                        crate::services::session_table::lemma_position_from(
                            before.key_seq(),
                            key,
                            0,
                        );
                        let p = crate::services::session_table::position_from(
                            before.key_seq(),
                            key,
                            0,
                        )->0;
                        assert(before.val_seq()[p] == c);
                        if expired(c.created_at, now, timeout) {
                            assert(exists|m: int|
                                0 <= m < expired_ids@.len() && expired_ids@[m]@
                                    == before.key_seq()[p]);
                        }
                    },
                    None => {},
                }
            }
        }
        assert forall|key: Seq<char>|
            #[trigger] before.lookup(key).is_some() && expired(
                before.lookup(key)->0.created_at,
                now,
                timeout,
            ) implies exists|m: int| 0 <= m < expired_ids@.len() && expired_ids@[m]@ == key by {
            crate::services::session_table::lemma_position_from(before.key_seq(), key, 0);
            let p = crate::services::session_table::position_from(before.key_seq(), key, 0)->0;
            assert(before.val_seq()[p] == before.lookup(key)->0);
            assert(before.key_seq()[p] == key);
        }
        expired_ids
    }
}

} // verus!
