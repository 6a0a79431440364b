//! Console sessions of the VNC WebSocket proxy.
use vstd::prelude::*;

use crate::services::session_table::SessionTable;
use crate::services::spice_proxy::{FirstMessage, Handshake};
use crate::text::{decimal, push_decimal, push_str};
use crate::tokens::{hex_lower, random_hex};

verus! {

#[derive(Debug, Clone, PartialEq)]
pub struct VncConnection {
    pub id: String,
    pub vm_id: String,
    pub vnc_host: String,
    pub vnc_port: u16,
    pub websocket_port: u16,
    pub auth_token: String,
    pub status: String,
}

#[derive(Debug, Clone, Copy, PartialEq, Eq)]
pub enum ConsoleProtocol {
    Vnc,
    Spice,
}

#[derive(Debug, Clone, PartialEq)]
pub struct ConsoleInfo {
    pub websocket_url: String,
    pub auth_token: String,
    pub connection_id: String,
    pub protocol: ConsoleProtocol,
}

#[derive(Debug, Clone, PartialEq)]
pub enum ConnectionStatus {
    Authenticating,
    Connected,
    Disconnected,
    Error(String),
}

/// `host:port`.
pub open spec fn host_port(host: Seq<char>, port: u16) -> Seq<char> {
    host + ":"@ + decimal(port as nat)
}

impl VncConnection {
    pub fn duplicate(&self) -> (r: Self)
        ensures
            r == *self,
    {
        VncConnection {
            id: self.id.clone(),
            vm_id: self.vm_id.clone(),
            vnc_host: self.vnc_host.clone(),
            vnc_port: self.vnc_port,
            websocket_port: self.websocket_port,
            auth_token: self.auth_token.clone(),
            status: self.status.clone(),
        }
    }

    /// The address of the VNC server the session forwards to.
    pub fn vnc_address(&self) -> (r: String)
        ensures
            r@ == host_port(self.vnc_host@, self.vnc_port),
    {
        let mut r = String::new();
        push_str(&mut r, self.vnc_host.as_str());
        push_str(&mut r, ":");
        push_decimal(&mut r, self.vnc_port as u64);
        r
    }

    /// The address the session's WebSocket listener binds.
    pub fn listen_address(&self) -> (r: String)
        ensures
            r@ == host_port("0.0.0.0"@, self.websocket_port),
    {
        let mut r = String::new();
        push_str(&mut r, "0.0.0.0");
        push_str(&mut r, ":");
        push_decimal(&mut r, self.websocket_port as u64);
        r
    }
}

/// The sessions of the VNC WebSocket proxy.
pub struct VncProxy {
    connections: SessionTable<VncConnection>,
}

impl VncProxy {
    pub closed spec fn sessions(&self) -> SessionTable<VncConnection> {
        self.connections
    }

    pub open spec fn wf(&self) -> bool {
        self.sessions().wf()
    }

    pub fn new() -> (p: Self)
        ensures
            p.wf(),
            p.sessions().len_spec() == 0,
            forall|k: Seq<char>| #[trigger] p.sessions().lookup(k).is_none(),
    {
        VncProxy { connections: SessionTable::new() }
    }

    /// A fresh connection id: 16 random bytes in lowercase hexadecimal.
    pub fn generate_connection_id() -> (r: String)
        ensures
            r@.len() == 32,
            exists|b: Seq<u8>| b.len() == 16 && r@ == hex_lower(b),
    {
        random_hex(16)
    }

    /// A fresh authentication token: 32 random bytes in lowercase
    /// hexadecimal.
    pub fn generate_auth_token() -> (r: String)
        ensures
            r@.len() == 64,
            exists|b: Seq<u8>| b.len() == 32 && r@ == hex_lower(b),
    {
        random_hex(32)
    }

    /// The ports a WebSocket listener may take, in order.
    pub fn port_candidates() -> (r: Vec<u16>)
        ensures
            r@.len() == 20,
            forall|i: int| 0 <= i < 20 ==> r@[i] == 6080 + i,
    {
        let mut r: Vec<u16> = Vec::new();
        let mut p: u16 = 6080;
        while p < 6100
            invariant
                6080 <= p <= 6100,
                r@.len() == p - 6080,
                forall|i: int| 0 <= i < r@.len() ==> r@[i] == 6080 + i,
            decreases 6100 - p,
        {
            r.push(p);
            p = p + 1;
        }
        r
    }

    /// Records a new session under `connection_id`, with status
    /// `connecting`, and returns it.
    pub fn create_connection(
        &mut self,
        connection_id: String,
        vm_id: String,
        vnc_host: String,
        vnc_port: u16,
        websocket_port: u16,
        auth_token: String,
    ) -> (c: VncConnection)
        requires
            old(self).wf(),
        ensures
            final(self).wf(),
            c.id == connection_id,
            c.vm_id == vm_id,
            c.vnc_host == vnc_host,
            c.vnc_port == vnc_port,
            c.websocket_port == websocket_port,
            c.auth_token == auth_token,
            c.status@ == "connecting"@,
            final(self).sessions().lookup(connection_id@) == Some(c),
            forall|k: Seq<char>|
                k != connection_id@ ==> #[trigger] final(self).sessions().lookup(k) == old(
                    self,
                ).sessions().lookup(k),
    {
        let connection = VncConnection {
            id: connection_id,
            vm_id,
            vnc_host,
            vnc_port,
            websocket_port,
            auth_token,
            status: "connecting".to_owned(),
        };
        let r = connection.duplicate();
        self.connections.insert(connection.id.clone(), connection);
        r
    }

    /// Sets the status text of a session, if it exists.
    pub fn set_status(&mut self, connection_id: &str, status: &str)
        requires
            old(self).wf(),
        ensures
            final(self).wf(),
            match old(self).sessions().lookup(connection_id@) {
                Some(c) => final(self).sessions().lookup(connection_id@) matches Some(d) && d.status@
                    == status@ && d == (VncConnection { status: d.status, ..c }),
                None => final(self).sessions().lookup(connection_id@).is_none(),
            },
            forall|k: Seq<char>|
                k != connection_id@ ==> #[trigger] final(self).sessions().lookup(k) == old(
                    self,
                ).sessions().lookup(k),
    {
        let updated = match self.connections.get(connection_id) {
            Some(c) => {
                let mut d = c.duplicate();
                d.status = status.to_owned();
                Some(d)
            },
            None => None,
        };
        match updated {
            Some(d) => self.connections.insert(connection_id.to_owned(), d),
            None => {},
        }
    }

    /// Whether the first message of a browser carries the session's token.
    pub fn token_matches(expected_token: &str, auth_message: &str) -> (b: bool)
        ensures
            b == (expected_token@ == auth_message@),
    {
        expected_token.to_owned() == auth_message.to_owned()
    }

    /// Decides on a browser by its first message, which must be the text
    /// `expected_token`; an accepted session counts as connected and is
    /// relayed to the console server at `server_address`.
    pub fn authenticate_browser(
        &mut self,
        connection_id: &str,
        expected_token: &str,
        server_address: &str,
        first: FirstMessage,
    ) -> (r: Handshake)
        requires
            old(self).wf(),
        ensures
            final(self).wf(),
            match first {
                FirstMessage::Text(m) => if m@ == expected_token@ {
                    &&& r matches Handshake::Accept { reply, connection_id: id, server_address: a }
                    &&& reply@ == "authenticated"@
                    &&& id@ == connection_id@
                    &&& a@ == server_address@
                    &&& match old(self).sessions().lookup(connection_id@) {
                        Some(c) => final(self).sessions().lookup(connection_id@) matches Some(d)
                            && d.status@ == "connected"@ && d == (VncConnection { status: d.status, ..c }),
                        None => final(self).sessions().lookup(connection_id@).is_none(),
                    }
                    &&& forall|k: Seq<char>|
                        k != connection_id@ ==> #[trigger] final(self).sessions().lookup(k) == old(
                            self,
                        ).sessions().lookup(k)
                } else {
                    &&& r matches Handshake::Refuse { reply: Some(m), error }
                    &&& m@ == "Authentication failed"@
                    &&& error@ == "Invalid authentication token"@
                    &&& final(self).sessions() == old(self).sessions()
                },
                _ => {
                    &&& r matches Handshake::Refuse { reply: None, error }
                    &&& error@ == "No authentication message received"@
                    &&& final(self).sessions() == old(self).sessions()
                },
            },
    {
        match first {
            FirstMessage::Text(m) => {
                if Self::token_matches(expected_token, m.as_str()) {
                    self.set_status(connection_id, "connected");
                    Handshake::Accept {
                        reply: "authenticated".to_owned(),
                        connection_id: connection_id.to_owned(),
                        server_address: server_address.to_owned(),
                    }
                } else {
                    Handshake::Refuse {
                        reply: Some("Authentication failed".to_owned()),
                        error: "Invalid authentication token".to_owned(),
                    }
                }
            },
            _ => Handshake::Refuse {
                reply: None,
                error: "No authentication message received".to_owned(),
            },
        }
    }

    /// Records that the relay of a session ended.
    pub fn session_ended(&mut self, connection_id: &str)
        requires
            old(self).wf(),
        ensures
            final(self).wf(),
            match old(self).sessions().lookup(connection_id@) {
                Some(c) => final(self).sessions().lookup(connection_id@) matches Some(d) && d.status@
                    == "disconnected"@ && d == (VncConnection { status: d.status, ..c }),
                None => final(self).sessions().lookup(connection_id@).is_none(),
            },
            forall|k: Seq<char>|
                k != connection_id@ ==> #[trigger] final(self).sessions().lookup(k) == old(
                    self,
                ).sessions().lookup(k),
    {
        self.set_status(connection_id, "disconnected");
    }

    /// Drops a session.
    pub fn stop_connection(&mut self, connection_id: &str)
        requires
            old(self).wf(),
        ensures
            final(self).wf(),
            final(self).sessions().lookup(connection_id@).is_none(),
            forall|k: Seq<char>|
                k != connection_id@ ==> #[trigger] final(self).sessions().lookup(k) == old(
                    self,
                ).sessions().lookup(k),
    {
        self.connections.remove(connection_id);
    }

    pub fn get_connection(&self, connection_id: &str) -> (r: Option<VncConnection>)
        requires
            self.wf(),
        ensures
            r == self.sessions().lookup(connection_id@),
    {
        match self.connections.get(connection_id) {
            Some(c) => Some(c.duplicate()),
            None => None,
        }
    }

    pub fn get_connection_status(&self, connection_id: &str) -> (r: Option<String>)
        requires
            self.wf(),
        ensures
            match self.sessions().lookup(connection_id@) {
                Some(c) => r == Some(c.status),
                None => r.is_none(),
            },
    {
        match self.connections.get(connection_id) {
            Some(c) => Some(c.status.clone()),
            None => None,
        }
    }
}

impl Default for VncProxy {
    fn default() -> (p: Self)
        ensures
            p.wf(),
            p.sessions().len_spec() == 0,
    {
        Self::new()
    }
}

} // verus!
