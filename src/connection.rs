use vstd::prelude::*;

verus! {

/// Port of the command channel unless told otherwise.
pub const DEFAULT_RPC_PORT: u16 = 50000;

/// Port of the telemetry stream unless told otherwise.
pub const DEFAULT_STREAM_PORT: u16 = 50001;

/// Where and under which name to open the session with the remote server.
pub struct ConnectionBuilder {
    pub conn_name: String,
    pub ip_addr: String,
    pub rpc_port: u16,
    pub stream_port: u16,
}

impl ConnectionBuilder {
    /// An unnamed session on the local host at the default ports.
    pub fn new() -> (r: ConnectionBuilder)
        ensures
            r.conn_name@ == Seq::<char>::empty(),
            r.ip_addr@ == "127.0.0.1"@,
            r.rpc_port == DEFAULT_RPC_PORT,
            r.stream_port == DEFAULT_STREAM_PORT,
    {
        ConnectionBuilder {
            conn_name: String::new(),
            ip_addr: "127.0.0.1".to_string(),
            rpc_port: DEFAULT_RPC_PORT,
            stream_port: DEFAULT_STREAM_PORT,
        }
    }

    /// The same settings under another session name.
    pub fn conn_name(self, conn_name: String) -> (r: ConnectionBuilder)
        ensures
            r.conn_name@ == conn_name@,
            r.ip_addr@ == self.ip_addr@,
            r.rpc_port == self.rpc_port,
            r.stream_port == self.stream_port,
    {
        ConnectionBuilder { conn_name, ..self }
    }

    /// The same settings with another server address.
    pub fn ip_addr(self, ip_addr: String) -> (r: ConnectionBuilder)
        ensures
            r.conn_name@ == self.conn_name@,
            r.ip_addr@ == ip_addr@,
            r.rpc_port == self.rpc_port,
            r.stream_port == self.stream_port,
    {
        ConnectionBuilder { ip_addr, ..self }
    }
}

} // verus!
