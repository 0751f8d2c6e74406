//! Hosts and how to reach them.

use vstd::prelude::*;

verus! {

/// How a host is reached: on this machine, at a remote address, or not yet
/// configured.
#[derive(Debug, PartialEq)]
pub enum Connection {
    Local,
    Remote(String),
    Unconfigured,
}

impl Clone for Connection {
    fn clone(&self) -> (r: Self)
        ensures
            r == *self,
    {
        match self {
            Connection::Local => Connection::Local,
            Connection::Remote(s) => Connection::Remote(s.clone()),
            Connection::Unconfigured => Connection::Unconfigured,
        }
    }
}

impl Connection {
    /// The text shown for this connection.
    pub open spec fn display_spec(self) -> Seq<char> {
        match self {
            Connection::Local => "localhost"@,
            Connection::Remote(s) => s@,
            Connection::Unconfigured => "[]"@,
        }
    }

    /// True unless the host is unconfigured.
    pub fn is_configured(&self) -> (r: bool)
        ensures
            r == !(self is Unconfigured),
    {
        !matches!(self, Connection::Unconfigured)
    }

    /// Human-readable form: the local name, the remote address, or an
    /// empty-list marker for an unconfigured host.
    pub fn display(&self) -> (r: String)
        ensures
            r@ == self.display_spec(),
    {
        match self {
            Connection::Local => "localhost".to_owned(),
            Connection::Remote(s) => s.clone(),
            Connection::Unconfigured => "[]".to_owned(),
        }
    }
}

/// Per-host configuration: its connection and extra command-line arguments.
#[derive(Debug)]
pub struct HostConfig {
    pub connection: Connection,
    pub extra_args: Vec<String>,
}

impl Clone for HostConfig {
    fn clone(&self) -> (r: Self)
        ensures
            r.connection == self.connection,
            r.extra_args@ == self.extra_args@,
    {
        let mut args: Vec<String> = Vec::new();
        let mut i: usize = 0;
        while i < self.extra_args.len()
            invariant
                i <= self.extra_args@.len(),
                args@ =~= self.extra_args@.take(i as int),
            decreases self.extra_args@.len() - i,
        {
            args.push(self.extra_args[i].clone());
            i += 1;
        }
        proof {
            assert(args@ =~= self.extra_args@);
        }
        HostConfig { connection: self.connection.clone(), extra_args: args }
    }
}

impl HostConfig {
    /// A host seen but not yet configured.
    pub fn unconfigured() -> (r: Self)
        ensures
            r.connection is Unconfigured,
            r.extra_args@ == Seq::<String>::empty(),
    {
        HostConfig { connection: Connection::Unconfigured, extra_args: Vec::new() }
    }

    /// A host rebuilt on this machine.
    pub fn local() -> (r: Self)
        ensures
            r.connection is Local,
            r.extra_args@ == Seq::<String>::empty(),
    {
        HostConfig { connection: Connection::Local, extra_args: Vec::new() }
    }
}

} // verus!
