//! The cluster endpoint: where it listens, and what its service answers.

use vstd::prelude::*;

verus! {

/// The service behind the cluster endpoint. It acknowledges every request.
#[derive(Debug, Default, Clone, Copy, PartialEq, Eq)]
pub struct Cobase {}

/// The answer to a request: whether it was accepted.
#[derive(Debug, Clone, Copy, PartialEq, Eq)]
pub struct Reply {
    pub success: bool,
}

/// Where the cluster endpoint listens.
#[derive(Debug, Clone, PartialEq, Eq)]
pub struct ClusterOptions {
    pub addr: String,
}

/// The cluster endpoint.
#[derive(Debug, Clone, PartialEq, Eq)]
pub struct Cluster {
    pub options: ClusterOptions,
}

impl Cobase {
    pub fn create_room(&self) -> (reply: Reply)
        ensures
            reply.success,
    {
        Reply { success: true }
    }

    pub fn import_data(&self) -> (reply: Reply)
        ensures
            reply.success,
    {
        Reply { success: true }
    }
}

impl Cluster {
    pub fn new(options: ClusterOptions) -> (cluster: Self)
        ensures
            cluster.options == options,
    {
        Self { options }
    }

    /// The address to listen on.
    pub fn addr(&self) -> (addr: &String)
        ensures
            *addr == self.options.addr,
    {
        &self.options.addr
    }
}

} // verus!
