//! The stored list of servers, as the console holds it in memory. Reading
//! and writing the file that keeps it is left to the caller.

use vstd::prelude::*;

verus! {

/// One stored server: three texts, kept as they were entered.
#[derive(Debug, PartialEq, Eq)]
pub struct Server {
    pub name: String,
    pub address: String,
    pub port: String,
}

/// What a `Server` holds, as mathematical values.
pub struct ServerView {
    pub name: Seq<char>,
    pub address: Seq<char>,
    pub port: Seq<char>,
}

impl View for Server {
    type V = ServerView;

    open spec fn view(&self) -> ServerView {
        ServerView { name: self.name@, address: self.address@, port: self.port@ }
    }
}

impl Clone for Server {
    fn clone(&self) -> (copy: Self)
        ensures
            copy@ == self@,
    {
        Self { name: self.name.clone(), address: self.address.clone(), port: self.port.clone() }
    }
}

impl Default for Server {
    fn default() -> (server: Self)
        ensures
            server@ == (ServerView {
                name: Seq::<char>::empty(),
                address: Seq::<char>::empty(),
                port: Seq::<char>::empty(),
            }),
    {
        Self { name: String::new(), address: String::new(), port: String::new() }
    }
}

/// The records that a list of servers holds, in its order.
pub open spec fn records(servers: Seq<Server>) -> Seq<ServerView> {
    servers.map_values(|server: Server| server@)
}

/// The stored configuration: the servers in the order in which they were
/// added.
#[derive(Debug, PartialEq, Eq)]
pub struct Config {
    pub servers: Vec<Server>,
}

impl View for Config {
    type V = Seq<ServerView>;

    open spec fn view(&self) -> Seq<ServerView> {
        records(self.servers@)
    }
}

impl Default for Config {
    fn default() -> (config: Self)
        ensures
            config@ == Seq::<ServerView>::empty(),
    {
        let config = Self { servers: Vec::new() };
        assert(config@ =~= Seq::<ServerView>::empty());
        config
    }
}

impl Config {
    /// Takes over what was read at startup. `stored` is the list that the
    /// file held, or `None` where there was no file or it could not be
    /// read as a configuration; then the list starts empty, and the result
    /// tells the caller to write the file anew.
    pub fn initialize(&mut self, stored: Option<Vec<Server>>) -> (rewrite: bool)
        ensures
            rewrite == stored is None,
            final(self)@ == match stored {
                Some(servers) => records(servers@),
                None => Seq::<ServerView>::empty(),
            },
    {
        match stored {
            Some(servers) => {
                self.servers = servers;
                false
            },
            None => {
                self.servers = Vec::new();
                assert(self@ =~= Seq::<ServerView>::empty());
                true
            },
        }
    }

    /// Adds `new_server` behind the servers that are stored. The caller
    /// writes the file.
    pub fn add_new_server(&mut self, new_server: Server)
        ensures
            final(self)@ == old(self)@.push(new_server@),
    {
        self.servers.push(new_server);
        assert(self@ =~= old(self)@.push(new_server@));
    }
}

} // verus!
