//! The command that adds a server, and the stored record it leads to.

use vstd::prelude::*;

verus! {

/// The property under which a server's connection URL is kept.
pub const URL_PROPERTY: &'static str = "url";

/// The arguments of the command that adds a server.
#[derive(Debug, PartialEq, Eq)]
pub struct AddServerArgs {
    pub name: String,
    pub connection_url: String,
}

/// A server that is to be stored.
#[derive(Debug, PartialEq, Eq)]
pub struct NewServer {
    pub name: String,
    pub connection_properties: Vec<(String, String)>,
}

/// A server as it is stored.
#[derive(Debug, PartialEq, Eq)]
pub struct StoredServer {
    pub id: u128,
    pub name: String,
    pub connection_properties: Vec<(String, String)>,
}

/// The record for the server that the command names: its one property is
/// the connection URL.
pub fn run(add_server_args: AddServerArgs) -> (server: NewServer)
    ensures
        server.name@ == add_server_args.name@,
        server.connection_properties.deep_view() == seq![
            (URL_PROPERTY@, add_server_args.connection_url@),
        ],
{
    let mut connection_properties: Vec<(String, String)> = Vec::new();
    connection_properties.push((String::from_str(URL_PROPERTY), add_server_args.connection_url));
    proof {
        assert(connection_properties.deep_view() =~= seq![
            (URL_PROPERTY@, add_server_args.connection_url@),
        ]);
    }
    NewServer { name: add_server_args.name, connection_properties }
}

/// The value of the first property called `name`.
pub open spec fn property(properties: Seq<(Seq<char>, Seq<char>)>, name: Seq<char>) -> Option<
    Seq<char>,
>
    decreases properties.len(),
{
    if properties.len() == 0 {
        None
    } else if properties[0].0 == name {
        Some(properties[0].1)
    } else {
        property(properties.drop_first(), name)
    }
}

impl StoredServer {
    /// Gives the stored record of a new server its identifier.
    pub fn store(id: u128, server: NewServer) -> (stored: Self)
        ensures
            stored.id == id,
            stored.name@ == server.name@,
            stored.connection_properties.deep_view() == server.connection_properties.deep_view(),
    {
        StoredServer { id, name: server.name, connection_properties: server.connection_properties }
    }

    /// The connection URL of the server, if the record holds one.
    pub fn connection_url(&self) -> (url: Option<String>)
        ensures
            url.deep_view() == property(self.connection_properties.deep_view(), URL_PROPERTY@),
    {
        let wanted = String::from_str(URL_PROPERTY);
        let ghost all = self.connection_properties.deep_view();
        let mut i: usize = 0;
        proof {
            assert(all.skip(0) =~= all);
        }
        while i < self.connection_properties.len()
            invariant
                i <= self.connection_properties.len(),
                wanted@ == URL_PROPERTY@,
                all == self.connection_properties.deep_view(),
                property(all, URL_PROPERTY@) == property(all.skip(i as int), URL_PROPERTY@),
            decreases self.connection_properties.len() - i,
        {
            proof {
                let rest = all.skip(i as int);
                assert(rest.len() > 0 && rest[0] == all[i as int]);
                assert(rest.drop_first() =~= all.skip(i + 1));
            }
            if self.connection_properties[i].0 == wanted {
                return Some(self.connection_properties[i].1.clone());
            }
            i = i + 1;
        }
        proof {
            assert(all.skip(i as int).len() == 0);
        }
        None
    }
}

/// The record made by the command holds the URL it was given.
pub proof fn law_added_server_has_url(url: Seq<char>)
    ensures
        property(seq![(URL_PROPERTY@, url)], URL_PROPERTY@) == Some(url),
{
}

} // verus!
