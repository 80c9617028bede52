//! The client side of the management interface: the requests that it sends.
use vstd::prelude::*;
use crate::model::CreateTcpUdp;
use crate::text::{decimal, decimal_is_injective, join, to_decimal};

verus! {

/// A request to the management interface.
pub enum Request {
    Post { path: String, body: CreateTcpUdp },
    Delete { path: String },
}

/// The management interface, reached through the client `W`.
pub struct ManagementApi<W> {
    client: W,
}

impl<W: Clone> Clone for ManagementApi<W> {
    fn clone(&self) -> (copy: Self)
        ensures
            cloned(self.client(), copy.client()),
    {
        ManagementApi { client: self.client.clone() }
    }
}

/// The path of the forwarding `id` under `collection`.
pub open spec fn item_path(collection: Seq<char>, id: u32) -> Seq<char> {
    collection + "/"@ + decimal(id as nat)
}

fn path_of(collection: &str, id: u32) -> (path: String)
    ensures
        path@ == item_path(collection@, id),
{
    let mut path = join(collection, "/");
    path.append(to_decimal(id).as_str());
    path
}

impl<W> ManagementApi<W> {
    pub closed spec fn client(&self) -> W {
        self.client
    }

    pub fn new(client: W) -> (api: Self)
        ensures
            api.client() == client,
    {
        ManagementApi { client }
    }

    /// The client that sends the requests.
    pub fn get_client(&self) -> (client: &W)
        ensures
            *client == self.client(),
    {
        &self.client
    }

    /// Asks for a TCP forwarding.
    pub fn create_tcp(&self, cs: &CreateTcpUdp) -> (request: Request)
        ensures
            request matches Request::Post { path, body } && path@ == "tcp"@ && body == *cs,
    {
        Request::Post { path: "tcp".to_owned(), body: cs.clone() }
    }

    /// Ends a TCP forwarding.
    pub fn delete_tcp(&self, id: u32) -> (request: Request)
        ensures
            request matches Request::Delete { path } && path@ == item_path("tcp"@, id),
    {
        Request::Delete { path: path_of("tcp", id) }
    }

    /// Asks for a UDP forwarding.
    pub fn create_udp(&self, cs: &CreateTcpUdp) -> (request: Request)
        ensures
            request matches Request::Post { path, body } && path@ == "udp"@ && body == *cs,
    {
        Request::Post { path: "udp".to_owned(), body: cs.clone() }
    }

    /// Ends a UDP forwarding.
    pub fn delete_udp(&self, id: u32) -> (request: Request)
        ensures
            request matches Request::Delete { path } && path@ == item_path("udp"@, id),
    {
        Request::Delete { path: path_of("udp", id) }
    }
}

/// A path names one forwarding: those of TCP and of UDP differ, and so do those of
/// two numbers.
pub proof fn paths_name_one_forwarding(a: u32, b: u32)
    ensures
        item_path("tcp"@, a) != item_path("udp"@, b),
        item_path("tcp"@, a) == item_path("tcp"@, b) ==> a == b,
        item_path("udp"@, a) == item_path("udp"@, b) ==> a == b,
{
    reveal_strlit("tcp");
    reveal_strlit("udp");
    reveal_strlit("/");
    assert(item_path("tcp"@, a)[0] == 't');
    assert(item_path("udp"@, b)[0] == 'u');
    assert(item_path("tcp"@, a).skip(4) =~= decimal(a as nat));
    assert(item_path("tcp"@, b).skip(4) =~= decimal(b as nat));
    assert(item_path("udp"@, a).skip(4) =~= decimal(a as nat));
    assert(item_path("udp"@, b).skip(4) =~= decimal(b as nat));
    if decimal(a as nat) == decimal(b as nat) {
        decimal_is_injective(a as nat, b as nat);
    }
}

/// The requests of the interface: forwardings are asked for at the collection of their
/// protocol, with what was given, and ended at that collection, a slash and their number.
/// The client is the one that the interface was made with, of a clone too.
pub proof fn requests_go_to_their_collection<W: Clone>(
    client: W,
    api: ManagementApi<W>,
    got: &W,
    copy: ManagementApi<W>,
    of_copy: &W,
    cs: CreateTcpUdp,
    id: u32,
    number: String,
    tcp: Request,
    udp: Request,
    end_tcp: Request,
    end_udp: Request,
)
    requires
        call_ensures(ManagementApi::<W>::new, (client,), api),
        call_ensures(ManagementApi::<W>::get_client, (&api,), got),
        cloned(api, copy),
        call_ensures(ManagementApi::<W>::get_client, (&copy,), of_copy),
        call_ensures(to_decimal, (id,), number),
        call_ensures(ManagementApi::<W>::create_tcp, (&api, &cs), tcp),
        call_ensures(ManagementApi::<W>::create_udp, (&api, &cs), udp),
        call_ensures(ManagementApi::<W>::delete_tcp, (&api, id), end_tcp),
        call_ensures(ManagementApi::<W>::delete_udp, (&api, id), end_udp),
    ensures
        *got == client,
        cloned(client, *of_copy),
        tcp matches Request::Post { path, body } && path@ == "tcp"@ && body == cs,
        udp matches Request::Post { path, body } && path@ == "udp"@ && body == cs,
        end_tcp matches Request::Delete { path } && path@ == "tcp/"@ + number@,
        end_udp matches Request::Delete { path } && path@ == "udp/"@ + number@,
{
    reveal_strlit("tcp");
    reveal_strlit("udp");
    reveal_strlit("/");
    reveal_strlit("tcp/");
    reveal_strlit("udp/");
    assert("tcp"@ + "/"@ =~= "tcp/"@);
    assert("udp"@ + "/"@ =~= "udp/"@);
}

} // verus!
