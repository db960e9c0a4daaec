//! Puppet sessions: the identity of each guest user in the home network, the
//! cache of the clients that were provisioned, and the identity of the bridge
//! itself.
use dashmap::DashMap;
use vstd::prelude::*;
use vstd::string::StringExecFns;
use crate::text::{decimal, push_decimal};

verus! {

/// The local name of the puppet of a guest user: the prefix, `_discord_`, and
/// the guest user's id in decimal.
pub open spec fn puppet_localpart_of(prefix: Seq<char>, guest_id: u64) -> Seq<char> {
    prefix + "_discord_"@ + decimal(guest_id as nat)
}

/// The local name of the bridge's own bot: the prefix and `_discordbot`.
pub open spec fn bot_localpart_of(prefix: Seq<char>) -> Seq<char> {
    prefix + "_discordbot"@
}

/// The local name of the puppet of a guest user.
pub fn puppet_localpart(prefix: &str, guest_id: u64) -> (name: String)
    ensures
        name@ == puppet_localpart_of(prefix@, guest_id),
{
    let mut name = prefix.to_owned();
    name.append("_discord_");
    push_decimal(&mut name, guest_id);
    name
}

/// The local name of the bridge's own bot.
pub fn bot_localpart(prefix: &str) -> (name: String)
    ensures
        name@ == bot_localpart_of(prefix@),
{
    let mut name = prefix.to_owned();
    name.append("_discordbot");
    name
}

/// Whether the home protocol's identifier library accepts `name` as the name
/// of a server.
pub uninterp spec fn is_server_name(name: Seq<char>) -> bool;

/// The user id that the home protocol's identifier library makes of a user id
/// or local name and the name of a server: `None` where it refuses them.
pub uninterp spec fn completed_user_id(id: Seq<char>, server: Seq<char>) -> Option<Seq<char>>;

/// The characters of a text that may be missing.
pub open spec fn name_of(text: Option<String>) -> Option<Seq<char>> {
    match text {
        Some(t) => Some(t@),
        None => None,
    }
}

/// Calls the conversion of ruma, as matrix-sdk exports it, from text to
/// `&ServerName`, and reports whether it accepted the text. Nothing is proved
/// of the grammar: the contract only gives the answer its name.
#[verifier::external_body]
fn server_name_parses(name: &str) -> (ok: bool)
    ensures
        ok == is_server_name(name@),
{
    <&matrix_sdk::ruma::ServerName>::try_from(name).is_ok()
}

/// Calls `UserId::parse_with_server_name` of ruma, as matrix-sdk exports it,
/// and hands back the text of the user id that it made, if it made one. The
/// server name has to be one that ruma accepts. Nothing is proved of the
/// result: the contract only gives it its name.
#[verifier::external_body]
fn complete_user_id(id: &str, server: &str) -> (r: Option<String>)
    requires
        is_server_name(server@),
    ensures
        name_of(r) == completed_user_id(id@, server@),
{
    let server = <&matrix_sdk::ruma::ServerName>::try_from(server).ok()?;
    match matrix_sdk::ruma::UserId::parse_with_server_name(id, server) {
        Ok(user) => Some(user.as_str().to_owned()),
        Err(_) => None,
    }
}

/// Why the bridge has no identity.
#[derive(Clone, Copy, Debug, PartialEq, Eq, Structural)]
pub enum IdentityError {
    /// The configured domain is not the name of a server.
    InvalidServerName,
    /// The local name does not make a user id.
    InvalidUserId,
}

/// The user id with the given local name on the server of the given domain.
pub fn user_id_on(localpart: &str, domain: &str) -> (r: Result<String, IdentityError>)
    ensures
        match r {
            Ok(id) => is_server_name(domain@) && completed_user_id(localpart@, domain@) == Some(id@),
            Err(IdentityError::InvalidServerName) => !is_server_name(domain@),
            Err(IdentityError::InvalidUserId) => is_server_name(domain@) && completed_user_id(
                localpart@,
                domain@,
            ) is None,
        },
{
    if !server_name_parses(domain) {
        return Err(IdentityError::InvalidServerName);
    }
    match complete_user_id(localpart, domain) {
        Some(id) => Ok(id),
        None => Err(IdentityError::InvalidUserId),
    }
}

/// The user id of the bridge's own bot.
pub fn bot_user_id(prefix: &str, domain: &str) -> (r: Result<String, IdentityError>)
    ensures
        match r {
            Ok(id) => is_server_name(domain@) && completed_user_id(
                bot_localpart_of(prefix@),
                domain@,
            ) == Some(id@),
            Err(IdentityError::InvalidServerName) => !is_server_name(domain@),
            Err(IdentityError::InvalidUserId) => is_server_name(domain@) && completed_user_id(
                bot_localpart_of(prefix@),
                domain@,
            ) is None,
        },
{
    let localpart = bot_localpart(prefix);
    user_id_on(localpart.as_str(), domain)
}

/// What the home server answered to the registration of a virtual user.
#[derive(Debug, PartialEq, Eq)]
pub enum RegistrationReply {
    /// The identity was created.
    Registered,
    /// The identity exists already.
    UserInUse,
    /// The registration failed, with the reason.
    Failed(String),
}

/// Whether a registration leaves the identity in place: an identity that
/// exists already is as good as one that was just created, and every other
/// failure stands, with its reason.
pub fn absorb_registration(reply: RegistrationReply) -> (r: Result<(), String>)
    ensures
        match reply {
            RegistrationReply::Registered => r is Ok,
            RegistrationReply::UserInUse => r is Ok,
            RegistrationReply::Failed(reason) => r == Err::<(), String>(reason),
        },
{
    match reply {
        RegistrationReply::Registered => Ok(()),
        RegistrationReply::UserInUse => Ok(()),
        RegistrationReply::Failed(reason) => Err(reason),
    }
}

#[verifier::external_type_specification]
#[verifier::external_body]
#[verifier::reject_recursive_types(K)]
#[verifier::reject_recursive_types(V)]
#[verifier::reject_recursive_types(S)]
pub struct ExDashMap<K, V, S>(DashMap<K, V, S>);

/// The map that caches the handles of the clients, by guest user id.
pub type ClientMap = DashMap<u64, u64>;

/// The entries of the client cache: for each guest user that has one, the
/// handle of the cached client.
pub uninterp spec fn cached_clients(cache: ClientMap) -> Map<u64, u64>;

/// A cache without entries.
pub open spec fn no_clients() -> Map<u64, u64> {
    Map::empty()
}

/// Calls `DashMap::new`: the new cache has no entries.
#[verifier::external_body]
fn cache_new() -> (cache: ClientMap)
    ensures
        cached_clients(cache) == no_clients(),
{
    DashMap::new()
}

/// Calls `DashMap::get` and copies the handle out of the entry: the handle
/// stored for the guest user, or `None` where the cache has no entry for it.
#[verifier::external_body]
fn cache_get(cache: &ClientMap, guest_id: u64) -> (client: Option<u64>)
    ensures
        client == (if cached_clients(*cache).contains_key(guest_id) {
            Some(cached_clients(*cache)[guest_id])
        } else {
            None
        }),
{
    match cache.get(&guest_id) {
        Some(entry) => Some(*entry.value()),
        None => None,
    }
}

/// Calls `DashMap::insert`: the handle is stored for the guest user, in place
/// of the one that was there, which is handed back; the other entries stay.
#[verifier::external_body]
fn cache_insert(cache: &mut ClientMap, guest_id: u64, client: u64) -> (previous: Option<u64>)
    ensures
        cached_clients(*final(cache)) == cached_clients(*old(cache)).insert(guest_id, client),
        previous == (if cached_clients(*old(cache)).contains_key(guest_id) {
            Some(cached_clients(*old(cache))[guest_id])
        } else {
            None
        }),
{
    cache.insert(guest_id, client)
}

/// Where the client for a request comes from.
#[derive(Debug, PartialEq, Eq)]
pub enum ClientChoice {
    /// No guest user was named: the bridge's own bot client.
    Bot,
    /// The guest user has a cached client, with this handle.
    Cached(u64),
    /// The guest user has none: register the identity with this local name,
    /// make a client for it and insert it into the cache.
    Provision { localpart: String },
}

/// The clients that were provisioned for guest users, by guest user id.
#[derive(Debug)]
pub struct PuppetCache {
    clients: ClientMap,
}

impl View for PuppetCache {
    type V = Map<u64, u64>;

    closed spec fn view(&self) -> Map<u64, u64> {
        cached_clients(self.clients)
    }
}

impl PuppetCache {
    /// A cache without clients.
    pub fn new() -> (cache: PuppetCache)
        ensures
            cache@ == Map::<u64, u64>::empty(),
    {
        PuppetCache { clients: cache_new() }
    }

    /// The handle of the client cached for the guest user.
    pub fn lookup(&self, guest_id: u64) -> (client: Option<u64>)
        ensures
            client is Some == self@.contains_key(guest_id),
            client matches Some(handle) ==> handle == self@[guest_id],
    {
        cache_get(&self.clients, guest_id)
    }

    /// Where the client for the request comes from: the bot client where no
    /// guest user is named, the cached client where the guest user has one,
    /// and else a client that is yet to be provisioned under the guest user's
    /// local name.
    pub fn client_for(&self, guest_id: Option<u64>, prefix: &str) -> (choice: ClientChoice)
        ensures
            match guest_id {
                None => choice == ClientChoice::Bot,
                Some(id) => if self@.contains_key(id) {
                    choice == ClientChoice::Cached(self@[id])
                } else {
                    choice matches ClientChoice::Provision { localpart } && localpart@
                        == puppet_localpart_of(prefix@, id)
                },
            },
    {
        match guest_id {
            None => ClientChoice::Bot,
            Some(id) => match self.lookup(id) {
                Some(handle) => ClientChoice::Cached(handle),
                None => ClientChoice::Provision { localpart: puppet_localpart(prefix, id) },
            },
        }
    }

    /// Caches the client for the guest user, in place of the one that was
    /// cached for it, and hands the replaced handle back.
    pub fn insert(&mut self, guest_id: u64, client: u64) -> (previous: Option<u64>)
        ensures
            final(self)@ == old(self)@.insert(guest_id, client),
            previous is Some == old(self)@.contains_key(guest_id),
            previous matches Some(handle) ==> handle == old(self)@[guest_id],
    {
        cache_insert(&mut self.clients, guest_id, client)
    }
}

} // verus!
