//! The registration that announces the bridge to the home server.
use rand::distributions::{Alphanumeric, DistString};
use rand::rngs::ThreadRng;
use vstd::prelude::*;
use vstd::string::StringExecFns;
use crate::config::File;
use crate::puppet::{bot_localpart, bot_localpart_of};
use crate::text::is_alphanumeric;

verus! {

#[verifier::external_type_specification]
#[verifier::external_body]
pub struct ExThreadRng(ThreadRng);

/// A text of the given length, made of ASCII letters and digits.
pub open spec fn is_alphanumeric_text(text: Seq<char>, len: nat) -> bool {
    text.len() == len && forall|i: int| 0 <= i < text.len() ==> is_alphanumeric(#[trigger] text[i])
}

/// Calls `Alphanumeric.sample_string` of rand: a text of `len` characters,
/// each an ASCII letter or digit. Which ones is left open.
#[verifier::external_body]
fn sample_alphanumeric(rng: &mut ThreadRng, len: usize) -> (text: String)
    ensures
        is_alphanumeric_text(text@, len as nat),
{
    Alphanumeric.sample_string(rng, len)
}

/// Calls `thread_rng` of rand: the random number generator of the thread.
#[verifier::external_body]
fn thread_rng() -> ThreadRng {
    rand::thread_rng()
}

/// Generate a random token: 32 characters, each an ASCII letter or digit.
pub fn generate_token(rng: &mut ThreadRng) -> (token: String)
    ensures
        is_alphanumeric_text(token@, 32),
{
    sample_alphanumeric(rng, 32)
}

/// A pattern of names that the bridge claims.
#[derive(Debug, PartialEq, Eq)]
pub struct Namespace {
    /// Whether the bridge claims the names for itself alone.
    pub exclusive: bool,
    pub regex: String,
}

/// The names that the bridge claims.
#[derive(Debug, PartialEq, Eq)]
pub struct Namespaces {
    pub users: Vec<Namespace>,
    pub aliases: Vec<Namespace>,
    pub rooms: Vec<Namespace>,
}

/// The registration of the bridge.
#[derive(Debug, PartialEq, Eq)]
pub struct Registration {
    pub id: String,
    pub url: String,
    /// The token that the bridge shows to the home server.
    pub as_token: String,
    /// The token that the home server shows to the bridge.
    pub hs_token: String,
    pub sender_localpart: String,
    pub namespaces: Namespaces,
    pub rate_limited: Option<bool>,
    pub protocols: Option<Vec<String>>,
}

/// The pattern of the puppets' user ids: `@`, the prefix and `_discord_.*`.
pub open spec fn puppet_users_pattern(prefix: Seq<char>) -> Seq<char> {
    "@"@ + prefix + "_discord_.*"@
}

/// The pattern of the bot's user id: `@`, the prefix and `_discordbot`.
pub open spec fn bot_user_pattern(prefix: Seq<char>) -> Seq<char> {
    "@"@ + prefix + "_discordbot"@
}

/// The pattern of the bridged rooms' aliases: `#`, the prefix and
/// `_discord_.*`.
pub open spec fn aliases_pattern(prefix: Seq<char>) -> Seq<char> {
    "#"@ + prefix + "_discord_.*"@
}

impl Registration {
    /// Whether this is the registration of the bridge with the given prefix
    /// and URL, whatever its tokens are: it is called `discord`, speaks as
    /// the bot, claims the user ids of the puppets and of the bot and the
    /// aliases of the bridged rooms for itself alone, claims no rooms, is not
    /// rate limited and bridges the protocol `com.discord`.
    pub open spec fn describes(&self, prefix: Seq<char>, bridge_url: Seq<char>) -> bool {
        &&& self.id@ == "discord"@
        &&& self.url@ == bridge_url
        &&& self.sender_localpart@ == bot_localpart_of(prefix)
        &&& self.namespaces.users@.len() == 2
        &&& self.namespaces.users@[0].exclusive
        &&& self.namespaces.users@[0].regex@ == puppet_users_pattern(prefix)
        &&& self.namespaces.users@[1].exclusive
        &&& self.namespaces.users@[1].regex@ == bot_user_pattern(prefix)
        &&& self.namespaces.aliases@.len() == 1
        &&& self.namespaces.aliases@[0].exclusive
        &&& self.namespaces.aliases@[0].regex@ == aliases_pattern(prefix)
        &&& self.namespaces.rooms@.len() == 0
        &&& self.rate_limited == Some(false)
        &&& self.protocols matches Some(protocols)
        &&& protocols@.len() == 1
        &&& protocols@[0]@ == "com.discord"@
    }
}

/// A text made of three parts.
fn concat(first: &str, second: &str, third: &str) -> (text: String)
    ensures
        text@ == first@ + second@ + third@,
{
    let mut text = first.to_owned();
    text.append(second);
    text.append(third);
    text
}

/// The registration of the bridge with the given prefix, URL and tokens.
pub fn registration_with_tokens(
    prefix: &str,
    bridge_url: &str,
    as_token: String,
    hs_token: String,
) -> (registration: Registration)
    ensures
        registration.describes(prefix@, bridge_url@),
        registration.as_token == as_token,
        registration.hs_token == hs_token,
{
    let mut users: Vec<Namespace> = Vec::new();
    users.push(Namespace { exclusive: true, regex: concat("@", prefix, "_discord_.*") });
    users.push(Namespace { exclusive: true, regex: concat("@", prefix, "_discordbot") });
    let mut aliases: Vec<Namespace> = Vec::new();
    aliases.push(Namespace { exclusive: true, regex: concat("#", prefix, "_discord_.*") });
    let mut protocols: Vec<String> = Vec::new();
    protocols.push("com.discord".to_owned());
    Registration {
        id: "discord".to_owned(),
        url: bridge_url.to_owned(),
        as_token,
        hs_token,
        sender_localpart: bot_localpart(prefix),
        namespaces: Namespaces { users, aliases, rooms: Vec::new() },
        rate_limited: Some(false),
        protocols: Some(protocols),
    }
}

/// Generate a registration: that of the bridge with the configured prefix and
/// URL, with two fresh tokens.
pub fn generate_registration(config: &File) -> (registration: Registration)
    ensures
        registration.describes(config.bridge.prefix@, config.bridge.bridge_url@),
        is_alphanumeric_text(registration.as_token@, 32),
        is_alphanumeric_text(registration.hs_token@, 32),
{
    let mut rng = thread_rng();
    let as_token = generate_token(&mut rng);
    let hs_token = generate_token(&mut rng);
    registration_with_tokens(
        config.bridge.prefix.as_str(),
        config.bridge.bridge_url.as_str(),
        as_token,
        hs_token,
    )
}

} // verus!
