//! The durable claim store, kept in redis.
//!
//! A claim is made with `SETNX key timestamp`, followed by `EXPIRE key ttl`
//! only when `SETNX` created the key; a live claim is read with `EXISTS key`.
//! This module decides which commands to send; the caller sends them.
use vstd::prelude::*;
use crate::config::Config;
use crate::repo::Repo;
use crate::Error;

verus! {

#[verifier::external_type_specification]
#[verifier::external_body]
pub struct ExRedisClient(redis::Client);

#[verifier::external_type_specification]
#[verifier::external_body]
pub struct ExRedisError(redis::RedisError);

/// Whether redis accepts `url` as the address of a server.
pub uninterp spec fn redis_url_accepted(url: Seq<char>) -> bool;

/// Relies on redis::Client::open, which parses the connection address
/// without connecting; whether it succeeds depends on the address alone.
#[verifier::external_body]
fn open_client(url: &str) -> (r: Result<redis::Client, redis::RedisError>)
    ensures
        r.is_ok() == redis_url_accepted(url@),
{
    redis::Client::open(url)
}

/// A command for the claim store.
#[derive(Debug)]
pub enum StoreCommand {
    /// `SETNX key value`: sets the key only if it is absent; the reply is 1
    /// when this call set it.
    SetIfAbsent { key: String, value: i64 },
    /// `EXPIRE key seconds`.
    Expire { key: String, seconds: usize },
    /// `EXISTS key`: the reply tells whether a live claim holds the key.
    Exists { key: String },
}

/// What a lookup in the claim store found about a repository.
#[derive(Debug, PartialEq, Eq, Structural, Clone, Copy)]
pub enum ClaimCheck {
    /// No live claim holds its key.
    Unclaimed,
    /// A live claim holds its key.
    Claimed,
    /// The store could not be asked.
    Unknown,
}

impl ClaimCheck {
    /// Reads the reply to `EXISTS`; `None` stands for a failed lookup.
    pub fn from_reply(reply: Option<bool>) -> (r: ClaimCheck)
        ensures
            r == match reply {
                Some(true) => ClaimCheck::Claimed,
                Some(false) => ClaimCheck::Unclaimed,
                None => ClaimCheck::Unknown,
            },
    {
        match reply {
            Some(true) => ClaimCheck::Claimed,
            Some(false) => ClaimCheck::Unclaimed,
            None => ClaimCheck::Unknown,
        }
    }
}

/// A handle on the claim store.
pub struct Storage {
    client: redis::Client,
    post_ttl: usize,
}

impl Storage {
    /// Lifetime of a claim, in seconds.
    pub closed spec fn ttl(&self) -> usize {
        self.post_ttl
    }

    pub fn from_config(config: &Config) -> (r: Result<Storage, Error>)
        ensures
            r.is_ok() == redis_url_accepted(config.redis_url@),
            r is Err ==> r == Err::<Storage, Error>(Error::InvalidStoreUrl),
            r matches Ok(s) ==> s.ttl() == config.post_ttl,
    {
        match open_client(config.redis_url.as_str()) {
            Ok(client) => Ok(Storage { client, post_ttl: config.post_ttl }),
            Err(_) => Err(Error::InvalidStoreUrl),
        }
    }

    /// The redis client, for sending commands.
    pub fn client(&self) -> &redis::Client {
        &self.client
    }

    pub fn post_ttl(&self) -> (r: usize)
        ensures
            r == self.ttl(),
    {
        self.post_ttl
    }

    /// The first command of a claim on `repo`, stamped with the time of its
    /// announcement.
    pub fn claim_command(&self, repo: &Repo, timestamp: i64) -> (r: StoreCommand)
        ensures
            r == (StoreCommand::SetIfAbsent { key: repo.name, value: timestamp }),
    {
        StoreCommand::SetIfAbsent { key: repo.name.clone(), value: timestamp }
    }

    /// The command that follows the reply to `SETNX`: the claim is given its
    /// lifetime only when `SETNX` created it.
    pub fn after_set_if_absent(&self, repo: &Repo, reply: usize) -> (r: Option<StoreCommand>)
        ensures
            reply == 1 ==> r == Some(StoreCommand::Expire { key: repo.name, seconds: self.ttl() }),
            reply != 1 ==> r is None,
    {
        if reply == 1 {
            Some(StoreCommand::Expire { key: repo.name.clone(), seconds: self.post_ttl })
        } else {
            None
        }
    }

    /// The command that asks whether a live claim holds `repo`'s key.
    pub fn exists_command(&self, repo: &Repo) -> (r: StoreCommand)
        ensures
            r == (StoreCommand::Exists { key: repo.name }),
    {
        StoreCommand::Exists { key: repo.name.clone() }
    }
}

} // verus!
