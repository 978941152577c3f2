//! The settings of a deployment, read from plain text.
//!
//! The caller fetches the texts from wherever the deployment keeps them; what
//! they mean is worked out here.

use crate::text::{decimal, integer_value, natural_value, parse_i64, parse_u64, push_decimal};
use vstd::prelude::*;
use vstd::string::StringExecFns;

verus! {

/// The port of a Cassandra node, unless the deployment names another.
pub const DEFAULT_CASSANDRA_PORT: u16 = 9042;

/// The port on which the service listens, unless the deployment names
/// another.
pub const DEFAULT_SERVER_PORT: u16 = 8000;

/// The host on which the service listens, unless the deployment names
/// another.
pub const DEFAULT_SERVER_HOST: &'static str = "localhost";

/// The address on which the metrics are served.
pub const METRICS_ADDRESS: &'static str = "127.0.0.1:3001";

/// How many prepared statements a session keeps.
pub const STATEMENT_CACHE_SIZE: usize = 1024;

/// How many connections a pool of gateway clients holds at most.
pub const GATEWAY_POOL_SIZE: u32 = 10;

/// The port number that a text stands for, if it stands for one.
pub open spec fn port_value(text: Seq<char>) -> Option<u16> {
    match natural_value(text) {
        Some(v) => if v <= u16::MAX {
            Some(v as u16)
        } else {
            None
        },
        None => None,
    }
}

/// Reads a text as a port number.
pub fn parse_port(text: &str) -> (r: Option<u16>)
    ensures
        r == port_value(text@),
{
    match parse_u64(text) {
        Some(v) => if v <= 0xffff {
            Some(v as u16)
        } else {
            None
        },
        None => None,
    }
}

/// The port to use: the one that the text stands for, or `default` if there
/// is no text or it stands for no port.
pub open spec fn spec_port_or(raw: Option<&str>, default: u16) -> u16 {
    match raw {
        Some(text) => match port_value(text@) {
            Some(port) => port,
            None => default,
        },
        None => default,
    }
}

/// The port to use: the one that the text stands for, or `default` if there
/// is no text or it stands for no port.
pub fn port_or(raw: Option<&str>, default: u16) -> (port: u16)
    ensures
        port == spec_port_or(raw, default),
{
    match raw {
        Some(text) => match parse_port(text) {
            Some(port) => port,
            None => default,
        },
        None => default,
    }
}

/// The port of the Cassandra nodes: the configured one, or 9042.
pub fn cassandra_port(raw: Option<&str>) -> (port: u16)
    ensures
        port == spec_port_or(raw, DEFAULT_CASSANDRA_PORT),
{
    port_or(raw, DEFAULT_CASSANDRA_PORT)
}

/// The port on which the service listens: 8000 if none is configured;
/// `None` if the configured text stands for no port.
pub fn server_port(raw: Option<&str>) -> (port: Option<u16>)
    ensures
        port == match raw {
            Some(text) => port_value(text@),
            None => Some(DEFAULT_SERVER_PORT),
        },
{
    match raw {
        Some(text) => parse_port(text),
        None => Some(DEFAULT_SERVER_PORT),
    }
}

/// The parts of a text between its commas, in order. A text without a comma
/// is its own single part; a comma at either end gives an empty part there.
pub open spec fn comma_parts(s: Seq<char>) -> Seq<Seq<char>>
    decreases s.len(),
{
    if s.len() == 0 {
        seq![Seq::<char>::empty()]
    } else {
        let before = comma_parts(s.drop_last());
        if s.last() == ',' {
            before.push(Seq::<char>::empty())
        } else {
            before.drop_last().push(before.last().push(s.last()))
        }
    }
}

/// A text always has at least one part.
pub proof fn lemma_comma_parts_nonempty(s: Seq<char>)
    ensures
        comma_parts(s).len() >= 1,
    decreases s.len(),
{
    if s.len() > 0 {
        lemma_comma_parts_nonempty(s.drop_last());
    }
}

/// The address of a node: host and port with a colon between.
pub open spec fn node_address(host: Seq<char>, port: u16) -> Seq<char> {
    host + seq![':'] + decimal(port as int)
}

/// The addresses of the nodes that a comma-separated list of hosts names,
/// all at the same port.
pub open spec fn spec_known_nodes(url: Seq<char>, port: u16) -> Seq<Seq<char>> {
    addresses(comma_parts(url), port)
}

/// The addresses of a list of hosts, all at the same port.
pub open spec fn addresses(hosts: Seq<Seq<char>>, port: u16) -> Seq<Seq<char>> {
    Seq::new(hosts.len(), |i: int| node_address(hosts[i], port))
}

/// The texts of a list of strings.
pub open spec fn strings(list: Seq<String>) -> Seq<Seq<char>> {
    list.map_values(|s: String| s@)
}

/// The address of a node: host and port with a colon between.
pub fn node(host: &str, port: u16) -> (address: String)
    ensures
        address@ == node_address(host@, port),
{
    proof {
        reveal_strlit(":");
    }
    let mut address = host.to_owned();
    address.append(":");
    push_decimal(&mut address, port as i64);
    assert(address@ =~= node_address(host@, port));
    address
}

/// The addresses of the nodes that a comma-separated list of hosts names,
/// all at the same port.
pub fn known_nodes(url: &str, port: u16) -> (nodes: Vec<String>)
    ensures
        strings(nodes@) == spec_known_nodes(url@, port),
        nodes@.len() >= 1,
{
    proof {
        lemma_comma_parts_nonempty(url@);
    }
    let length = url.unicode_len();
    let mut nodes: Vec<String> = Vec::new();
    let mut start: usize = 0;
    let mut i: usize = 0;
    let ghost mut done: Seq<Seq<char>> = Seq::empty();
    assert(url@.take(0) =~= Seq::<char>::empty());
    assert(comma_parts(url@.take(0)) =~= done.push(url@.subrange(0, 0)));
    while i < length
        invariant
            start <= i <= length,
            length == url@.len(),
            comma_parts(url@.take(i as int)) == done.push(url@.subrange(start as int, i as int)),
            strings(nodes@) == addresses(done, port),
        decreases length - i,
    {
        let c = url.get_char(i);
        let ghost part = url@.subrange(start as int, i as int);
        proof {
            assert(url@.take(i + 1).drop_last() =~= url@.take(i as int));
            assert(url@.take(i + 1).last() == c);
            assert(done.push(part).drop_last() =~= done);
        }
        if c == ',' {
            let host = url.substring_char(start, i);
            let ghost listed = strings(nodes@);
            nodes.push(node(host, port));
            proof {
                let grown = done.push(part);
                assert(strings(nodes@) =~= listed.push(node_address(part, port)));
                assert(strings(nodes@) =~= addresses(grown, port));
                assert(url@.subrange(i + 1, i + 1) =~= Seq::<char>::empty());
                done = grown;
            }
            start = i + 1;
        } else {
            proof {
                assert(part.push(c) =~= url@.subrange(start as int, i + 1));
            }
        }
        i = i + 1;
    }
    let host = url.substring_char(start, length);
    let ghost listed = strings(nodes@);
    nodes.push(node(host, port));
    proof {
        assert(url@.take(length as int) =~= url@);
        let all = done.push(host@);
        assert(strings(nodes@) =~= listed.push(node_address(host@, port)));
        assert(strings(nodes@) =~= addresses(all, port));
    }
    nodes
}

/// How to reach a Cassandra cluster.
#[derive(Debug)]
pub struct CassandraConfig {
    /// The hosts of the contact points, separated by commas.
    pub url: String,
    pub port: u16,
    pub username: String,
    pub password: String,
    /// The data centre whose nodes are used.
    pub datacenter: String,
    /// The keyspace of the merchant accounts.
    pub accounts_keyspace: String,
}

/// How to reach a Redis cluster.
#[derive(Clone, Copy, Debug, PartialEq, Eq, Structural)]
pub struct RedisSettings {
    /// How many connections the pool holds.
    pub pool_size: usize,
    /// How many replicas have to acknowledge a write.
    pub replicas: i64,
    /// How long to wait for them, in milliseconds.
    pub timeout: i64,
}

/// Which setting of the Redis backend could not be read.
#[derive(Clone, Copy, Debug, PartialEq, Eq, Structural)]
pub enum RedisSettingError {
    PoolSize,
    Timeout,
    Replicas,
}

/// The number that a text stands for, if it fits a signed 64-bit integer.
pub open spec fn i64_value(text: Seq<char>) -> Option<i64> {
    match integer_value(text) {
        Some(v) => if i64::MIN <= v <= i64::MAX {
            Some(v as i64)
        } else {
            None
        },
        None => None,
    }
}

/// The number that a text stands for, if it fits a size.
pub open spec fn usize_value(text: Seq<char>) -> Option<usize> {
    match natural_value(text) {
        Some(v) => if v <= usize::MAX {
            Some(v as usize)
        } else {
            None
        },
        None => None,
    }
}

/// The settings that three texts stand for: the first of pool size, replicas
/// and timeout that is no number of its kind is reported.
pub open spec fn spec_redis_settings(pool_size: Seq<char>, timeout: Seq<char>, replicas: Seq<char>)
    -> Result<RedisSettings, RedisSettingError> {
    match usize_value(pool_size) {
        None => Err(RedisSettingError::PoolSize),
        Some(p) => match i64_value(replicas) {
            None => Err(RedisSettingError::Replicas),
            Some(r) => match i64_value(timeout) {
                None => Err(RedisSettingError::Timeout),
                Some(t) => Ok(RedisSettings { pool_size: p, replicas: r, timeout: t }),
            },
        },
    }
}

impl RedisSettings {
    /// Reads the settings from the texts of pool size, timeout and replicas.
    pub fn parse(pool_size: &str, timeout: &str, replicas: &str) -> (r: Result<
        RedisSettings,
        RedisSettingError,
    >)
        ensures
            r == spec_redis_settings(pool_size@, timeout@, replicas@),
    {
        let pool = match parse_u64(pool_size) {
            Some(v) => if v <= usize::MAX as u64 {
                v as usize
            } else {
                return Err(RedisSettingError::PoolSize);
            },
            None => {
                return Err(RedisSettingError::PoolSize);
            },
        };
        let acks = match parse_i64(replicas) {
            Some(v) => v,
            None => {
                return Err(RedisSettingError::Replicas);
            },
        };
        let wait = match parse_i64(timeout) {
            Some(v) => v,
            None => {
                return Err(RedisSettingError::Timeout);
            },
        };
        Ok(RedisSettings { pool_size: pool, replicas: acks, timeout: wait })
    }
}

/// How to reach a database behind a gRPC gateway.
#[derive(Debug)]
pub struct StargateConfig {
    pub cluster_id: String,
    pub token: String,
    pub region: String,
}

/// Which setting of the gateway is missing.
#[derive(Clone, Copy, Debug, PartialEq, Eq, Structural)]
pub enum MissingSetting {
    DatabaseId,
    Region,
    Token,
}

/// The first of database, region and token that is not there, if any is not.
pub open spec fn first_missing(id: Option<String>, region: Option<String>, token: Option<String>)
    -> Option<MissingSetting> {
    if id is None {
        Some(MissingSetting::DatabaseId)
    } else if region is None {
        Some(MissingSetting::Region)
    } else if token is None {
        Some(MissingSetting::Token)
    } else {
        None
    }
}

/// The address of the gateway of the database `cluster_id` in `region`.
pub open spec fn gateway_uri(cluster_id: Seq<char>, region: Seq<char>) -> Seq<char> {
    "https://"@ + cluster_id + "-"@ + region + ".apps.astra.datastax.com/stargate"@
}

impl StargateConfig {
    /// The settings of the gateway of the database `cluster_id` in `region`,
    /// to be used with the access token `token`.
    pub fn new(cluster_id: String, token: String, region: String) -> (c: StargateConfig)
        ensures
            c.cluster_id@ == cluster_id@,
            c.token@ == token@,
            c.region@ == region@,
    {
        StargateConfig { cluster_id, token, region }
    }

    /// The settings of the gateway from what the deployment names: all of
    /// database, region and token have to be there. The first of them that
    /// is not is reported, in that order.
    pub fn from_vars(id: Option<String>, region: Option<String>, token: Option<String>) -> (r:
        Result<StargateConfig, MissingSetting>)
        ensures
            match r {
                Ok(c) => {
                    &&& first_missing(id, region, token) is None
                    &&& id matches Some(i) && c.cluster_id@ == i@
                    &&& region matches Some(g) && c.region@ == g@
                    &&& token matches Some(t) && c.token@ == t@
                },
                Err(e) => first_missing(id, region, token) == Some(e),
            },
    {
        let cluster_id = match id {
            Some(i) => i,
            None => {
                return Err(MissingSetting::DatabaseId);
            },
        };
        let region = match region {
            Some(g) => g,
            None => {
                return Err(MissingSetting::Region);
            },
        };
        let token = match token {
            Some(t) => t,
            None => {
                return Err(MissingSetting::Token);
            },
        };
        Ok(StargateConfig { cluster_id, token, region })
    }

    /// The address of the gateway.
    pub fn astra_uri(&self) -> (uri: String)
        ensures
            uri@ == gateway_uri(self.cluster_id@, self.region@),
    {
        let mut uri = "https://".to_owned();
        uri.append(self.cluster_id.as_str());
        uri.append("-");
        uri.append(self.region.as_str());
        uri.append(".apps.astra.datastax.com/stargate");
        uri
    }
}

/// The backends that the service can be bound to.
#[derive(Clone, Copy, Debug, PartialEq, Eq, Structural)]
pub enum BackendKind {
    Cassandra,
    Redis,
    Dynamo,
    Memory,
}

/// The backend that a name stands for, if it stands for one.
pub open spec fn backend_named(name: Seq<char>) -> Option<BackendKind> {
    if name == "cassandra"@ {
        Some(BackendKind::Cassandra)
    } else if name == "redis"@ {
        Some(BackendKind::Redis)
    } else if name == "dynamo"@ {
        Some(BackendKind::Dynamo)
    } else if name == "memory"@ {
        Some(BackendKind::Memory)
    } else {
        None
    }
}

impl BackendKind {
    /// The backend that a name stands for: one of `cassandra`, `redis`,
    /// `dynamo` and `memory`.
    pub fn parse(name: &str) -> (r: Option<BackendKind>)
        ensures
            r == backend_named(name@),
    {
        let name = name.to_owned();
        if name == "cassandra".to_owned() {
            Some(BackendKind::Cassandra)
        } else if name == "redis".to_owned() {
            Some(BackendKind::Redis)
        } else if name == "dynamo".to_owned() {
            Some(BackendKind::Dynamo)
        } else if name == "memory".to_owned() {
            Some(BackendKind::Memory)
        } else {
            None
        }
    }
}

} // verus!
