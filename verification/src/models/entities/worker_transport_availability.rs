//! Transport availability: which core instances can reach which workers,
//! over which transport.

use crate::json::JsonValue;
use crate::text::str_eq;
use crate::time::Timestamp;
use vstd::prelude::*;

verus! {

/// Transport over which a core instance reaches a worker.
#[derive(Debug, Clone, Copy, PartialEq, Eq, Structural)]
pub enum TransportType {
    Tcp,
    Unix,
}

/// Connection details of a TCP transport.
#[derive(Debug, Clone)]
pub struct TcpConnectionDetails {
    pub host: String,
    pub port: u16,
}

/// Connection details of a Unix socket transport.
#[derive(Debug, Clone)]
pub struct UnixConnectionDetails {
    pub socket_path: String,
}

/// Whether a core instance can reach a worker over a transport.
pub struct WorkerTransportAvailability {
    pub id: i32,
    pub worker_id: i32,
    pub core_instance_id: String,
    pub transport_type: String,
    pub connection_details: JsonValue,
    pub is_reachable: bool,
    pub last_verified_at: Timestamp,
    pub created_at: Timestamp,
    pub updated_at: Timestamp,
}

/// Transport availability counts for one core instance.
#[derive(Debug, Clone)]
pub struct TransportAvailabilityStats {
    pub core_instance_id: String,
    pub total_workers: i64,
    pub reachable_workers: i64,
    pub tcp_workers: i64,
    pub unix_workers: i64,
    pub recently_verified: i64,
    pub stale_entries: i64,
}

pub open spec fn transport_name(t: TransportType) -> Seq<char> {
    match t {
        TransportType::Tcp => "tcp"@,
        TransportType::Unix => "unix"@,
    }
}

/// The transport with a given lowercase name.
pub open spec fn transport_from_lowercase(name: Seq<char>) -> Option<TransportType> {
    if name == "tcp"@ {
        Some(TransportType::Tcp)
    } else if name == "unix"@ {
        Some(TransportType::Unix)
    } else {
        None
    }
}

/// Unicode lowercasing of a string, as `str::to_lowercase` performs it.
pub uninterp spec fn lowercase(s: Seq<char>) -> Seq<char>;

/// Every character is ASCII.
pub open spec fn is_ascii_text(s: Seq<char>) -> bool {
    forall|i: int| 0 <= i < s.len() ==> (#[trigger] s[i] as u32) < 128
}

/// ASCII lowercasing: `A` to `Z` become `a` to `z`, every other character stays.
pub open spec fn ascii_lowercase(s: Seq<char>) -> Seq<char> {
    s.map_values(|c: char| if 'A' <= c && c <= 'Z' { ((c as u32) + 32) as char } else { c })
}

/// Lowercases `s`.
///
/// Calls `str::to_lowercase`, whose result depends on `s` alone and is
/// named `lowercase(s)`. On ASCII text the Unicode lowercase mapping turns
/// `A` to `Z` into `a` to `z` and keeps every other character; what it gives
/// for other characters is not stated.
#[verifier::external_body]
fn to_lowercase(s: &str) -> (r: String)
    ensures
        r@ == lowercase(s@),
        is_ascii_text(s@) ==> r@ == ascii_lowercase(s@),
{
    s.to_lowercase()
}

/// A count that the database may leave empty, read as zero.
pub open spec fn count_or_zero(c: Option<i64>) -> i64 {
    match c {
        Some(n) => n,
        None => 0,
    }
}

impl TransportType {
    /// The transport name.
    pub fn as_str(&self) -> (r: &'static str)
        ensures
            r@ == transport_name(*self),
    {
        match self {
            TransportType::Tcp => "tcp",
            TransportType::Unix => "unix",
        }
    }

    /// The transport named by an already lowercase name.
    pub fn from_lowercase(name: &str) -> (r: Option<TransportType>)
        ensures
            r == transport_from_lowercase(name@),
    {
        if str_eq(name, "tcp") {
            Some(TransportType::Tcp)
        } else if str_eq(name, "unix") {
            Some(TransportType::Unix)
        } else {
            None
        }
    }

    /// The transport named by `s`, in any letter case.
    pub fn from_str(s: &str) -> (r: Option<TransportType>)
        ensures
            r == transport_from_lowercase(lowercase(s@)),
            is_ascii_text(s@) ==> r == transport_from_lowercase(ascii_lowercase(s@)),
    {
        let lowered = to_lowercase(s);
        TransportType::from_lowercase(lowered.as_str())
    }
}

impl TransportAvailabilityStats {
    /// Statistics for `core_instance_id` from the database's counts, reading
    /// a missing count as zero.
    pub fn from_counts(
        core_instance_id: &str,
        total_workers: Option<i64>,
        reachable_workers: Option<i64>,
        tcp_workers: Option<i64>,
        unix_workers: Option<i64>,
        recently_verified: Option<i64>,
        stale_entries: Option<i64>,
    ) -> (r: TransportAvailabilityStats)
        ensures
            r.core_instance_id@ == core_instance_id@,
            r.total_workers == count_or_zero(total_workers),
            r.reachable_workers == count_or_zero(reachable_workers),
            r.tcp_workers == count_or_zero(tcp_workers),
            r.unix_workers == count_or_zero(unix_workers),
            r.recently_verified == count_or_zero(recently_verified),
            r.stale_entries == count_or_zero(stale_entries),
    {
        TransportAvailabilityStats {
            core_instance_id: String::from_str(core_instance_id),
            total_workers: match total_workers { Some(n) => n, None => 0 },
            reachable_workers: match reachable_workers { Some(n) => n, None => 0 },
            tcp_workers: match tcp_workers { Some(n) => n, None => 0 },
            unix_workers: match unix_workers { Some(n) => n, None => 0 },
            recently_verified: match recently_verified { Some(n) => n, None => 0 },
            stale_entries: match stale_entries { Some(n) => n, None => 0 },
        }
    }
}

/// A transport's own name, in lowercase or in capitals, names it again.
pub proof fn lemma_lowercase_name_round_trip(t: TransportType)
    ensures
        transport_from_lowercase(transport_name(t)) == Some(t),
        is_ascii_text(transport_name(t)),
        ascii_lowercase(transport_name(t)) == transport_name(t),
        is_ascii_text(capitalized_name(t)),
        ascii_lowercase(capitalized_name(t)) == transport_name(t),
{
    reveal_strlit("tcp");
    reveal_strlit("unix");
    reveal_strlit("TCP");
    reveal_strlit("UNIX");
    assert("tcp"@[0] == 't');
    assert("unix"@[0] == 'u');
    assert(ascii_lowercase("tcp"@) =~= "tcp"@);
    assert(ascii_lowercase("unix"@) =~= "unix"@);
    assert(ascii_lowercase("TCP"@) =~= "tcp"@);
    assert(ascii_lowercase("UNIX"@) =~= "unix"@);
}

/// A transport's name in capitals.
pub open spec fn capitalized_name(t: TransportType) -> Seq<char> {
    match t {
        TransportType::Tcp => "TCP"@,
        TransportType::Unix => "UNIX"@,
    }
}

} // verus!
