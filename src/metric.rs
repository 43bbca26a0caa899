use vstd::prelude::*;
use vstd::string::*;

verus! {

/// `serde_json::Value`, a metric's free-form payload, carried as it is.
#[verifier::external_type_specification]
#[verifier::external_body]
pub struct ExValue(serde_json::Value);

/// `uuid::Uuid`, the key of a stored record, carried as it is.
#[verifier::external_type_specification]
#[verifier::external_body]
pub struct ExUuid(uuid::Uuid);

/// `chrono::NaiveDateTime`, a record's timestamp, carried as it is.
#[verifier::external_type_specification]
#[verifier::external_body]
pub struct ExNaiveDateTime(chrono::NaiveDateTime);

/// Relies on the derived `Clone` of `serde_json::Value`, used to copy a
/// metric's payload; nothing is claimed of the copy.
pub assume_specification[ <serde_json::Value as Clone>::clone ](v: &serde_json::Value) -> serde_json::Value;

/// Relies on `uuid::Uuid::new_v4`: a fresh random key. Nothing can be promised
/// of its value (it panics only when the system's random source fails).
#[verifier::external_body]
fn random_key() -> uuid::Uuid {
    uuid::Uuid::new_v4()
}

/// Relies on `chrono::Utc::now`, read as a naive UTC time: the current time,
/// of which nothing can be promised (it panics only on a system clock set
/// before 1970).
#[verifier::external_body]
fn utc_now() -> chrono::NaiveDateTime {
    chrono::Utc::now().naive_utc()
}

/// A metric as a client submits it.
#[derive(Debug, Clone)]
pub struct MetricPartial {
    /// The kind of the metric, written `domain.tld/kind`.
    pub kind: String,
    /// The data of the metric.
    pub data: serde_json::Value,
    /// Optional note about the metric.
    pub note: Option<String>,
}

/// A metric attributed to the node that saves it.
#[derive(Debug, Clone)]
pub struct MetricNodePartial {
    pub kind: String,
    pub node_name: String,
    pub data: serde_json::Value,
}

/// A metric as stored: keyed, and stamped with its creation and expiry time.
#[derive(Debug)]
pub struct MetricDb {
    pub key: uuid::Uuid,
    pub created_at: chrono::NaiveDateTime,
    pub expire_at: chrono::NaiveDateTime,
    pub node_name: String,
    pub kind: String,
    pub data: serde_json::Value,
}

/// Why a submitted metric is refused.
#[derive(Debug, Clone, Copy, PartialEq, Eq)]
pub enum MetricError {
    /// The kind is not of the form `domain.tld/kind`.
    InvalidKind,
}

/// How many times `c` occurs in `s`.
pub open spec fn count_char(s: Seq<char>, c: char) -> nat
    decreases s.len(),
{
    if s.len() == 0 {
        0
    } else {
        count_char(s.drop_last(), c) + if s.last() == c {
            1nat
        } else {
            0nat
        }
    }
}

/// A kind splits on `/` into exactly two parts: it holds exactly one `/`.
pub open spec fn valid_kind(kind: Seq<char>) -> bool {
    count_char(kind, '/') == 1
}

/// Counts the `/` in `s`, stopping once there are two.
fn slash_count(s: &str) -> (r: usize)
    ensures
        r == if count_char(s@, '/') < 2 {
            count_char(s@, '/')
        } else {
            2
        },
{
    let n = s.unicode_len();
    let mut count: usize = 0;
    let mut i: usize = 0;
    while i < n
        invariant
            i <= n == s@.len(),
            count == if count_char(s@.subrange(0, i as int), '/') < 2 {
                count_char(s@.subrange(0, i as int), '/')
            } else {
                2
            },
        decreases n - i,
    {
        assert(s@.subrange(0, i + 1).drop_last() =~= s@.subrange(0, i as int));
        if s.get_char(i) == '/' && count < 2 {
            count = count + 1;
        }
        i = i + 1;
    }
    assert(s@.subrange(0, i as int) =~= s@);
    count
}

impl MetricNodePartial {
    /// Attributes `item` to the node `node_name`, once its kind is checked.
    pub fn try_new_node(node_name: &str, item: &MetricPartial) -> (r: Result<Self, MetricError>)
        ensures
            r is Ok <==> valid_kind(item.kind@),
            r matches Ok(m) ==> m.node_name@ == node_name@ && m.kind@ == item.kind@,
            r matches Err(e) ==> e is InvalidKind,
    {
        if slash_count(item.kind.as_str()) != 1 {
            return Err(MetricError::InvalidKind);
        }
        Ok(
            MetricNodePartial {
                node_name: node_name.to_owned(),
                kind: item.kind.clone(),
                data: item.data.clone(),
            },
        )
    }
}

impl MetricDb {
    /// The stored form of `p`, under a fresh key, created and expiring now.
    pub fn from_node_partial(p: &MetricNodePartial) -> (r: MetricDb)
        ensures
            r.node_name@ == p.node_name@,
            r.kind@ == p.kind@,
    {
        MetricDb {
            key: random_key(),
            created_at: utc_now(),
            expire_at: utc_now(),
            node_name: p.node_name.clone(),
            kind: p.kind.clone(),
            data: p.data.clone(),
        }
    }
}

} // verus!
