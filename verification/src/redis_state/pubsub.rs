//! Configuration change events broadcast between instances.

use vstd::prelude::*;
use crate::clock::unix_time_millis;

verus! {

/// A change to a configuration entity.
#[derive(Debug, Clone, PartialEq)]
pub struct ConfigChangeEvent {
    /// The entity type (e.g. "endpoint", "gateway", "trunk").
    pub entity_type: String,
    /// The name of the affected entity.
    pub entity_name: String,
    /// The action performed: "created", "updated" or "deleted".
    pub action: String,
    /// When the event was produced, in milliseconds since the Unix epoch.
    pub timestamp: i64,
}

/// The event timestamp for a clock reading of `now_ms` milliseconds since
/// the Unix epoch: the reading itself, capped at `i64::MAX`.
pub open spec fn stamp_of(now_ms: u64) -> i64 {
    if now_ms > i64::MAX as u64 {
        i64::MAX
    } else {
        now_ms as i64
    }
}

impl ConfigChangeEvent {
    /// An event stamped with the clock reading `now_ms`, in milliseconds
    /// since the Unix epoch.
    pub fn new_at(entity_type: &str, entity_name: &str, action: &str, now_ms: u64) -> (r: Self)
        ensures
            r.entity_type@ == entity_type@,
            r.entity_name@ == entity_name@,
            r.action@ == action@,
            r.timestamp == stamp_of(now_ms),
    {
        ConfigChangeEvent {
            entity_type: entity_type.to_owned(),
            entity_name: entity_name.to_owned(),
            action: action.to_owned(),
            timestamp: millis_stamp(now_ms),
        }
    }

    /// An event stamped with the current time: [`ConfigChangeEvent::new_at`]
    /// at whatever the clock read (0 before the epoch).
    pub fn new(entity_type: &str, entity_name: &str, action: &str) -> (r: Self)
        ensures
            r.entity_type@ == entity_type@,
            r.entity_name@ == entity_name@,
            r.action@ == action@,
            exists|now_ms: u64| r.timestamp == #[trigger] stamp_of(now_ms),
    {
        let now_ms = unix_time_millis();
        let r = ConfigChangeEvent::new_at(entity_type, entity_name, action, now_ms);
        assert(r.timestamp == stamp_of(now_ms));
        r
    }
}

/// The timestamp of a clock reading of `now_ms` milliseconds.
fn millis_stamp(now_ms: u64) -> (r: i64)
    ensures
        r == stamp_of(now_ms),
{
    if now_ms > i64::MAX as u64 {
        i64::MAX
    } else {
        now_ms as i64
    }
}

/// The current time in milliseconds since the Unix epoch (0 before it).
pub fn now_millis() -> (r: i64)
    ensures
        exists|now_ms: u64| r == #[trigger] stamp_of(now_ms),
{
    let now_ms = unix_time_millis();
    let r = millis_stamp(now_ms);
    assert(r == stamp_of(now_ms));
    r
}

} // verus!
