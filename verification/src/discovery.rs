//! Decision logic of the discovery and connection state machine.
//!
//! The transport scans for advertising peripherals, polls the adapter's
//! currently-known peripherals once per second, and races that unbounded
//! polling loop against a ten-second timer. The decisions — which observed
//! peripheral matches, what one round of the race concludes, and which
//! characteristic of the connected peripheral carries the readings — are
//! made here, on the plain values the transport observed.

use vstd::prelude::*;
use crate::errors::ConnectionError;
use crate::uuids::CURRENT_READINGS_CHARACTERISTIC;

verus! {

/// Number of seconds the discovery scan may run before it fails.
pub const SEARCH_TIMEOUT_SECONDS: u64 = 10;

/// Number of seconds between two polls of the adapter's peripheral list.
pub const POLL_INTERVAL_SECONDS: u64 = 1;

/// The advertised-name prefix that identifies the device: `Aranet4`.
pub open spec fn device_name_prefix() -> Seq<u8> {
    seq![0x41u8, 0x72u8, 0x61u8, 0x6eu8, 0x65u8, 0x74u8, 0x34u8]
}

/// Whether an advertised local name identifies the device.
pub open spec fn name_matches(name: Seq<u8>) -> bool {
    name.len() >= 7 && name.subrange(0, 7) == device_name_prefix()
}

/// Whether one observed peripheral is a match: it must carry an advertised
/// local name, and the name must carry the device prefix. A peripheral
/// with no advertised name is never a match.
pub open spec fn peripheral_matches(name: Option<Vec<u8>>) -> bool {
    match name {
        None => false,
        Some(n) => name_matches(n@),
    }
}

/// Law: a peripheral with no advertised name is never classified as a
/// match, whatever the scan filter surfaced it for.
pub proof fn lemma_unnamed_peripheral_never_matches()
    ensures
        !peripheral_matches(None::<Vec<u8>>),
{
}

/// Decide whether an advertised local name identifies the device.
pub fn matches_device_name(name: &Vec<u8>) -> (r: bool)
    ensures
        r == name_matches(name@),
{
    let prefix: Vec<u8> = vec![0x41u8, 0x72u8, 0x61u8, 0x6eu8, 0x65u8, 0x74u8, 0x34u8];
    proof {
        assert(prefix@ =~= device_name_prefix());
    }
    if name.len() < 7 {
        return false;
    }
    let mut j: usize = 0;
    while j < 7
        invariant
            0 <= j <= 7,
            name@.len() >= 7,
            prefix@ == device_name_prefix(),
            forall|k: int| 0 <= k < j ==> name@[k] == device_name_prefix()[k],
        decreases 7 - j,
    {
        if name[j] != prefix[j] {
            return false;
        }
        j = j + 1;
    }
    proof {
        assert(name@.subrange(0, 7) =~= device_name_prefix());
    }
    true
}

/// Find the first matching peripheral in one poll of the adapter's
/// peripheral list, given each peripheral's advertised local name, or
/// nothing where none matches. Unnamed peripherals are skipped, never
/// treated as matches or as errors.
pub fn find_matching_peripheral(names: &Vec<Option<Vec<u8>>>) -> (r: Option<usize>)
    ensures
        r matches Some(i) ==> {
            &&& i < names@.len()
            &&& peripheral_matches(names@[i as int])
            &&& forall|j: int| 0 <= j < i ==> !peripheral_matches(#[trigger] names@[j])
        },
        r is None ==> forall|j: int| 0 <= j < names@.len() ==> !peripheral_matches(
            #[trigger] names@[j],
        ),
{
    let mut i: usize = 0;
    while i < names.len()
        invariant
            0 <= i <= names@.len(),
            forall|j: int| 0 <= j < i ==> !peripheral_matches(#[trigger] names@[j]),
        decreases names@.len() - i,
    {
        match &names[i] {
            None => {},
            Some(name) => {
                if matches_device_name(name) {
                    return Some(i);
                }
            },
        }
        i = i + 1;
    }
    None
}

/// One observation the discovery race hands to the state machine: either
/// a poll of the advertised peripherals, each with its optional local
/// name, or the expiry of the discovery timer.
pub enum SearchEvent {
    PeripheralsSeen(Vec<Option<Vec<u8>>>),
    TimerElapsed,
}

/// What discovery does next after one observation.
#[derive(Debug, PartialEq, Eq, Clone)]
pub enum SearchDecision {
    /// Connect to the peripheral at this index of the poll just seen.
    Connect(usize),
    /// Nothing matched yet: poll again after the poll interval.
    KeepPolling,
    /// Discovery failed; carries the error to surface to the caller.
    GiveUp(ConnectionError),
}

/// Advance the discovery race by one observation.
///
/// The timer elapsing always ends the search with `SearchTimeout` — never
/// an empty success. A poll connects to the first matching peripheral or
/// keeps polling; it never gives up on its own, so the polling loop is
/// bounded only by the timer.
pub fn search_step(event: &SearchEvent) -> (r: SearchDecision)
    ensures
        event is TimerElapsed ==> r == SearchDecision::GiveUp(ConnectionError::SearchTimeout),
        event matches SearchEvent::PeripheralsSeen(names) ==> match r {
            SearchDecision::Connect(i) => {
                &&& i < names@.len()
                &&& peripheral_matches(names@[i as int])
                &&& forall|j: int| 0 <= j < i ==> !peripheral_matches(#[trigger] names@[j])
            },
            SearchDecision::KeepPolling => forall|j: int|
                0 <= j < names@.len() ==> !peripheral_matches(#[trigger] names@[j]),
            SearchDecision::GiveUp(_) => false,
        },
{
    match event {
        SearchEvent::TimerElapsed => SearchDecision::GiveUp(ConnectionError::SearchTimeout),
        SearchEvent::PeripheralsSeen(names) => match find_matching_peripheral(names) {
            Some(i) => SearchDecision::Connect(i),
            None => SearchDecision::KeepPolling,
        },
    }
}

/// Find the characteristic that carries the current readings among those
/// the connected peripheral resolved, given their UUIDs in order. Absence
/// is `CharacteristicNotFound` naming the UUID looked for.
pub fn find_current_readings(char_uuids: &Vec<u128>) -> (r: Result<usize, ConnectionError>)
    ensures
        r matches Ok(i) ==> {
            &&& i < char_uuids@.len()
            &&& char_uuids@[i as int] == CURRENT_READINGS_CHARACTERISTIC
            &&& forall|j: int| 0 <= j < i ==> char_uuids@[j] != CURRENT_READINGS_CHARACTERISTIC
        },
        r matches Err(e) ==> {
            &&& e == ConnectionError::CharacteristicNotFound(CURRENT_READINGS_CHARACTERISTIC)
            &&& forall|j: int| 0 <= j < char_uuids@.len() ==> char_uuids@[j]
                != CURRENT_READINGS_CHARACTERISTIC
        },
{
    let mut i: usize = 0;
    while i < char_uuids.len()
        invariant
            0 <= i <= char_uuids@.len(),
            forall|j: int| 0 <= j < i ==> char_uuids@[j] != CURRENT_READINGS_CHARACTERISTIC,
        decreases char_uuids@.len() - i,
    {
        if char_uuids[i] == CURRENT_READINGS_CHARACTERISTIC {
            return Ok(i);
        }
        i = i + 1;
    }
    Err(ConnectionError::CharacteristicNotFound(CURRENT_READINGS_CHARACTERISTIC))
}

/// What a measurement read must do before it reads, given the platform's
/// current connectivity report.
#[derive(Debug, PartialEq, Eq, Clone, Copy, Structural)]
pub enum ReadPreparation {
    /// The transport reports the device connected: read directly.
    Proceed,
    /// The transport reports the device disconnected: reconnect first,
    /// then read — a self-healing read, not a hard failure on staleness.
    ReconnectFirst,
}

/// Decide how a measurement read begins. Connectivity is re-checked on
/// every read; the handle never caches "connected" as truth.
pub fn prepare_read(connected: bool) -> (r: ReadPreparation)
    ensures
        r == (if connected {
            ReadPreparation::Proceed
        } else {
            ReadPreparation::ReconnectFirst
        }),
{
    if connected {
        ReadPreparation::Proceed
    } else {
        ReadPreparation::ReconnectFirst
    }
}

} // verus!
