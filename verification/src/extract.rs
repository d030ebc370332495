//! Advertisement filter and extractor: decides whether one advertisement
//! event carries a recognized heart-rate payload and, if so, extracts the
//! sample and the device metadata.

use vstd::prelude::*;
use vstd::string::StringExecFns;

use crate::event::{AdvertisementEvent, HeartRateSample};

verus! {

/// Company identifier of the target heart-rate-monitor vendor.
pub const TARGET_COMPANY_ID: u16 = 0x0157;

/// Byte offset of the heart-rate value within the manufacturer payload.
pub const HEART_RATE_OFFSET: usize = 3;

/// An event is recognized when it carries manufacturer data with the
/// target vendor's company identifier and a payload long enough to hold
/// the heart-rate byte.
pub open spec fn event_matches(e: AdvertisementEvent) -> bool {
    &&& e.manufacturer_data is Some
    &&& e.manufacturer_data->0.company_id == TARGET_COMPANY_ID
    &&& e.manufacturer_data->0.data@.len() > HEART_RATE_OFFSET
}

/// The heart-rate byte of a recognized event.
pub open spec fn extracted_rate(e: AdvertisementEvent) -> u8
    recommends
        event_matches(e),
{
    e.manufacturer_data->0.data@[HEART_RATE_OFFSET as int]
}

/// The display name surfaced for an event: the device's name, or a
/// placeholder when it has none.
pub open spec fn display_name(e: AdvertisementEvent) -> Seq<char> {
    match e.name {
        Some(n) => n@,
        None => "(unknown)"@,
    }
}

/// The signal strength surfaced for an event: the reported value, or
/// zero when none was reported.
pub open spec fn signal_strength(e: AdvertisementEvent) -> i16 {
    match e.rssi {
        Some(r) => r,
        None => 0,
    }
}

/// What extraction yields on a recognized event.
pub open spec fn sample_of(e: AdvertisementEvent, s: HeartRateSample) -> bool {
    &&& s.heart_rate == extracted_rate(e)
    &&& s.name@ == display_name(e)
    &&& s.rssi == signal_strength(e)
}

/// Filters one advertisement event and extracts its heart-rate sample.
///
/// Returns a sample exactly when the event carries manufacturer data with
/// the target company identifier and at least four payload bytes; an event
/// without manufacturer data, with another vendor's identifier, or with a
/// payload too short for the heart-rate byte yields nothing.
pub fn extract_sample(e: &AdvertisementEvent) -> (r: Option<HeartRateSample>)
    ensures
        r is Some <==> event_matches(*e),
        r is Some ==> sample_of(*e, r->0),
{
    match &e.manufacturer_data {
        Some(md) => {
            if md.company_id != TARGET_COMPANY_ID {
                return None;
            }
            if md.data.len() <= HEART_RATE_OFFSET {
                return None;
            }
            let heart_rate = md.data[HEART_RATE_OFFSET];
            let name = match &e.name {
                Some(n) => n.clone(),
                None => String::from_str("(unknown)"),
            };
            let rssi = match e.rssi {
                Some(r) => r,
                None => 0,
            };
            Some(HeartRateSample { heart_rate, name, rssi })
        },
        None => None,
    }
}

} // verus!
