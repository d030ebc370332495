//! Single-slot latest-value store: holds the most recently extracted
//! heart-rate sample as text, initialized empty, replaced wholesale on
//! every write, and read arbitrarily often.
//!
//! The store is an explicitly owned component: the host hands it to both
//! the scan pipeline (which writes) and the query side (which reads).
//! Each operation touches the slot as a single unit, so a reader observes
//! either the initial empty text or the complete text of some previously
//! reported sample, never a partial value.

use vstd::prelude::*;

use crate::event::{AdvertisementEvent, HeartRateSample};
use crate::extract::{extract_sample, event_matches, extracted_rate, sample_of};
use crate::text::{dec_val, lemma_u8_dec_str_value, u8_dec_str, u8_to_dec_string};

verus! {

/// The single slot holding the latest heart-rate value as text.
#[derive(Debug)]
pub struct HeartRateStore {
    latest: String,
}

impl View for HeartRateStore {
    type V = Seq<char>;

    closed spec fn view(&self) -> Seq<char> {
        self.latest@
    }
}

impl HeartRateStore {
    /// The slot only ever holds the initial empty text or the decimal
    /// text of some byte value.
    pub open spec fn wf(self) -> bool {
        self@ == Seq::<char>::empty() || exists|v: u8| self@ == u8_dec_str(v)
    }

    /// Creates the store in its initial state: the empty text.
    pub fn new() -> (r: HeartRateStore)
        ensures
            r@ == Seq::<char>::empty(),
            r.wf(),
    {
        HeartRateStore { latest: String::new() }
    }

    /// Replaces the slot's contents with the decimal text of `v`.
    pub fn report_sample(&mut self, v: u8)
        ensures
            final(self)@ == u8_dec_str(v),
            final(self).wf(),
    {
        self.latest = u8_to_dec_string(v);
        proof {
            assert(exists|w: u8| self@ == u8_dec_str(w)) by {
                assert(self@ == u8_dec_str(v));
            }
        }
    }

    /// Returns the slot's current contents: the empty text before any
    /// report, else the text of the latest reported sample.
    pub fn query_latest(&self) -> (r: String)
        ensures
            r@ == self@,
    {
        self.latest.clone()
    }

    /// Reads the slot, as [`Self::query_latest`] does.
    pub fn use_global_value(&self) -> (r: String)
        ensures
            r@ == self@,
    {
        self.query_latest()
    }
}

/// Read-after-write: once `report_sample(v)` has completed, the store's
/// contents are the decimal text of `v`, and that text denotes exactly
/// `v`; since `query_latest` returns exactly the store's contents, every
/// query between that report and the next one returns the text of `v`.
pub proof fn lemma_read_after_write(st: HeartRateStore, v: u8)
    requires
        st@ == u8_dec_str(v),
    ensures
        dec_val(st@) == v,
{
    lemma_u8_dec_str_value(v);
}

/// Handles one advertisement event: extracts a sample if the event is
/// recognized and reports it to the store, else leaves the store as it was.
///
/// Returns the extracted sample, so that the caller can surface the
/// device's name and signal strength.
pub fn handle_advertisement(store: &mut HeartRateStore, e: &AdvertisementEvent) -> (r: Option<
    HeartRateSample,
>)
    ensures
        r is Some <==> event_matches(*e),
        r is Some ==> sample_of(*e, r->0),
        event_matches(*e) ==> final(store)@ == u8_dec_str(extracted_rate(*e)),
        !event_matches(*e) ==> *final(store) == *old(store),
        old(store).wf() ==> final(store).wf(),
{
    match extract_sample(e) {
        Some(sample) => {
            store.report_sample(sample.heart_rate);
            Some(sample)
        },
        None => None,
    }
}

} // verus!
