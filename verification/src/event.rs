//! The advertisement event as the core reads it, and the sample derived
//! from one.

use vstd::prelude::*;

verus! {

/// Vendor-tagged byte payload of a BLE advertisement: a 16-bit company
/// identifier followed by vendor-defined bytes.
#[derive(Debug)]
pub struct ManufacturerData {
    pub company_id: u16,
    pub data: Vec<u8>,
}

/// One BLE advertisement event, reduced to the fields the core reads:
/// optional manufacturer data, optional device display name, optional
/// signal strength.
#[derive(Debug)]
pub struct AdvertisementEvent {
    pub manufacturer_data: Option<ManufacturerData>,
    pub name: Option<String>,
    pub rssi: Option<i16>,
}

/// A heart-rate reading extracted from one advertisement, together with
/// the device metadata surfaced for observability.
#[derive(Debug)]
pub struct HeartRateSample {
    pub heart_rate: u8,
    pub name: String,
    pub rssi: i16,
}

} // verus!
