//! A graphics card as a passive source of temperatures.

use crate::text::{decimal, owned, push_decimal};
use crate::types::{DeviceType, Sensor, SensorType, SensorUnit, VisibilityState};
use vstd::prelude::*;

verus! {

/// Pause between two readings, in milliseconds.
pub const POLL_INTERVAL_MS: u64 = 1000;

/// One temperature, in tenths of a degree Celsius.
#[derive(Debug, Clone, Copy)]
pub struct Reading {
    pub label: &'static str,
    pub tenths: i64,
}

/// Whether `s` shows reading `i` of the card `stable_id`.
pub open spec fn shows_reading(s: Sensor, stable_id: Seq<char>, i: int, r: Reading) -> bool {
    &&& s.id@ == stable_id + "_temp"@ + decimal((i + 1) as nat)
    &&& s.name@ == r.label@
    &&& s.tenths == r.tenths
    &&& s.unit == SensorUnit::Celsius
    &&& s.sensor_type == SensorType::Temperature
    &&& s.visibility == VisibilityState::Visible
}

/// Whether `sensors` show the readings of the card `stable_id`, one by one.
pub open spec fn show_readings(
    sensors: Seq<Sensor>,
    stable_id: Seq<char>,
    readings: Seq<Reading>,
) -> bool {
    &&& sensors.len() == readings.len()
    &&& forall|i: int|
        #![trigger sensors[i]]
        0 <= i < sensors.len() ==> shows_reading(sensors[i], stable_id, i, readings[i])
}

/// The readings as sensors, numbered from 1.
pub fn build_sensors(stable_id: &str, readings: &[Reading]) -> (r: Vec<Sensor>)
    ensures
        show_readings(r@, stable_id@, readings@),
{
    let n: usize = readings.len();
    let mut out: Vec<Sensor> = Vec::new();
    let mut i: usize = 0;
    while i < n
        invariant
            i <= n,
            n == readings@.len(),
            out@.len() == i,
            forall|k: int|
                #![trigger out@[k]]
                0 <= k < i ==> shows_reading(out@[k], stable_id@, k, readings@[k]),
        decreases n - i,
    {
        let mut id: String = owned(stable_id);
        id.append("_temp");
        push_decimal(&mut id, (i + 1) as u64);
        out.push(
            Sensor {
                id,
                name: owned(readings[i].label),
                tenths: readings[i].tenths,
                unit: SensorUnit::Celsius,
                sensor_type: SensorType::Temperature,
                visibility: VisibilityState::Visible,
            },
        );
        i = i + 1;
    }
    out
}

/// A card and its last readings.
#[derive(Debug)]
pub struct NvidiaSensorDevice {
    pub name: String,
    pub stable_id: String,
    pub cached: Vec<Reading>,
}

impl NvidiaSensorDevice {
    /// A card that has not been read yet.
    pub fn new(name: String, stable_id: String) -> (r: Self)
        ensures
            r.name == name,
            r.stable_id == stable_id,
            r.cached@.len() == 0,
    {
        NvidiaSensorDevice { name, stable_id, cached: Vec::new() }
    }

    /// Takes over a new set of readings.
    pub fn poll_once(&mut self, readings: Vec<Reading>)
        ensures
            final(self).cached == readings,
            final(self).name == old(self).name,
            final(self).stable_id == old(self).stable_id,
    {
        self.cached = readings;
    }

    /// The last readings as sensors.
    pub fn get_sensors(&self) -> (r: Vec<Sensor>)
        ensures
            show_readings(r@, self.stable_id@, self.cached@),
    {
        build_sensors(self.stable_id.as_str(), self.cached.as_slice())
    }

    /// The name shown for the card.
    pub fn name(&self) -> (r: &str)
        ensures
            r@ == self.name@,
    {
        self.name.as_str()
    }

    /// Who makes it.
    pub fn vendor(&self) -> (r: &'static str)
        ensures
            r == "NVIDIA",
    {
        "NVIDIA"
    }

    /// The model, which is the name of the board.
    pub fn model(&self) -> (r: &str)
        ensures
            r@ == self.name@,
    {
        self.name.as_str()
    }

    /// What kind of device this is.
    pub fn wire_device_type(&self) -> (r: DeviceType)
        ensures
            r == DeviceType::Sensor,
    {
        DeviceType::Sensor
    }
}

/// The id of the card that was found at a position.
pub fn indexed_id(index: usize) -> (r: String)
    ensures
        r@ == "nvidia_gpu_"@ + decimal(index as nat),
{
    let mut id: String = owned("nvidia_gpu_");
    push_decimal(&mut id, index as u64);
    id
}

/// The id of the card with a UUID.
pub fn uuid_id(uuid: &str) -> (r: String)
    ensures
        r@ == "nvidia_gpu_"@ + uuid@,
{
    let mut id: String = owned("nvidia_gpu_");
    id.append(uuid);
    id
}

/// Reading `i` is shown as sensor `i + 1` of the card, under its label and at its
/// temperature. All readings are shown, in order.
pub proof fn readings_are_shown_in_order(
    stable_id: &str,
    readings: &[Reading],
    r: Vec<Sensor>,
    i: int,
)
    requires
        call_ensures(build_sensors, (stable_id, readings), r),
        0 <= i < readings@.len(),
    ensures
        r@.len() == readings@.len(),
        r@[i].tenths == readings@[i].tenths,
        r@[i].name@ == readings@[i].label@,
        r@[i].id@ == stable_id@ + "_temp"@ + decimal((i + 1) as nat),
        r@[i].unit == SensorUnit::Celsius,
        r@[i].sensor_type == SensorType::Temperature,
        r@[i].visibility == VisibilityState::Visible,
{
    assert(shows_reading(r@[i], stable_id@, i, readings@[i]));
}

/// The readings that were taken last are those that are shown, under the id of the card;
/// a card that was not read shows none.
pub proof fn the_last_readings_are_shown(
    name: String,
    stable_id: String,
    fresh: NvidiaSensorDevice,
    none: Vec<Sensor>,
    d: &mut NvidiaSensorDevice,
    readings: Vec<Reading>,
    r: Vec<Sensor>,
    i: int,
)
    requires
        call_ensures(NvidiaSensorDevice::new, (name, stable_id), fresh),
        call_ensures(NvidiaSensorDevice::get_sensors, (&fresh,), none),
        *old(d) == fresh,
        call_ensures(NvidiaSensorDevice::poll_once, (d, readings), ()),
        call_ensures(NvidiaSensorDevice::get_sensors, (&*final(d),), r),
        0 <= i < readings@.len(),
    ensures
        none@.len() == 0,
        r@.len() == readings@.len(),
        r@[i].tenths == readings@[i].tenths,
        r@[i].name@ == readings@[i].label@,
        r@[i].id@ == stable_id@ + "_temp"@ + decimal((i + 1) as nat),
        final(d).name == name && final(d).stable_id == stable_id,
{
    assert(shows_reading(r@[i], stable_id@, i, readings@[i]));
}

/// A card is called by its name, which also is its model.
pub proof fn cards_go_by_their_name<'a>(d: &'a NvidiaSensorDevice, n: &'a str, m: &'a str)
    requires
        call_ensures(NvidiaSensorDevice::name, (d,), n),
        call_ensures(NvidiaSensorDevice::model, (d,), m),
    ensures
        n@ == d.name@ && m@ == d.name@,
{
}

/// Ids are `nvidia_gpu_` and the position in decimal, or the UUID as it is.
pub proof fn ids_follow_position_or_uuid(index: usize, uuid: &str, a: String, b: String)
    requires
        call_ensures(indexed_id, (index,), a),
        call_ensures(uuid_id, (uuid,), b),
    ensures
        a@ == "nvidia_gpu_"@ + decimal(index as nat),
        b@ == "nvidia_gpu_"@ + uuid@,
{
}

} // verus!
