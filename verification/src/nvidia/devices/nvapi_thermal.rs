//! What NvAPI reports of cards and their temperatures.

use crate::nvidia::devices::gpu_sensor_common::Reading;
use crate::text::{from_utf8_lossy, owned, push_upper_hex, upper_hex, utf8_lossy};
use vstd::prelude::*;
use vstd::slice::*;

verus! {

/// The result code of success.
pub const NVAPI_OK: i32 = 0;

/// How many cards an enumeration has room for.
pub const NVAPI_MAX_GPUS: usize = 64;

/// How many sensors a card reports at most.
pub const NVAPI_MAX_THERMAL_SENSORS_PER_GPU: usize = 3;

/// Length of the buffer for a card's name.
pub const NVAPI_SHORT_STRING_MAX: usize = 64;

/// Asks for all sensors of a card.
pub const THERMAL_TARGET_ALL: u32 = 15;

/// Size of the settings record, in bytes.
pub const SETTINGS_SIZE: u32 = 68;

/// Version of the settings record.
pub const SETTINGS_VERSION: u32 = 2;

/// One sensor of a card, in whole degrees.
#[derive(Debug, Clone, Copy, PartialEq, Eq, Structural)]
pub struct NvThermalSensor {
    pub controller: u32,
    pub default_min_temp: i32,
    pub default_max_temp: i32,
    pub current_temp: i32,
    pub target: u32,
}

/// The sensors of a card.
#[derive(Debug, Clone, Copy)]
pub struct NvThermalSettings {
    pub version: u32,
    pub count: u32,
    pub sensor: [NvThermalSensor; 3],
}

/// A sensor of which nothing is known.
pub open spec fn no_sensor() -> NvThermalSensor {
    NvThermalSensor {
        controller: 0,
        default_min_temp: 0,
        default_max_temp: 0,
        current_temp: 0,
        target: 0,
    }
}

impl NvThermalSettings {
    /// A record to be filled in.
    pub fn zeroed() -> (r: Self)
        ensures
            r.version == SETTINGS_SIZE + SETTINGS_VERSION * 0x10000,
            r.count == 0,
            r.sensor@ == seq![no_sensor(), no_sensor(), no_sensor()],
    {
        let blank = NvThermalSensor {
            controller: 0,
            default_min_temp: 0,
            default_max_temp: 0,
            current_temp: 0,
            target: 0,
        };
        let sensor: [NvThermalSensor; 3] = [blank, blank, blank];
        proof {
            assert(sensor@ =~= seq![no_sensor(), no_sensor(), no_sensor()]);
        }
        NvThermalSettings { version: Self::nvapi_version(), count: 0, sensor }
    }

    /// The version word: the size of the record in the low half, its version in the high
    /// half.
    pub fn nvapi_version() -> (r: u32)
        ensures
            r == SETTINGS_SIZE + SETTINGS_VERSION * 0x10000,
    {
        SETTINGS_SIZE + SETTINGS_VERSION * 0x10000
    }
}

/// A card.
#[derive(Debug)]
pub struct NvGpu {
    pub handle: u64,
    pub name: String,
}

/// The length of a text that ends at the first zero byte, or with the buffer.
pub open spec fn text_len(buf: Seq<u8>) -> nat
    decreases buf.len(),
{
    if buf.len() == 0 || buf[0] == 0 {
        0
    } else {
        1 + text_len(buf.skip(1))
    }
}

/// The name of a card: what the buffer holds up to its first zero byte, or its handle where
/// there is no buffer.
pub open spec fn gpu_name(handle: u64, buf: Option<Seq<u8>>) -> Seq<char> {
    match buf {
        Some(b) => utf8_lossy(b.take(text_len(b) as int)),
        None => "NVIDIA GPU 0x"@ + upper_hex(handle as nat, 8),
    }
}

/// The text in a buffer ends where a zero stands or the buffer does.
proof fn lemma_text_len(buf: Seq<u8>, n: int)
    requires
        0 <= n <= buf.len(),
        n == buf.len() || buf[n] == 0,
        forall|i: int| 0 <= i < n ==> buf[i] != 0,
    ensures
        text_len(buf) == n,
    decreases buf.len(),
{
    if n > 0 {
        assert(buf.skip(1).len() == buf.len() - 1);
        assert forall|i: int| 0 <= i < n - 1 implies buf.skip(1)[i] != 0 by {
            assert(buf.skip(1)[i] == buf[i + 1]);
        }
        lemma_text_len(buf.skip(1), n - 1);
    }
}

/// Names a card.
fn name_of(handle: u64, buf: &Option<Vec<u8>>) -> (r: String)
    ensures
        r@ == gpu_name(
            handle,
            match *buf {
                Some(b) => Some(b@),
                None => None,
            },
        ),
{
    match buf {
        Some(b) => {
            let n: usize = b.len();
            let mut end: usize = 0;
            while end < n && b[end] != 0
                invariant
                    end <= n,
                    n == b@.len(),
                    forall|i: int| 0 <= i < end ==> b@[i] != 0,
                decreases n - end,
            {
                end = end + 1;
            }
            proof {
                lemma_text_len(b@, end as int);
                assert(b@.subrange(0, end as int) =~= b@.take(end as int));
            }
            from_utf8_lossy(slice_subrange(b.as_slice(), 0, end))
        },
        None => {
            let mut name: String = owned("NVIDIA GPU 0x");
            push_upper_hex(&mut name, handle, 8);
            name
        },
    }
}

/// One enumerated card: its handle, and its name buffer where asking for it succeeded.
#[derive(Debug)]
pub struct EnumeratedGpu {
    pub handle: u64,
    pub name: Option<Vec<u8>>,
}

/// The name buffer of an enumerated card.
pub open spec fn name_buffer(e: EnumeratedGpu) -> Option<Seq<u8>> {
    match e.name {
        Some(b) => Some(b@),
        None => None,
    }
}

/// The cards among the enumerated ones: those with a handle.
pub open spec fn known_gpus(found: Seq<EnumeratedGpu>) -> Seq<(u64, Seq<char>)>
    decreases found.len(),
{
    if found.len() == 0 {
        Seq::empty()
    } else if found.last().handle == 0 {
        known_gpus(found.drop_last())
    } else {
        known_gpus(found.drop_last()).push(
            (found.last().handle, gpu_name(found.last().handle, name_buffer(found.last()))),
        )
    }
}

/// Cards as pairs of handle and name.
pub open spec fn gpu_views(gpus: Seq<NvGpu>) -> Seq<(u64, Seq<char>)> {
    Seq::new(gpus.len(), |i: int| (gpus[i].handle, gpus[i].name@))
}

/// The cards of an enumeration that reported `count` of them; entries past the count and
/// entries without a handle are none.
pub fn enumerate_gpus(found: &[EnumeratedGpu], count: u32) -> (r: Vec<NvGpu>)
    ensures
        gpu_views(r@) == known_gpus(
            if count < found@.len() {
                found@.take(count as int)
            } else {
                found@
            },
        ),
{
    let n: usize = if (count as usize) < found.len() {
        count as usize
    } else {
        found.len()
    };
    let mut out: Vec<NvGpu> = Vec::new();
    let mut i: usize = 0;
    while i < n
        invariant
            i <= n <= found@.len(),
            gpu_views(out@) =~= known_gpus(found@.take(i as int)),
        decreases n - i,
    {
        let handle: u64 = found[i].handle;
        proof {
            assert(found@.take(i + 1).drop_last() =~= found@.take(i as int));
        }
        if handle != 0 {
            let name: String = name_of(handle, &found[i].name);
            let ghost before = gpu_views(out@);
            out.push(NvGpu { handle, name });
            proof {
                assert(gpu_views(out@) =~= before.push((handle, name@)));
            }
        }
        i = i + 1;
    }
    proof {
        if n == found@.len() {
            assert(found@.take(n as int) =~= found@);
        }
    }
    out
}

/// The name of a sensor by what it measures; `None` for what is not shown.
pub open spec fn target_label(target: u32) -> Option<&'static str> {
    if target == 1 {
        Some("GPU Core")
    } else if target == 2 {
        Some("GPU Memory Junction")
    } else if target == 3 {
        Some("Power Supply")
    } else if target == 4 {
        Some("GPU Board")
    } else if target == 5 {
        Some("Visual Computing Board")
    } else if target == 6 {
        Some("Visual Computing Inlet")
    } else if target == 7 {
        Some("Visual Computing Outlet")
    } else {
        None
    }
}

/// Names a sensor.
fn label_of(target: u32) -> (r: Option<&'static str>)
    ensures
        r == target_label(target),
{
    match target {
        1 => Some("GPU Core"),
        2 => Some("GPU Memory Junction"),
        3 => Some("Power Supply"),
        4 => Some("GPU Board"),
        5 => Some("Visual Computing Board"),
        6 => Some("Visual Computing Inlet"),
        7 => Some("Visual Computing Outlet"),
        _ => None,
    }
}

/// The readings of the sensors that have a name.
pub open spec fn named_readings(sensors: Seq<NvThermalSensor>) -> Seq<Reading>
    decreases sensors.len(),
{
    if sensors.len() == 0 {
        Seq::empty()
    } else {
        let rest = named_readings(sensors.drop_last());
        match target_label(sensors.last().target) {
            Some(label) => rest.push(
                Reading { label, tenths: (sensors.last().current_temp * 10) as i64 },
            ),
            None => rest,
        }
    }
}

/// Why temperatures could not be read.
#[derive(Debug, Clone, Copy, PartialEq, Eq, Structural)]
pub struct ThermalFailed {
    pub rc: i32,
}

/// The temperatures in a record that came back with a result code.
pub fn read_temperatures(rc: i32, settings: &NvThermalSettings) -> (r: Result<
    Vec<Reading>,
    ThermalFailed,
>)
    ensures
        match r {
            Ok(readings) => rc == NVAPI_OK && readings@ == named_readings(
                settings.sensor@.take(
                    if settings.count < NVAPI_MAX_THERMAL_SENSORS_PER_GPU {
                        settings.count as int
                    } else {
                        NVAPI_MAX_THERMAL_SENSORS_PER_GPU as int
                    },
                ),
            ),
            Err(e) => rc != NVAPI_OK && e == (ThermalFailed { rc }),
        },
{
    if rc != NVAPI_OK {
        return Err(ThermalFailed { rc });
    }
    let count: usize = if settings.count < 3 {
        settings.count as usize
    } else {
        NVAPI_MAX_THERMAL_SENSORS_PER_GPU
    };
    let mut out: Vec<Reading> = Vec::new();
    let mut i: usize = 0;
    while i < count
        invariant
            i <= count <= 3,
            settings.sensor@.len() == 3,
            out@ == named_readings(settings.sensor@.take(i as int)),
        decreases count - i,
    {
        let sensor: NvThermalSensor = settings.sensor[i];
        proof {
            assert(settings.sensor@.take(i + 1).drop_last() =~= settings.sensor@.take(i as int));
        }
        if let Some(label) = label_of(sensor.target) {
            out.push(Reading { label, tenths: sensor.current_temp as i64 * 10 });
        }
        i = i + 1;
    }
    Ok(out)
}

/// The version word has the size, 68, in its low half and the version, 2, in its high
/// half, and a fresh record carries it with no sensors.
pub proof fn fresh_records_carry_their_version(v: u32, s: NvThermalSettings, i: int)
    requires
        call_ensures(NvThermalSettings::nvapi_version, (), v),
        call_ensures(NvThermalSettings::zeroed, (), s),
        0 <= i < 3,
    ensures
        v % 0x10000 == 68 && v / 0x10000 == 2,
        s.version == v,
        s.count == 0,
        s.sensor@[i].controller == 0 && s.sensor@[i].target == 0 && s.sensor@[i].current_temp == 0,
        s.sensor@[i].default_min_temp == 0 && s.sensor@[i].default_max_temp == 0,
{
}

/// What a sensor is called by its target.
pub open spec fn is_called(target: u32, label: &'static str) -> bool {
    ||| target == 1 && label == "GPU Core"
    ||| target == 2 && label == "GPU Memory Junction"
    ||| target == 3 && label == "Power Supply"
    ||| target == 4 && label == "GPU Board"
    ||| target == 5 && label == "Visual Computing Board"
    ||| target == 6 && label == "Visual Computing Inlet"
    ||| target == 7 && label == "Visual Computing Outlet"
}

/// A record that came back with another code than zero fails with that code. Of a good
/// one, each of the first three sensors within the count whose target is 1 to 7 is read,
/// in tenths of a degree under the name of its target; whatever is read is one of these.
pub proof fn sensors_are_read_by_their_target(
    rc: i32,
    s: NvThermalSettings,
    r: Result<Vec<Reading>, ThermalFailed>,
    i: int,
)
    requires
        call_ensures(read_temperatures, (rc, &s), r),
    ensures
        r is Ok <==> rc == 0,
        r matches Err(e) ==> e.rc == rc,
        r is Ok && 0 <= i < 3 && i < s.count && 1 <= s.sensor@[i].target <= 7 ==> exists|k: int|
            0 <= k < r->Ok_0@.len() && is_called(
                s.sensor@[i].target,
                (#[trigger] r->Ok_0@[k]).label,
            ) && r->Ok_0@[k].tenths == 10 * s.sensor@[i].current_temp,
        r is Ok && 0 <= i < r->Ok_0@.len() ==> exists|k: int|
            0 <= k < 3 && k < s.count && is_called(
                (#[trigger] s.sensor@[k]).target,
                r->Ok_0@[i].label,
            ) && r->Ok_0@[i].tenths == 10 * s.sensor@[k].current_temp,
        r is Ok ==> r->Ok_0@.len() <= 3 && r->Ok_0@.len() <= s.count,
{
    let n: int = if s.count < 3 {
        s.count as int
    } else {
        3
    };
    let taken = s.sensor@.take(n);
    lemma_named(taken);
    if r is Ok && 0 <= i < n && 1 <= s.sensor@[i].target <= 7 {
        assert(taken[i] == s.sensor@[i]);
        let k = choose|k: int|
            0 <= k < named_readings(taken).len() && reads(
                taken[i],
                #[trigger] named_readings(taken)[k],
            );
        assert(r->Ok_0@[k].tenths == 10 * s.sensor@[i].current_temp);
    }
    if r is Ok && 0 <= i < r->Ok_0@.len() {
        assert(named_readings(taken)[i] == r->Ok_0@[i]);
        let k = choose|k: int|
            0 <= k < taken.len() && reads(#[trigger] taken[k], named_readings(taken)[i]);
        assert(taken[k] == s.sensor@[k]);
    }
}

/// Whether a reading is that of a sensor.
spec fn reads(s: NvThermalSensor, r: Reading) -> bool {
    is_called(s.target, r.label) && r.tenths == 10 * s.current_temp
}

/// Sensors with a name and readings stand for one another.
proof fn lemma_named(sensors: Seq<NvThermalSensor>)
    ensures
        named_readings(sensors).len() <= sensors.len(),
        forall|i: int|
            #![trigger sensors[i]]
            0 <= i < sensors.len() && 1 <= sensors[i].target <= 7 ==> exists|k: int|
                0 <= k < named_readings(sensors).len() && reads(
                    sensors[i],
                    #[trigger] named_readings(sensors)[k],
                ),
        forall|k: int|
            #![trigger named_readings(sensors)[k]]
            0 <= k < named_readings(sensors).len() ==> exists|i: int|
                0 <= i < sensors.len() && reads(#[trigger] sensors[i], named_readings(sensors)[k]),
    decreases sensors.len(),
{
    if sensors.len() > 0 {
        let shorter = sensors.drop_last();
        let before = named_readings(shorter);
        let all = named_readings(sensors);
        let last = sensors.len() - 1;
        lemma_named(shorter);
        assert forall|i: int|
            #![trigger sensors[i]]
            0 <= i < sensors.len() && 1 <= sensors[i].target <= 7 implies exists|k: int|
            0 <= k < all.len() && reads(sensors[i], #[trigger] all[k]) by {
            if i < last {
                assert(shorter[i] == sensors[i]);
                let k = choose|k: int|
                    0 <= k < before.len() && reads(shorter[i], #[trigger] before[k]);
                assert(all[k] == before[k]);
            } else {
                assert(reads(sensors[i], all[all.len() - 1]));
            }
        }
        assert forall|k: int| #![trigger all[k]] 0 <= k < all.len() implies exists|i: int|
            0 <= i < sensors.len() && reads(#[trigger] sensors[i], all[k]) by {
            if k < before.len() {
                assert(all[k] == before[k]);
                let i = choose|i: int|
                    0 <= i < shorter.len() && reads(#[trigger] shorter[i], before[k]);
                assert(sensors[i] == shorter[i]);
            } else {
                assert(reads(sensors[last], all[k]));
            }
        }
    }
}

/// A card that was enumerated within the count with a handle other than zero is listed
/// with that handle, under the text before the first zero byte of its name, or under its
/// handle in eight upper-case hex digits. Whatever is listed has such a handle.
pub proof fn cards_are_listed_by_their_handle(
    found: &[EnumeratedGpu],
    count: u32,
    r: Vec<NvGpu>,
    i: int,
    n: int,
)
    requires
        call_ensures(enumerate_gpus, (found, count), r),
        0 <= i < found@.len(),
        i < count,
        found@[i].name matches Some(b) ==> {
            &&& 0 <= n <= b@.len()
            &&& n < b@.len() ==> b@[n] == 0
            &&& forall|j: int| 0 <= j < n ==> #[trigger] b@[j] != 0
        },
    ensures
        found@[i].handle != 0 ==> exists|k: int|
            #![trigger r@[k]]
            0 <= k < r@.len() && r@[k].handle == found@[i].handle && r@[k].name@ == match found@[
                i
            ].name {
                Some(b) => utf8_lossy(b@.take(n)),
                None => "NVIDIA GPU 0x"@ + upper_hex(found@[i].handle as nat, 8),
            },
        forall|k: int| 0 <= k < r@.len() ==> (#[trigger] r@[k]).handle != 0,
        r@.len() <= count && r@.len() <= found@.len(),
{
    let taken = if count < found@.len() {
        found@.take(count as int)
    } else {
        found@
    };
    let all = known_gpus(taken);
    lemma_known(taken);
    assert(gpu_views(r@) == all);
    assert forall|k: int| 0 <= k < r@.len() implies (#[trigger] r@[k]).handle != 0 by {
        assert(gpu_views(r@)[k].0 == r@[k].handle);
    }
    if found@[i].handle != 0 {
        assert(taken[i] == found@[i]);
        if let Some(b) = found@[i].name {
            lemma_text_len(b@, n);
        }
        let k = choose|k: int|
            #![trigger all[k]]
            0 <= k < all.len() && all[k] == (
                taken[i].handle,
                gpu_name(taken[i].handle, name_buffer(taken[i])),
            );
        assert(gpu_views(r@)[k] == (r@[k].handle, r@[k].name@));
    }
}

/// Cards with a handle are known.
proof fn lemma_known(found: Seq<EnumeratedGpu>)
    ensures
        known_gpus(found).len() <= found.len(),
        forall|i: int|
            #![trigger found[i]]
            0 <= i < found.len() && found[i].handle != 0 ==> exists|k: int|
                #![trigger known_gpus(found)[k]]
                0 <= k < known_gpus(found).len() && known_gpus(found)[k] == (
                    found[i].handle,
                    gpu_name(found[i].handle, name_buffer(found[i])),
                ),
        forall|k: int| 0 <= k < known_gpus(found).len() ==> (#[trigger] known_gpus(found)[k]).0 != 0,
    decreases found.len(),
{
    if found.len() > 0 {
        let shorter = found.drop_last();
        let before = known_gpus(shorter);
        let all = known_gpus(found);
        lemma_known(shorter);
        assert forall|i: int|
            #![trigger found[i]]
            0 <= i < found.len() && found[i].handle != 0 implies exists|k: int|
            #![trigger all[k]]
            0 <= k < all.len() && all[k] == (
                found[i].handle,
                gpu_name(found[i].handle, name_buffer(found[i])),
            ) by {
            if i < found.len() - 1 {
                assert(shorter[i] == found[i]);
                let k = choose|k: int|
                    #![trigger before[k]]
                    0 <= k < before.len() && before[k] == (
                        shorter[i].handle,
                        gpu_name(shorter[i].handle, name_buffer(shorter[i])),
                    );
                assert(all[k] == before[k]);
            } else {
                assert(all[all.len() - 1].0 == found[i].handle);
            }
        }
    }
}

} // verus!
