//! NZXT Control Hub as a device: its channels, its children, and the frames composed for
//! a channel.

use crate::nzxt::devices::f_fan::is_f_fan;
use crate::nzxt::protocols::nzxt::{grb_bytes, AccessoryInfo};
use crate::nzxt::protocols::nzxt_control_hub::{
    commit_packet, HubError, NzxtControlHubProtocol, CMD_LIGHTING, LIGHTING_DATA,
    MAX_NZXT_CHAIN_LEDS,
};
use crate::rgb::RgbColor;
use crate::text::{
    byte_numerals_have_their_value, byte_value, decimal, decimal_string, owned, parse_byte,
    push_decimal,
};
use crate::types::{ChannelDescriptor, DeviceType};
use vstd::prelude::*;

verus! {

/// USB vendor and product id of the hub.
pub const HUB_VID: u16 = 0x1E71;

/// USB product id of the hub.
pub const HUB_PID: u16 = 0x2022;

/// How often the hub is asked to push its status, in milliseconds.
pub const HUB_UPDATE_MS: u32 = 1000;

/// Why a request was refused.
#[derive(Debug, Clone, Copy, PartialEq, Eq, Structural)]
pub enum ChannelError {
    InvalidId,
    OutOfRange { channel: u8 },
}

/// The accessories that become children of the hub: all fans, in the order reported.
pub open spec fn child_accessories(list: Seq<AccessoryInfo>) -> Seq<AccessoryInfo>
    decreases list.len(),
{
    if list.len() == 0 {
        Seq::empty()
    } else if is_f_fan(list.last().accessory_id) {
        child_accessories(list.drop_last()).push(list.last())
    } else {
        child_accessories(list.drop_last())
    }
}

/// The hub.
#[derive(Debug)]
pub struct NZXTControlHub {
    pub id: String,
    pub protocol: NzxtControlHubProtocol,
}

impl NZXTControlHub {
    /// A hub about whose fans nothing is known.
    pub fn new(id: String) -> (r: Self)
        ensures
            r.id == id,
            r.protocol.fan_cache@.is_empty(),
    {
        NZXTControlHub { id, protocol: NzxtControlHubProtocol::new() }
    }

    /// The accessories that become children; ids that are not recognised are skipped.
    /// Polling starts only after them, so that it does not read their replies away.
    pub fn discover_children(accessories: &[AccessoryInfo]) -> (r: Vec<AccessoryInfo>)
        ensures
            r@ == child_accessories(accessories@),
    {
        let mut out: Vec<AccessoryInfo> = Vec::new();
        let mut i: usize = 0;
        proof {
            assert(accessories@.take(0) =~= Seq::empty());
        }
        while i < accessories.len()
            invariant
                i <= accessories@.len(),
                out@ == child_accessories(accessories@.take(i as int)),
            decreases accessories@.len() - i,
        {
            if crate::nzxt::devices::f_fan::recognizes(accessories[i].accessory_id) {
                out.push(accessories[i]);
            }
            i = i + 1;
            proof {
                assert(accessories@.take(i as int).drop_last() =~= accessories@.take(i - 1));
            }
        }
        proof {
            assert(accessories@.take(i as int) =~= accessories@);
        }
        out
    }

    /// The five channels.
    pub fn channels() -> (r: Vec<ChannelDescriptor>)
        ensures
            r@.len() == 5,
            forall|i: int|
                #![trigger r@[i]]
                0 <= i < 5 ==> {
                    &&& r@[i].channel_id@ == decimal(i as nat)
                    &&& r@[i].display_name@ == "Channel "@ + decimal((i + 1) as nat)
                    &&& r@[i].max_leds == MAX_NZXT_CHAIN_LEDS
                },
    {
        let mut out: Vec<ChannelDescriptor> = Vec::new();
        let mut ch: u64 = 0;
        while ch < 5
            invariant
                ch <= 5,
                out@.len() == ch,
                forall|i: int|
                    #![trigger out@[i]]
                    0 <= i < ch ==> {
                        &&& out@[i].channel_id@ == decimal(i as nat)
                        &&& out@[i].display_name@ == "Channel "@ + decimal((i + 1) as nat)
                        &&& out@[i].max_leds == MAX_NZXT_CHAIN_LEDS
                    },
            decreases 5 - ch,
        {
            let mut name = owned("Channel ");
            push_decimal(&mut name, ch + 1);
            out.push(
                ChannelDescriptor {
                    channel_id: decimal_string(ch),
                    display_name: name,
                    max_leds: MAX_NZXT_CHAIN_LEDS,
                },
            );
            ch = ch + 1;
        }
        out
    }

    /// The packets that show a composed frame on the channel with the given id.
    pub fn write_composed_frame(channel_id: &str, composed: &[RgbColor]) -> (r: Result<
        (Vec<u8>, [u8; 64]),
        ChannelError,
    >)
        ensures
            match byte_value(channel_id@) {
                None => r == Err::<(Vec<u8>, [u8; 64]), ChannelError>(ChannelError::InvalidId),
                Some(channel) => if channel >= 8 {
                    r == Err::<(Vec<u8>, [u8; 64]), ChannelError>(
                        ChannelError::OutOfRange { channel },
                    )
                } else {
                    &&& r is Ok
                    &&& r->Ok_0.0@ == seq![CMD_LIGHTING, LIGHTING_DATA, 1u8 << channel, 0x00]
                        + grb_bytes(composed@)
                    &&& r->Ok_0.1@ == commit_packet(1u8 << channel)
                },
            },
    {
        match parse_byte(channel_id) {
            None => Err(ChannelError::InvalidId),
            Some(channel) => match NzxtControlHubProtocol::write_rgb_frame(channel, composed) {
                Ok(p) => Ok(p),
                Err(HubError::ChannelOutOfRange { channel }) => Err(
                    ChannelError::OutOfRange { channel },
                ),
            },
        }
    }

    /// The name shown for the hub.
    pub fn name(&self) -> (r: &'static str)
        ensures
            r == "NZXT Control Hub",
    {
        "NZXT Control Hub"
    }

    /// Who makes it.
    pub fn vendor(&self) -> (r: &'static str)
        ensures
            r == "NZXT",
    {
        "NZXT"
    }

    /// The model.
    pub fn model(&self) -> (r: &'static str)
        ensures
            r == "Control Hub",
    {
        "Control Hub"
    }

    /// What kind of device this is.
    pub fn wire_device_type(&self) -> (r: DeviceType)
        ensures
            r == DeviceType::Hub,
    {
        DeviceType::Hub
    }
}

/// The children of a hub are those reported accessories, in order, that are fans: every
/// fan is one, and everything that is one was reported and is a fan.
pub proof fn every_fan_becomes_a_child(
    accessories: &[AccessoryInfo],
    r: Vec<AccessoryInfo>,
    i: int,
)
    requires
        call_ensures(NZXTControlHub::discover_children, (accessories,), r),
        0 <= i < accessories@.len(),
    ensures
        r@.contains(accessories@[i]) <==> is_fan_id(accessories@[i].accessory_id),
        forall|k: int| 0 <= k < r@.len() ==> accessories@.contains(#[trigger] r@[k]),
        r@.len() <= accessories@.len(),
{
    lemma_children(accessories@);
    if is_fan_id(accessories@[i].accessory_id) {
        assert(accessories@.contains(accessories@[i]));
        assert(child_accessories(accessories@).contains(accessories@[i]));
    } else if r@.contains(accessories@[i]) {
        let k = choose|k: int| 0 <= k < r@.len() && r@[k] == accessories@[i];
        assert(is_fan_id(r@[k].accessory_id));
    }
}

/// The ids that fans report.
pub open spec fn is_fan_id(id: u8) -> bool {
    id == 19 || id == 20 || id == 23 || id == 24 || 27 <= id <= 31
}

/// The children of a hub, by whether they are fans.
proof fn lemma_children(list: Seq<AccessoryInfo>)
    ensures
        forall|a: AccessoryInfo|
            list.contains(a) && is_fan_id(a.accessory_id) ==> #[trigger] child_accessories(
                list,
            ).contains(a),
        forall|k: int|
            0 <= k < child_accessories(list).len() ==> is_fan_id(
                (#[trigger] child_accessories(list)[k]).accessory_id,
            ) && list.contains(child_accessories(list)[k]),
        child_accessories(list).len() <= list.len(),
    decreases list.len(),
{
    if list.len() > 0 {
        let shorter = list.drop_last();
        let before = child_accessories(shorter);
        let all = child_accessories(list);
        lemma_children(shorter);
        assert(list[list.len() - 1] == list.last());
        assert forall|a: AccessoryInfo|
            list.contains(a) && is_fan_id(a.accessory_id) implies #[trigger] all.contains(a) by {
            let i = choose|i: int| 0 <= i < list.len() && list[i] == a;
            if i == list.len() - 1 {
                assert(all[all.len() - 1] == a);
            } else {
                assert(shorter[i] == a);
                assert(shorter.contains(a));
                assert(before.contains(a));
                let k = choose|k: int| 0 <= k < before.len() && before[k] == a;
                assert(all[k] == a);
            }
        }
        assert forall|k: int| 0 <= k < all.len() implies is_fan_id(
            (#[trigger] all[k]).accessory_id,
        ) && list.contains(all[k]) by {
            if k < before.len() {
                assert(all[k] == before[k]);
                assert(shorter.contains(before[k]));
                let i = choose|i: int| 0 <= i < shorter.len() && shorter[i] == before[k];
                assert(list[i] == before[k]);
            }
        }
    }
}

/// A frame composed for a channel goes to the channel whose id is its number in decimal,
/// exactly as the protocol writes it; each of the channels offered can be written to.
pub proof fn composed_frames_reach_their_channel(
    channel_id: &str,
    channel: u8,
    composed: &[RgbColor],
    r: Result<(Vec<u8>, [u8; 64]), ChannelError>,
    w: Result<(Vec<u8>, [u8; 64]), HubError>,
)
    requires
        call_ensures(NZXTControlHub::write_composed_frame, (channel_id, composed), r),
        call_ensures(NzxtControlHubProtocol::write_rgb_frame, (channel, composed), w),
        channel_id@ == decimal(channel as nat),
    ensures
        channel < 8 ==> r is Ok && w is Ok && r->Ok_0.0@ == w->Ok_0.0@ && r->Ok_0.1@
            == w->Ok_0.1@,
        channel >= 8 ==> r == Err::<(Vec<u8>, [u8; 64]), ChannelError>(
            ChannelError::OutOfRange { channel },
        ),
{
    byte_numerals_have_their_value(channel);
}

/// The channels are 0 to 4 on the wire and 1 to 5 by name, with 96 LEDs each.
pub proof fn channels_are_numbered(r: Vec<ChannelDescriptor>, i: int)
    requires
        call_ensures(NZXTControlHub::channels, (), r),
        0 <= i < 5,
    ensures
        r@.len() == 5,
        byte_value(r@[i].channel_id@) == Some(i as u8),
        r@[i].display_name@ == "Channel "@ + decimal((i + 1) as nat),
        r@[i].max_leds == 96,
{
    byte_numerals_have_their_value(i as u8);
}

/// A hub is shown under its own names, and starts without knowing its fans.
pub proof fn hubs_have_their_names(
    id: String,
    d: NZXTControlHub,
    name: &'static str,
    vendor: &'static str,
    model: &'static str,
    kind: DeviceType,
)
    requires
        call_ensures(NZXTControlHub::new, (id,), d),
        call_ensures(NZXTControlHub::name, (&d,), name),
        call_ensures(NZXTControlHub::vendor, (&d,), vendor),
        call_ensures(NZXTControlHub::model, (&d,), model),
        call_ensures(NZXTControlHub::wire_device_type, (&d,), kind),
    ensures
        d.id == id && d.protocol.fan_cache@.is_empty(),
        name == "NZXT Control Hub" && vendor == "NZXT" && model == "Control Hub",
        kind == DeviceType::Hub,
{
}

} // verus!
