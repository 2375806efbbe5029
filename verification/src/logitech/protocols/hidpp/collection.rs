//! Which HID collections of a device carry its short and its long packets. Some systems
//! split the interface in two, others have one node for both.

use crate::text::{owned, same_text};
use vstd::prelude::*;

verus! {

/// Usage page of the HID++ collections.
pub const HIDPP_USAGE_PAGE: u16 = 0xFF00;

/// Usage of the collection with short packets.
pub const HIDPP_USAGE_SHORT: u16 = 1;

/// Usage of the collection with long packets.
pub const HIDPP_USAGE_LONG: u16 = 2;

/// One HID collection.
#[derive(Debug)]
pub struct HidEntry {
    pub path: String,
    pub iface: i32,
    pub usage_page: u16,
    pub usage: u16,
}

/// Whether a collection is on an interface and has a HID++ usage.
pub open spec fn has_usage(e: HidEntry, interface: i32, usage: u16) -> bool {
    e.iface == interface && e.usage_page == HIDPP_USAGE_PAGE && e.usage == usage
}

/// The path of the first collection on an interface with a HID++ usage.
pub open spec fn usage_path(entries: Seq<HidEntry>, interface: i32, usage: u16) -> Option<
    Seq<char>,
>
    decreases entries.len(),
{
    if entries.len() == 0 {
        None
    } else if has_usage(entries[0], interface, usage) {
        Some(entries[0].path@)
    } else {
        usage_path(entries.skip(1), interface, usage)
    }
}

/// The path of the first collection on an interface.
pub open spec fn interface_path(entries: Seq<HidEntry>, interface: i32) -> Option<Seq<char>>
    decreases entries.len(),
{
    if entries.len() == 0 {
        None
    } else if entries[0].iface == interface {
        Some(entries[0].path@)
    } else {
        interface_path(entries.skip(1), interface)
    }
}

/// Whether a path is that of a collection on an interface.
pub open spec fn on_interface(entries: Seq<HidEntry>, interface: i32, path: Seq<char>) -> bool {
    exists|i: int|
        0 <= i < entries.len() && #[trigger] entries[i].iface == interface && entries[i].path@
            == path
}

/// The path for short packets: the collection with that usage; else the path that was
/// matched, if it is on the interface; else the first on the interface; else the path that
/// was matched.
pub open spec fn short_path(entries: Seq<HidEntry>, interface: i32, fallback: Seq<char>) -> Seq<
    char,
> {
    match usage_path(entries, interface, HIDPP_USAGE_SHORT) {
        Some(p) => p,
        None => if on_interface(entries, interface, fallback) {
            fallback
        } else {
            match interface_path(entries, interface) {
                Some(p) => p,
                None => fallback,
            }
        },
    }
}

/// The path for long packets: the collection with that usage, unless it is the one for short
/// packets.
pub open spec fn long_path(entries: Seq<HidEntry>, interface: i32, fallback: Seq<char>) -> Option<
    Seq<char>,
> {
    match usage_path(entries, interface, HIDPP_USAGE_LONG) {
        Some(p) => if p == short_path(entries, interface, fallback) {
            None
        } else {
            Some(p)
        },
        None => None,
    }
}

/// Finds the first collection on an interface with a HID++ usage.
fn find_usage(entries: &[HidEntry], interface: i32, usage: u16) -> (r: Option<String>)
    ensures
        match (r, usage_path(entries@, interface, usage)) {
            (Some(a), Some(b)) => a@ == b,
            (None, None) => true,
            _ => false,
        },
{
    let n: usize = entries.len();
    let mut i: usize = 0;
    proof {
        assert(entries@.skip(0) =~= entries@);
    }
    while i < n
        invariant
            i <= n,
            n == entries@.len(),
            usage_path(entries@, interface, usage) == usage_path(
                entries@.skip(i as int),
                interface,
                usage,
            ),
        decreases n - i,
    {
        let e = &entries[i];
        if e.iface == interface && e.usage_page == HIDPP_USAGE_PAGE && e.usage == usage {
            return Some(owned(e.path.as_str()));
        }
        proof {
            assert(entries@.skip(i as int).skip(1) =~= entries@.skip(i + 1));
        }
        i = i + 1;
    }
    None
}

/// Finds the first collection on an interface.
fn find_interface(entries: &[HidEntry], interface: i32) -> (r: Option<String>)
    ensures
        match (r, interface_path(entries@, interface)) {
            (Some(a), Some(b)) => a@ == b,
            (None, None) => true,
            _ => false,
        },
{
    let n: usize = entries.len();
    let mut i: usize = 0;
    proof {
        assert(entries@.skip(0) =~= entries@);
    }
    while i < n
        invariant
            i <= n,
            n == entries@.len(),
            interface_path(entries@, interface) == interface_path(
                entries@.skip(i as int),
                interface,
            ),
        decreases n - i,
    {
        let e = &entries[i];
        if e.iface == interface {
            return Some(owned(e.path.as_str()));
        }
        proof {
            assert(entries@.skip(i as int).skip(1) =~= entries@.skip(i + 1));
        }
        i = i + 1;
    }
    None
}

/// Whether a path is that of a collection on an interface.
fn has_path(entries: &[HidEntry], interface: i32, path: &str) -> (r: bool)
    ensures
        r == on_interface(entries@, interface, path@),
{
    let n: usize = entries.len();
    let mut i: usize = 0;
    while i < n
        invariant
            i <= n,
            n == entries@.len(),
            forall|k: int|
                0 <= k < i ==> !(#[trigger] entries@[k].iface == interface && entries@[k].path@
                    == path@),
        decreases n - i,
    {
        let e = &entries[i];
        if e.iface == interface && same_text(e.path.as_str(), path) {
            proof {
                assert(entries@[i as int].iface == interface);
            }
            return true;
        }
        i = i + 1;
    }
    false
}

/// Picks the paths for short and long packets.
pub fn select_hidpp_paths(entries: &[HidEntry], interface: i32, fallback_path: &str) -> (r: (
    String,
    Option<String>,
))
    ensures
        r.0@ == short_path(entries@, interface, fallback_path@),
        match (r.1, long_path(entries@, interface, fallback_path@)) {
            (Some(a), Some(b)) => a@ == b,
            (None, None) => true,
            _ => false,
        },
{
    let short: String = match find_usage(entries, interface, HIDPP_USAGE_SHORT) {
        Some(p) => p,
        None => if has_path(entries, interface, fallback_path) {
            owned(fallback_path)
        } else {
            match find_interface(entries, interface) {
                Some(p) => p,
                None => owned(fallback_path),
            }
        },
    };
    let long: Option<String> = match find_usage(entries, interface, HIDPP_USAGE_LONG) {
        Some(p) => if same_text(p.as_str(), short.as_str()) {
            None
        } else {
            Some(p)
        },
        None => None,
    };
    (short, long)
}

/// Whether a collection belongs to the device that is looked for; without a serial number
/// any serial number will do.
pub fn is_candidate(
    wanted: (u16, u16),
    serial: Option<&str>,
    vid_pid: (u16, u16),
    found_serial: Option<&str>,
) -> (r: bool)
    ensures
        r == (wanted == vid_pid && match serial {
            Some(s) => s@.len() == 0 || (match found_serial {
                Some(f) => f@ == s@,
                None => false,
            }),
            None => true,
        }),
{
    if wanted.0 != vid_pid.0 || wanted.1 != vid_pid.1 {
        return false;
    }
    match serial {
        Some(s) => if s.unicode_len() == 0 {
            true
        } else {
            match found_serial {
                Some(f) => same_text(f, s),
                None => false,
            }
        },
        None => true,
    }
}

/// A usage search finds a collection of the interface.
proof fn lemma_usage_is_on_interface(entries: Seq<HidEntry>, interface: i32, usage: u16)
    requires
        usage_path(entries, interface, usage) is Some,
    ensures
        on_interface(entries, interface, usage_path(entries, interface, usage)->Some_0),
    decreases entries.len(),
{
    if has_usage(entries[0], interface, usage) {
        assert(entries[0].iface == interface);
    } else {
        lemma_usage_is_on_interface(entries.skip(1), interface, usage);
        let p = usage_path(entries, interface, usage)->Some_0;
        let i = choose|i: int|
            0 <= i < entries.skip(1).len() && #[trigger] entries.skip(1)[i].iface == interface
                && entries.skip(1)[i].path@ == p;
        assert(entries[i + 1].iface == interface && entries[i + 1].path@ == p);
    }
}

/// An interface search finds a collection of the interface.
proof fn lemma_first_is_on_interface(entries: Seq<HidEntry>, interface: i32)
    requires
        interface_path(entries, interface) is Some,
    ensures
        on_interface(entries, interface, interface_path(entries, interface)->Some_0),
    decreases entries.len(),
{
    if entries[0].iface != interface {
        lemma_first_is_on_interface(entries.skip(1), interface);
        let p = interface_path(entries, interface)->Some_0;
        let i = choose|i: int|
            0 <= i < entries.skip(1).len() && #[trigger] entries.skip(1)[i].iface == interface
                && entries.skip(1)[i].path@ == p;
        assert(entries[i + 1].iface == interface && entries[i + 1].path@ == p);
    }
}

/// Collections of other interfaces are never picked: each path is that of a collection on
/// the interface, unless there is none, and the two paths differ.
pub proof fn paths_are_on_the_interface(
    entries: Seq<HidEntry>,
    interface: i32,
    fallback: Seq<char>,
)
    ensures
        on_interface(entries, interface, short_path(entries, interface, fallback)) || (short_path(
            entries,
            interface,
            fallback,
        ) == fallback && interface_path(entries, interface) is None),
        match long_path(entries, interface, fallback) {
            Some(p) => on_interface(entries, interface, p) && p != short_path(
                entries,
                interface,
                fallback,
            ),
            None => true,
        },
{
    if usage_path(entries, interface, HIDPP_USAGE_SHORT) is Some {
        lemma_usage_is_on_interface(entries, interface, HIDPP_USAGE_SHORT);
    } else if interface_path(entries, interface) is Some {
        lemma_first_is_on_interface(entries, interface);
    }
    if usage_path(entries, interface, HIDPP_USAGE_LONG) is Some {
        lemma_usage_is_on_interface(entries, interface, HIDPP_USAGE_LONG);
    }
}

/// Whether an entry is the first on an interface with a vendor usage.
pub open spec fn first_with_usage(entries: Seq<HidEntry>, interface: i32, usage: u16, k: int) -> bool {
    &&& 0 <= k < entries.len()
    &&& entries[k].iface == interface && entries[k].usage_page == 0xFF00
        && entries[k].usage == usage
    &&& forall|j: int|
        0 <= j < k ==> !((#[trigger] entries[j]).iface == interface && entries[j].usage_page
            == 0xFF00 && entries[j].usage == usage)
}

/// Short packets go to the first collection with usage one on the interface, and long ones
/// to the first with usage two, unless that is the same node.
pub proof fn packets_go_to_their_collection(
    entries: &[HidEntry],
    interface: i32,
    fallback: &str,
    r: (String, Option<String>),
    k: int,
    n: int,
)
    requires
        call_ensures(select_hidpp_paths, (entries, interface, fallback), r),
    ensures
        first_with_usage(entries@, interface, 1, k) ==> r.0@ == entries@[k].path@,
        first_with_usage(entries@, interface, 2, n) ==> (r.1 is Some <==> entries@[n].path@ != r.0@)
            && (r.1 is Some ==> r.1->Some_0@ == entries@[n].path@),
        (forall|j: int|
            0 <= j < entries@.len() ==> !((#[trigger] entries@[j]).iface == interface
                && entries@[j].usage_page == 0xFF00 && entries@[j].usage == 2)) ==> r.1 is None,
        (forall|j: int| 0 <= j < entries@.len() ==> (#[trigger] entries@[j]).iface != interface)
            ==> r.0@ == fallback@ && r.1 is None,
{
    lemma_usage(entries@, interface, 1, k);
    lemma_usage(entries@, interface, 2, n);
    lemma_interface(entries@, interface);
}

/// The first entry with a usage.
proof fn lemma_usage(entries: Seq<HidEntry>, interface: i32, usage: u16, k: int)
    ensures
        first_with_usage(entries, interface, usage, k) ==> usage_path(entries, interface, usage)
            == Some(entries[k].path@),
        (forall|j: int|
            0 <= j < entries.len() ==> !((#[trigger] entries[j]).iface == interface
                && entries[j].usage_page == 0xFF00 && entries[j].usage == usage)) ==> usage_path(
            entries,
            interface,
            usage,
        ) is None,
    decreases entries.len(),
{
    if entries.len() > 0 {
        let rest = entries.skip(1);
        lemma_usage(rest, interface, usage, k - 1);
        assert(forall|j: int| 0 <= j < rest.len() ==> (#[trigger] rest[j]) == entries[j + 1]);
        if first_with_usage(entries, interface, usage, k) && k > 0 {
            assert(!has_usage(entries[0], interface, usage));
            assert(first_with_usage(rest, interface, usage, k - 1));
        }
    }
}

/// Where no entry is on the interface, none is found there.
proof fn lemma_interface(entries: Seq<HidEntry>, interface: i32)
    ensures
        (forall|j: int| 0 <= j < entries.len() ==> (#[trigger] entries[j]).iface != interface)
            ==> interface_path(entries, interface) is None && usage_path(entries, interface, 1)
            is None,
    decreases entries.len(),
{
    if entries.len() > 0 {
        let rest = entries.skip(1);
        lemma_interface(rest, interface);
        assert(forall|j: int| 0 <= j < rest.len() ==> (#[trigger] rest[j]) == entries[j + 1]);
        if forall|j: int| 0 <= j < entries.len() ==> (#[trigger] entries[j]).iface != interface {
            assert(entries[0].iface != interface);
        }
    }
}

/// Where no collection on the interface has usage one, short packets go to the matched path
/// if it is on the interface, else to the first collection there.
pub proof fn packets_fall_back_to_the_matched_path(
    entries: &[HidEntry],
    interface: i32,
    fallback: &str,
    r: (String, Option<String>),
    k: int,
)
    requires
        call_ensures(select_hidpp_paths, (entries, interface, fallback), r),
        forall|j: int|
            0 <= j < entries@.len() ==> !((#[trigger] entries@[j]).iface == interface
                && entries@[j].usage_page == 0xFF00 && entries@[j].usage == 1),
        0 <= k < entries@.len(),
        entries@[k].iface == interface,
    ensures
        entries@[k].path@ == fallback@ ==> r.0@ == fallback@,
        (forall|j: int| 0 <= j < entries@.len() ==> (#[trigger] entries@[j]).path@ != fallback@) && (
        forall|j: int| 0 <= j < k ==> (#[trigger] entries@[j]).iface != interface) ==> r.0@
            == entries@[k].path@,
{
    lemma_usage(entries@, interface, 1, k);
    lemma_first_interface(entries@, interface, k);
}

/// The first entry on an interface.
proof fn lemma_first_interface(entries: Seq<HidEntry>, interface: i32, k: int)
    requires
        0 <= k < entries.len(),
        entries[k].iface == interface,
    ensures
        (forall|j: int| 0 <= j < k ==> (#[trigger] entries[j]).iface != interface)
            ==> interface_path(entries, interface) == Some(entries[k].path@),
    decreases entries.len(),
{
    if k > 0 {
        let rest = entries.skip(1);
        lemma_first_interface(rest, interface, k - 1);
        assert(forall|j: int| 0 <= j < rest.len() ==> (#[trigger] rest[j]) == entries[j + 1]);
        if forall|j: int| 0 <= j < k ==> (#[trigger] entries[j]).iface != interface {
            assert(entries[0].iface != interface);
        }
    }
}

/// A collection is a candidate where vendor, product and, if one is asked for, the serial
/// number agree.
pub proof fn candidates_agree_in_everything(
    wanted: (u16, u16),
    found: (u16, u16),
    serial: &str,
    other: &str,
    same: bool,
    differs: bool,
    any: bool,
    unknown: bool,
)
    requires
        serial@.len() > 0,
        other@ != serial@,
        call_ensures(is_candidate, (wanted, Some(serial), found, Some(serial)), same),
        call_ensures(is_candidate, (wanted, Some(serial), found, Some(other)), differs),
        call_ensures(is_candidate, (wanted, None::<&str>, found, Some(other)), any),
        call_ensures(is_candidate, (wanted, Some(serial), found, None::<&str>), unknown),
    ensures
        same <==> wanted.0 == found.0 && wanted.1 == found.1,
        any <==> same,
        !differs,
        !unknown,
{
}

} // verus!
