use vstd::prelude::*;

use crate::errors::AdbError;

verus! {

/// A bulk endpoint of a claimed interface.
#[derive(Clone, Copy, Debug, PartialEq, Eq, Structural)]
pub struct Endpoint {
    /// Number of the interface the endpoint belongs to.
    pub interface_number: u8,
    /// Endpoint address, direction bit included.
    pub address: u8,
}

/// One endpoint of an alternate setting: its address, transfer type and
/// direction as read from the endpoint descriptor.
#[derive(Clone, Copy, Debug, PartialEq, Eq, Structural)]
pub struct EndpointInfo {
    /// Endpoint address, direction bit included.
    pub address: u8,
    /// Whether the endpoint is a bulk endpoint.
    pub is_bulk: bool,
    /// Whether the endpoint's direction is IN (device to host).
    pub is_in: bool,
}

impl EndpointInfo {
    /// Bundles the codes read from one endpoint descriptor.
    pub fn from_codes(address: u8, is_bulk: bool, is_in: bool) -> (r: EndpointInfo)
        ensures
            r == (EndpointInfo { address, is_bulk, is_in }),
    {
        EndpointInfo { address, is_bulk, is_in }
    }
}

/// One alternate setting as read from the device's configuration
/// descriptors: the interface it belongs to, its class triple, and its
/// endpoints in descriptor order.
#[derive(Clone, Debug)]
pub struct AltSetting {
    /// Number of the interface the setting belongs to.
    pub interface_number: u8,
    /// Class code.
    pub class: u8,
    /// Subclass code.
    pub subclass: u8,
    /// Protocol code.
    pub protocol: u8,
    /// The setting's endpoints, in descriptor order.
    pub endpoints: Vec<EndpointInfo>,
}

impl AltSetting {
    /// Bundles the codes and endpoints read from one alternate setting.
    pub fn from_parts(
        interface_number: u8,
        class: u8,
        subclass: u8,
        protocol: u8,
        endpoints: Vec<EndpointInfo>,
    ) -> (r: AltSetting)
        ensures
            r.interface_number == interface_number,
            r.class == class,
            r.subclass == subclass,
            r.protocol == protocol,
            r.endpoints == endpoints,
    {
        AltSetting { interface_number, class, subclass, protocol, endpoints }
    }
}

/// The class, subclass and protocol codes of one alternate setting.
#[derive(Clone, Copy, Debug, PartialEq, Eq, Structural)]
pub struct InterfaceTriple {
    /// Class code.
    pub class: u8,
    /// Subclass code.
    pub subclass: u8,
    /// Protocol code.
    pub protocol: u8,
}

impl InterfaceTriple {
    /// Bundles the codes read from one alternate setting.
    pub fn from_codes(class: u8, subclass: u8, protocol: u8) -> (r: InterfaceTriple)
        ensures
            r == (InterfaceTriple { class, subclass, protocol }),
    {
        InterfaceTriple { class, subclass, protocol }
    }
}

/// The identity of one USB device together with the class triples of all
/// alternate settings it exposes.
#[derive(Clone, Debug)]
pub struct UsbDeviceSummary {
    /// Vendor id.
    pub vendor_id: u16,
    /// Product id.
    pub product_id: u16,
    /// Class triples of every alternate setting of every configuration.
    pub triples: Vec<InterfaceTriple>,
}

/// The vendor-specific ADB interface triple: class 0xff, subclass 0x42,
/// protocol 1.
pub open spec fn is_adb_interface_triple(class: u8, subclass: u8, protocol: u8) -> bool {
    class == 0xff && subclass == 0x42 && protocol == 0x01
}

/// A triple qualifies a device for autodetect: the ADB triple, or the
/// Android bulk file-transfer triple (class 0xdc, subclass 2, protocol 1).
pub open spec fn is_adb_device_triple(t: InterfaceTriple) -> bool {
    t.protocol == 0x01 && ((t.class == 0xff && t.subclass == 0x42) || (t.class == 0xdc
        && t.subclass == 0x02))
}

/// The first bulk endpoint of the wanted direction within one setting's
/// endpoint list.
pub open spec fn first_bulk(eps: Seq<EndpointInfo>, want_in: bool) -> Option<EndpointInfo>
    decreases eps.len(),
{
    if eps.len() == 0 {
        None
    } else if eps[0].is_bulk && eps[0].is_in == want_in {
        Some(eps[0])
    } else {
        first_bulk(eps.skip(1), want_in)
    }
}

/// An alternate setting bears the ADB triple.
pub open spec fn setting_is_adb(s: AltSetting) -> bool {
    is_adb_interface_triple(s.class, s.subclass, s.protocol)
}

/// The `(read, write)` endpoint pair that one alternate setting offers for
/// the ADB connection: within a setting bearing the ADB triple, its first
/// bulk IN and first bulk OUT endpoint; nothing when the setting does not
/// qualify or lacks a direction.
pub open spec fn setting_pair(s: AltSetting) -> Option<(Endpoint, Endpoint)> {
    if setting_is_adb(s) {
        match (first_bulk(s.endpoints@, true), first_bulk(s.endpoints@, false)) {
            (Some(i), Some(o)) => Some(
                (
                    Endpoint { interface_number: s.interface_number, address: i.address },
                    Endpoint { interface_number: s.interface_number, address: o.address },
                ),
            ),
            _ => None,
        }
    } else {
        None
    }
}

/// The pair of the first alternate setting, in descriptor order, that
/// offers one.
pub open spec fn first_setting_pair(ss: Seq<AltSetting>) -> Option<(Endpoint, Endpoint)>
    decreases ss.len(),
{
    if ss.len() == 0 {
        None
    } else if setting_pair(ss[0]) is Some {
        setting_pair(ss[0])
    } else {
        first_setting_pair(ss.skip(1))
    }
}

/// A pair is found exactly when some alternate setting offers one.
pub proof fn lemma_first_setting_pair_exists(ss: Seq<AltSetting>)
    ensures
        first_setting_pair(ss) is Some <==> (exists|i: int|
            0 <= i < ss.len() && (#[trigger] setting_pair(ss[i])) is Some),
    decreases ss.len(),
{
    if ss.len() > 0 {
        lemma_first_setting_pair_exists(ss.skip(1));
        if setting_pair(ss[0]) is Some {
        } else {
            if exists|i: int| 0 <= i < ss.len() && (#[trigger] setting_pair(ss[i])) is Some {
                let i = choose|i: int|
                    0 <= i < ss.len() && (#[trigger] setting_pair(ss[i])) is Some;
                assert(ss.skip(1)[i - 1] == ss[i]);
            }
            if exists|j: int|
                0 <= j < ss.skip(1).len() && (#[trigger] setting_pair(ss.skip(1)[j])) is Some {
                let j = choose|j: int|
                    0 <= j < ss.skip(1).len() && (#[trigger] setting_pair(ss.skip(1)[j])) is Some;
                assert(ss.skip(1)[j] == ss[j + 1]);
            }
        }
    }
}

/// Finds the first bulk endpoint of the wanted direction in a setting's
/// endpoint list.
fn first_bulk_endpoint(endpoints: &Vec<EndpointInfo>, want_in: bool) -> (r: Option<EndpointInfo>)
    ensures
        r == first_bulk(endpoints@, want_in),
{
    let mut i: usize = 0;
    proof {
        assert(endpoints@.skip(0) =~= endpoints@);
    }
    while i < endpoints.len()
        invariant
            i <= endpoints@.len(),
            first_bulk(endpoints@, want_in) == first_bulk(endpoints@.skip(i as int), want_in),
        decreases endpoints@.len() - i,
    {
        let e = endpoints[i];
        proof {
            assert(endpoints@.skip(i as int)[0] == endpoints@[i as int]);
        }
        if e.is_bulk && e.is_in == want_in {
            return Some(e);
        }
        proof {
            assert(endpoints@.skip(i as int).skip(1) =~= endpoints@.skip(i + 1));
        }
        i += 1;
    }
    None
}

/// Locates the ADB bulk endpoint pair among the alternate settings of a
/// device, walked in descriptor order.
///
/// Returns the `(read, write)` pair of the first alternate setting that
/// bears the ADB triple and holds a bulk endpoint of each direction, and
/// `NoDescriptor` exactly when no such setting exists.
pub fn find_adb_endpoint_pair(settings: &Vec<AltSetting>) -> (r: Result<
    (Endpoint, Endpoint),
    AdbError,
>)
    ensures
        r matches Ok(p) ==> first_setting_pair(settings@) == Some(p),
        r is Err ==> r == Err::<(Endpoint, Endpoint), AdbError>(AdbError::NoDescriptor)
            && first_setting_pair(settings@) is None,
        r is Ok <==> (exists|i: int|
            0 <= i < settings@.len() && (#[trigger] setting_pair(settings@[i])) is Some),
{
    let mut i: usize = 0;
    proof {
        assert(settings@.skip(0) =~= settings@);
    }
    while i < settings.len()
        invariant
            i <= settings@.len(),
            first_setting_pair(settings@) == first_setting_pair(settings@.skip(i as int)),
        decreases settings@.len() - i,
    {
        let s = &settings[i];
        proof {
            assert(settings@.skip(i as int)[0] == settings@[i as int]);
        }
        if s.class == 0xff && s.subclass == 0x42 && s.protocol == 0x01 {
            let r_in = first_bulk_endpoint(&s.endpoints, true);
            let r_out = first_bulk_endpoint(&s.endpoints, false);
            match (r_in, r_out) {
                (Some(ep_in), Some(ep_out)) => {
                    let pair = (
                        Endpoint { interface_number: s.interface_number, address: ep_in.address },
                        Endpoint { interface_number: s.interface_number, address: ep_out.address },
                    );
                    proof {
                        assert(setting_pair(settings@[i as int]) == Some(pair));
                        lemma_first_setting_pair_exists(settings@);
                    }
                    return Ok(pair);
                },
                _ => {
                    proof {
                        assert(setting_pair(settings@[i as int]) is None);
                    }
                },
            }
        }
        proof {
            assert(setting_pair(settings@[i as int]) is None);
            assert(settings@.skip(i as int).skip(1) =~= settings@.skip(i + 1));
        }
        i += 1;
    }
    proof {
        lemma_first_setting_pair_exists(settings@);
    }
    Err(AdbError::NoDescriptor)
}

/// The index of the first enumerated device whose identity could be read
/// and equals the wanted `(vendor_id, product_id)` pair; nothing exactly
/// when no such device exists.
pub fn first_matching_device(
    ids: &Vec<Option<(u16, u16)>>,
    vendor_id: u16,
    product_id: u16,
) -> (r: Option<usize>)
    ensures
        r matches Some(i) ==> i < ids@.len() && ids@[i as int] == Some((vendor_id, product_id))
            && (forall|j: int| 0 <= j < i ==> ids@[j] != Some((vendor_id, product_id))),
        r is None ==> (forall|j: int|
            0 <= j < ids@.len() ==> ids@[j] != Some((vendor_id, product_id))),
{
    let mut i: usize = 0;
    while i < ids.len()
        invariant
            i <= ids@.len(),
            forall|j: int| 0 <= j < i ==> ids@[j] != Some((vendor_id, product_id)),
        decreases ids@.len() - i,
    {
        if let Some((vid, pid)) = ids[i] {
            if vid == vendor_id && pid == product_id {
                return Some(i);
            }
        }
        i += 1;
    }
    None
}

/// A device qualifies for autodetect when one of its alternate settings
/// bears a qualifying triple.
pub open spec fn device_qualifies(d: UsbDeviceSummary) -> bool {
    exists|j: int| 0 <= j < d.triples@.len() && is_adb_device_triple(#[trigger] d.triples@[j])
}

/// Decides whether a device qualifies as an ADB device for autodetect.
pub fn is_adb_device(d: &UsbDeviceSummary) -> (r: bool)
    ensures
        r == device_qualifies(*d),
{
    let mut i: usize = 0;
    while i < d.triples.len()
        invariant
            i <= d.triples@.len(),
            forall|j: int| 0 <= j < i ==> !is_adb_device_triple(#[trigger] d.triples@[j]),
        decreases d.triples@.len() - i,
    {
        let t = d.triples[i];
        if t.protocol == 0x01 && ((t.class == 0xff && t.subclass == 0x42) || (t.class == 0xdc
            && t.subclass == 0x02)) {
            return true;
        }
        i += 1;
    }
    false
}

/// The `(vendor_id, product_id)` pairs of the qualifying devices, in order.
pub open spec fn qualifying_ids(s: Seq<UsbDeviceSummary>) -> Seq<(u16, u16)>
    decreases s.len(),
{
    if s.len() == 0 {
        Seq::empty()
    } else {
        qualifying_ids(s.drop_last()) + (if device_qualifies(s.last()) {
            seq![(s.last().vendor_id, s.last().product_id)]
        } else {
            Seq::<(u16, u16)>::empty()
        })
    }
}

/// Picks the ADB device among the enumerated devices.
///
/// Returns `None` when no device qualifies, the identity of the single
/// qualifying device when exactly one does, and `Ambiguous`, citing the
/// first two qualifying devices, when more than one does.
pub fn select_adb_device(devices: &Vec<UsbDeviceSummary>) -> (r: Result<
    Option<(u16, u16)>,
    AdbError,
>)
    ensures
        qualifying_ids(devices@).len() == 0 ==> r == Ok::<Option<(u16, u16)>, AdbError>(None),
        qualifying_ids(devices@).len() == 1 ==> r == Ok::<Option<(u16, u16)>, AdbError>(
            Some(qualifying_ids(devices@)[0]),
        ),
        qualifying_ids(devices@).len() >= 2 ==> r == Err::<Option<(u16, u16)>, AdbError>(
            AdbError::Ambiguous {
                first_vendor: qualifying_ids(devices@)[0].0,
                first_product: qualifying_ids(devices@)[0].1,
                second_vendor: qualifying_ids(devices@)[1].0,
                second_product: qualifying_ids(devices@)[1].1,
            },
        ),
{
    let mut found: Vec<(u16, u16)> = Vec::new();
    let mut i: usize = 0;
    while i < devices.len()
        invariant
            i <= devices@.len(),
            found@ == qualifying_ids(devices@.take(i as int)),
        decreases devices@.len() - i,
    {
        proof {
            assert(devices@.take(i + 1).drop_last() =~= devices@.take(i as int));
            assert(devices@.take(i + 1).last() == devices@[i as int]);
        }
        if is_adb_device(&devices[i]) {
            found.push((devices[i].vendor_id, devices[i].product_id));
        }
        i += 1;
    }
    proof {
        assert(devices@.take(devices@.len() as int) =~= devices@);
    }
    if found.len() == 0 {
        Ok(None)
    } else if found.len() == 1 {
        Ok(Some(found[0]))
    } else {
        Err(
            AdbError::Ambiguous {
                first_vendor: found[0].0,
                first_product: found[0].1,
                second_vendor: found[1].0,
                second_product: found[1].1,
            },
        )
    }
}

} // verus!
