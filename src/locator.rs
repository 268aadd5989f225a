use vstd::prelude::*;

verus! {

/// Vendor identifier reported by the supported sensor's USB interface.
pub const SENSOR_VENDOR_ID: u16 = 0x0483;

/// Product identifier reported by the PFS055YA251U6 sensor model.
pub const SENSOR_PRODUCT_ID: u16 = 0x5740;

/// The (vendor, product) pair that recognises the target device.
#[derive(Clone, Copy, Debug, PartialEq, Eq, Structural)]
pub struct HardwareIdentity {
    pub vendor_id: u16,
    pub product_id: u16,
}

impl HardwareIdentity {
    /// The identity of the supported sensor model.
    pub fn supported_sensor() -> (r: HardwareIdentity)
        ensures
            r.vendor_id == SENSOR_VENDOR_ID,
            r.product_id == SENSOR_PRODUCT_ID,
    {
        HardwareIdentity { vendor_id: SENSOR_VENDOR_ID, product_id: SENSOR_PRODUCT_ID }
    }
}

/// How a serial port is attached to the host.
#[derive(Debug)]
pub enum ConnectionKind {
    Usb { vendor_id: u16, product_id: u16 },
    Pci,
    Bluetooth,
    Unknown,
}

/// One serial port as the host lists it.
#[derive(Debug)]
pub struct PortInfo {
    pub path: String,
    pub kind: ConnectionKind,
}

/// Why the host could not list its serial ports.
#[derive(Debug)]
pub struct DiscoveryError {
    pub message: String,
}

/// Outcome of looking for the sensor among the host's ports.
#[derive(Debug)]
pub enum Located {
    Found(String),
    NotFound,
    DiscoveryFailed(DiscoveryError),
}

/// A port is a candidate when it is USB-attached and reports exactly the
/// identity's vendor and product identifiers.
pub open spec fn port_matches(p: PortInfo, id: HardwareIdentity) -> bool {
    match p.kind {
        ConnectionKind::Usb { vendor_id, product_id } => vendor_id == id.vendor_id
            && product_id == id.product_id,
        _ => false,
    }
}

/// Index `i` holds a candidate and no earlier port is one.
pub open spec fn is_first_match(ports: Seq<PortInfo>, id: HardwareIdentity, i: int) -> bool {
    &&& 0 <= i < ports.len()
    &&& port_matches(ports[i], id)
    &&& forall|j: int| 0 <= j < i ==> !port_matches(#[trigger] ports[j], id)
}

/// The path of the first candidate in enumeration order, if there is one.
pub open spec fn located_path(ports: Seq<PortInfo>, id: HardwareIdentity) -> Option<Seq<char>> {
    if exists|i: int| is_first_match(ports, id, i) {
        Some(ports[choose|i: int| is_first_match(ports, id, i)].path@)
    } else {
        None
    }
}

/// What looking for the sensor yields for an enumeration that listed
/// `ports` (`Ok`) or failed (`Err`).
pub open spec fn located_spec(listing: Result<Seq<PortInfo>, DiscoveryError>, id: HardwareIdentity, r: Located) -> bool {
    match listing {
        Err(e) => r == Located::DiscoveryFailed(e),
        Ok(ports) => match located_path(ports, id) {
            None => r is NotFound,
            Some(p) => r is Found && r->Found_0@ == p,
        },
    }
}

/// Two candidates cannot both be the first.
pub proof fn lemma_first_match_unique(ports: Seq<PortInfo>, id: HardwareIdentity, i: int, k: int)
    requires
        is_first_match(ports, id, i),
        is_first_match(ports, id, k),
    ensures
        i == k,
{
    if i < k {
        assert(!port_matches(ports[i], id));
    } else if k < i {
        assert(!port_matches(ports[k], id));
    }
}

/// Whether `p` is a candidate for the identity `id`.
pub fn port_is_candidate(p: &PortInfo, id: &HardwareIdentity) -> (r: bool)
    ensures
        r == port_matches(*p, *id),
{
    match &p.kind {
        ConnectionKind::Usb { vendor_id, product_id } => *vendor_id == id.vendor_id
            && *product_id == id.product_id,
        _ => false,
    }
}

/// The path of the first USB port, in enumeration order, whose vendor and
/// product identifiers both equal those of `id`.
pub fn first_matching_path(ports: &Vec<PortInfo>, id: &HardwareIdentity) -> (r: Option<String>)
    ensures
        match r {
            None => located_path(ports@, *id) is None,
            Some(p) => located_path(ports@, *id) == Some(p@),
        },
{
    let mut i: usize = 0;
    while i < ports.len()
        invariant
            0 <= i <= ports.len(),
            forall|j: int| 0 <= j < i ==> !port_matches(#[trigger] ports@[j], *id),
        decreases ports.len() - i,
    {
        if port_is_candidate(&ports[i], id) {
            proof {
                assert(is_first_match(ports@, *id, i as int));
                let k = choose|k: int| is_first_match(ports@, *id, k);
                lemma_first_match_unique(ports@, *id, i as int, k);
            }
            return Some(ports[i].path.clone());
        }
        i = i + 1;
    }
    proof {
        assert forall|k: int| !is_first_match(ports@, *id, k) by {
            if 0 <= k < ports@.len() {
                assert(!port_matches(ports@[k], *id));
            }
        }
    }
    None
}

/// Looks for the sensor with identity `id` in the host's enumeration of
/// serial ports: the first matching port's path, `NotFound` when the listing
/// holds no match, and the enumeration's own failure passed on unchanged.
pub fn search_usb_sensor_path(listing: Result<Vec<PortInfo>, DiscoveryError>, id: &HardwareIdentity) -> (r: Located)
    ensures
        located_spec(
            match listing {
                Ok(ports) => Ok(ports@),
                Err(e) => Err(e),
            },
            *id,
            r,
        ),
{
    match listing {
        Err(e) => Located::DiscoveryFailed(e),
        Ok(ports) => match first_matching_path(&ports, id) {
            Some(p) => Located::Found(p),
            None => Located::NotFound,
        },
    }
}

/// When no port of the enumeration is a USB port with the target vendor and
/// product identifiers, the sensor is not found.
pub proof fn lemma_no_candidate_not_found(ports: Seq<PortInfo>, id: HardwareIdentity, r: Located)
    requires
        forall|j: int| 0 <= j < ports.len() ==> !port_matches(#[trigger] ports[j], id),
        located_spec(Ok(ports), id, r),
    ensures
        r is NotFound,
{
    assert forall|k: int| !is_first_match(ports, id, k) by {
        if 0 <= k < ports.len() {
            assert(!port_matches(ports[k], id));
        }
    }
}

/// When exactly one port of the enumeration is a candidate, whatever else is
/// listed, the sensor is found at that port's path.
pub proof fn lemma_single_candidate_found(ports: Seq<PortInfo>, id: HardwareIdentity, k: int, r: Located)
    requires
        0 <= k < ports.len(),
        port_matches(ports[k], id),
        forall|j: int| 0 <= j < ports.len() && j != k ==> !port_matches(#[trigger] ports[j], id),
        located_spec(Ok(ports), id, r),
    ensures
        r is Found,
        r->Found_0@ == ports[k].path@,
{
    assert(is_first_match(ports, id, k));
    let c = choose|c: int| is_first_match(ports, id, c);
    lemma_first_match_unique(ports, id, k, c);
}

/// When two or more ports are candidates, the sensor is found at the path of
/// the earliest of them in enumeration order, and only the order of the
/// listing decides which one that is.
pub proof fn lemma_several_candidates_first_wins(
    ports: Seq<PortInfo>,
    id: HardwareIdentity,
    a: int,
    b: int,
    r: Located,
)
    requires
        0 <= a < b < ports.len(),
        port_matches(ports[a], id),
        port_matches(ports[b], id),
        located_spec(Ok(ports), id, r),
    ensures
        r is Found,
        exists|f: int|
            #![trigger ports[f]]
            0 <= f <= a && port_matches(ports[f], id) && r->Found_0@ == ports[f].path@
                && forall|j: int| 0 <= j < f ==> !port_matches(#[trigger] ports[j], id),
{
    lemma_some_first_match(ports, id, a);
    let f = choose|f: int| is_first_match(ports, id, f);
    if f > a {
        assert(!port_matches(ports[a], id));
    }
    assert(0 <= f <= a && port_matches(ports[f], id) && r->Found_0@ == ports[f].path@);
}

/// A candidate at index `a` means some index at or before it is the first one.
pub proof fn lemma_some_first_match(ports: Seq<PortInfo>, id: HardwareIdentity, a: int)
    requires
        0 <= a < ports.len(),
        port_matches(ports[a], id),
    ensures
        exists|f: int| 0 <= f <= a && is_first_match(ports, id, f),
    decreases a,
{
    if exists|j: int| 0 <= j < a && port_matches(ports[j], id) {
        let j = choose|j: int| 0 <= j < a && port_matches(ports[j], id);
        lemma_some_first_match(ports, id, j);
    } else {
        assert(is_first_match(ports, id, a));
    }
}

} // verus!
