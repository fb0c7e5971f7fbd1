//! Inverter models: what a device type implies for its registers.
use crate::fixed::Fixed;
use crate::text::{same, starts_with};
use vstd::prelude::*;

verus! {

/// Whether charge slot 2 of type `t` lives in the extended block (HR 243-244).
pub open spec fn extended_slots(t: Seq<char>) -> bool {
    !(t == "Gen1Hybrid"@ || t == "Gen2Hybrid"@ || t == "ACCoupled"@ || t == "ACCoupled2"@)
}

/// Whether type `t` has a second charge and discharge slot.
pub open spec fn second_slot(t: Seq<char>) -> bool {
    !(t == "Gen2Hybrid"@ || t == "ACCoupled"@ || t == "ACCoupled2"@)
}

/// Whether type `t` is a three-phase inverter.
pub open spec fn three_phase(t: Seq<char>) -> bool {
    crate::text::has_prefix(t, "ThreePhase"@) || t == "ACThreePhase"@
}

/// Whether type `t` is a gateway in front of All-in-One units.
pub open spec fn gateway(t: Seq<char>) -> bool {
    crate::text::has_prefix(t, "Gateway"@)
}

/// The device type code that HR 0 shows for type `t`. The hybrids of the first
/// three generations share one family code.
pub open spec fn type_code(t: Seq<char>) -> int {
    if t == "Gen1Hybrid"@ || t == "Gen2Hybrid"@ || t == "Gen3Hybrid"@ {
        0x2001
    } else if t == "Hybrid4600"@ {
        0x2002
    } else if t == "Hybrid3600"@ {
        0x2003
    } else if t == "Polar5kW"@ {
        0x2101
    } else if t == "Polar4600"@ {
        0x2102
    } else if t == "Polar3600"@ {
        0x2103
    } else if t == "Polar6kW"@ {
        0x2104
    } else if t == "Polar7kW"@ {
        0x2105
    } else if t == "Gen3Hybrid8kW"@ {
        0x2106
    } else if t == "Gen3Hybrid10kW"@ {
        0x2102
    } else if t == "Polar8kW"@ {
        0x2106
    } else if t == "Gen3Plus6kW"@ {
        0x2201
    } else if t == "Gen3Plus4600"@ {
        0x2202
    } else if t == "Gen3Plus3600"@ {
        0x2203
    } else if t == "Gen3Plus6kW2"@ {
        0x2204
    } else if t == "Gen3Plus7kW"@ {
        0x2205
    } else if t == "Gen3Plus8kW"@ {
        0x2206
    } else if t == "PVInverter5kW"@ {
        0x2301
    } else if t == "PVInverter4600"@ {
        0x2302
    } else if t == "PVInverter3600"@ {
        0x2303
    } else if t == "PVInverter6kW"@ {
        0x2304
    } else if t == "ACCoupled"@ {
        0x3001
    } else if t == "ACCoupled2"@ {
        0x3002
    } else if t == "ThreePhase"@ {
        0x4001
    } else if t == "ThreePhase8kW"@ {
        0x4002
    } else if t == "ThreePhase10kW"@ {
        0x4003
    } else if t == "ThreePhase11kW"@ {
        0x4004
    } else if t == "AIOCommercial"@ {
        0x4101
    } else if t == "EMS"@ {
        0x5001
    } else if t == "EMSCommercial"@ {
        0x5101
    } else if t == "ACThreePhase"@ {
        0x6001
    } else if t == "Gateway12kW"@ {
        0x7001
    } else if t == "AllInOne6"@ {
        0x8001
    } else if t == "AllInOne"@ {
        0x8002
    } else if t == "AllInOne5"@ {
        0x8003
    } else if t == "AIO6kW"@ {
        0x8101
    } else if t == "AIO8kW"@ {
        0x8102
    } else if t == "AIO10kW"@ {
        0x8103
    } else if t == "AIOHybrid6kW"@ {
        0x8201
    } else if t == "AIOHybrid8kW"@ {
        0x8202
    } else if t == "AIOHybrid10kW"@ {
        0x8203
    } else if t == "AIOHybrid12kW"@ {
        0x8204
    } else if t == "Gen4Hybrid6kW"@ {
        0x8304
    } else {
        0x2001
    }
}

/// The ARM firmware version that type `t` ships with.
pub open spec fn shipped_firmware(t: Seq<char>) -> int {
    if t == "Gen1Hybrid"@ {
        252
    } else if t == "Gen2Hybrid"@ {
        852
    } else if t == "Gen3Plus6kW"@ || t == "Gen3Plus4600"@ || t == "Gen3Plus3600"@ || t
        == "Gen3Plus6kW2"@ {
        452
    } else {
        318
    }
}

/// The ARM firmware version that the registers show: the version set by hand,
/// where there is one.
pub open spec fn shown_firmware(t: Seq<char>, set_by_hand: int) -> int {
    if set_by_hand != 0 {
        set_by_hand
    } else if three_phase(t) {
        612
    } else {
        shipped_firmware(t)
    }
}

/// Nominal battery voltage of type `t`, in tenths of a volt.
pub open spec fn nominal_decivolts(t: Seq<char>) -> int {
    if three_phase(t) {
        768
    } else if t == "AllInOne6"@ || t == "AllInOne"@ || t == "AllInOne5"@ || t == "AIO8kW"@ || t
        == "AIO10kW"@ {
        3070
    } else {
        512
    }
}

/// Whether charge slot 2 lives at HR 243-244 rather than at HR 31-32.
///
/// The hybrids of the third generation and later, and the three-phase models,
/// use the extended block. Gen1 hybrids use the classic one. Gen2 hybrids and
/// AC-coupled models have no slot 2.
pub fn uses_gen3_extended_slots(inverter_type: &str) -> (r: bool)
    ensures
        r == extended_slots(inverter_type@),
{
    !(same(inverter_type, "Gen1Hybrid") || same(inverter_type, "Gen2Hybrid") || same(
        inverter_type,
        "ACCoupled",
    ) || same(inverter_type, "ACCoupled2"))
}

/// Whether the type has a second charge and discharge slot.
pub fn has_slot_2(inverter_type: &str) -> (r: bool)
    ensures
        r == second_slot(inverter_type@),
{
    !(same(inverter_type, "Gen2Hybrid") || same(inverter_type, "ACCoupled") || same(
        inverter_type,
        "ACCoupled2",
    ))
}

/// Whether the type reports line-to-line voltage on three phases.
pub fn is_three_phase_inverter(inverter_type: &str) -> (r: bool)
    ensures
        r == three_phase(inverter_type@),
{
    starts_with(inverter_type, "ThreePhase") || same(inverter_type, "ACThreePhase")
}

/// Whether the type is a gateway, which serves the aggregation bank.
pub fn is_gateway_inverter(inverter_type: &str) -> (r: bool)
    ensures
        r == gateway(inverter_type@),
{
    starts_with(inverter_type, "Gateway")
}

/// The device type code of HR 0.
pub fn device_type_code(inverter_type: &str) -> (r: u16)
    ensures
        r == type_code(inverter_type@),
{
    if same(inverter_type, "Gen1Hybrid") || same(inverter_type, "Gen2Hybrid") || same(inverter_type, "Gen3Hybrid") {
        0x2001
    } else if same(inverter_type, "Hybrid4600") {
        0x2002
    } else if same(inverter_type, "Hybrid3600") {
        0x2003
    } else if same(inverter_type, "Polar5kW") {
        0x2101
    } else if same(inverter_type, "Polar4600") {
        0x2102
    } else if same(inverter_type, "Polar3600") {
        0x2103
    } else if same(inverter_type, "Polar6kW") {
        0x2104
    } else if same(inverter_type, "Polar7kW") {
        0x2105
    } else if same(inverter_type, "Gen3Hybrid8kW") {
        0x2106
    } else if same(inverter_type, "Gen3Hybrid10kW") {
        0x2102
    } else if same(inverter_type, "Polar8kW") {
        0x2106
    } else if same(inverter_type, "Gen3Plus6kW") {
        0x2201
    } else if same(inverter_type, "Gen3Plus4600") {
        0x2202
    } else if same(inverter_type, "Gen3Plus3600") {
        0x2203
    } else if same(inverter_type, "Gen3Plus6kW2") {
        0x2204
    } else if same(inverter_type, "Gen3Plus7kW") {
        0x2205
    } else if same(inverter_type, "Gen3Plus8kW") {
        0x2206
    } else if same(inverter_type, "PVInverter5kW") {
        0x2301
    } else if same(inverter_type, "PVInverter4600") {
        0x2302
    } else if same(inverter_type, "PVInverter3600") {
        0x2303
    } else if same(inverter_type, "PVInverter6kW") {
        0x2304
    } else if same(inverter_type, "ACCoupled") {
        0x3001
    } else if same(inverter_type, "ACCoupled2") {
        0x3002
    } else if same(inverter_type, "ThreePhase") {
        0x4001
    } else if same(inverter_type, "ThreePhase8kW") {
        0x4002
    } else if same(inverter_type, "ThreePhase10kW") {
        0x4003
    } else if same(inverter_type, "ThreePhase11kW") {
        0x4004
    } else if same(inverter_type, "AIOCommercial") {
        0x4101
    } else if same(inverter_type, "EMS") {
        0x5001
    } else if same(inverter_type, "EMSCommercial") {
        0x5101
    } else if same(inverter_type, "ACThreePhase") {
        0x6001
    } else if same(inverter_type, "Gateway12kW") {
        0x7001
    } else if same(inverter_type, "AllInOne6") {
        0x8001
    } else if same(inverter_type, "AllInOne") {
        0x8002
    } else if same(inverter_type, "AllInOne5") {
        0x8003
    } else if same(inverter_type, "AIO6kW") {
        0x8101
    } else if same(inverter_type, "AIO8kW") {
        0x8102
    } else if same(inverter_type, "AIO10kW") {
        0x8103
    } else if same(inverter_type, "AIOHybrid6kW") {
        0x8201
    } else if same(inverter_type, "AIOHybrid8kW") {
        0x8202
    } else if same(inverter_type, "AIOHybrid10kW") {
        0x8203
    } else if same(inverter_type, "AIOHybrid12kW") {
        0x8204
    } else if same(inverter_type, "Gen4Hybrid6kW") {
        0x8304
    } else {
        0x2001
    }
}

/// The ARM firmware version that a type ships with.
pub fn shipped_firmware_of(inverter_type: &str) -> (r: u16)
    ensures
        r == shipped_firmware(inverter_type@),
{
    if same(inverter_type, "Gen1Hybrid") {
        252
    } else if same(inverter_type, "Gen2Hybrid") {
        852
    } else if same(inverter_type, "Gen3Plus6kW") || same(inverter_type, "Gen3Plus4600") || same(
        inverter_type,
        "Gen3Plus3600",
    ) || same(inverter_type, "Gen3Plus6kW2") {
        452
    } else {
        318
    }
}

/// The ARM firmware version that HR 21 shows.
pub fn shown_firmware_of(inverter_type: &str, set_by_hand: u16) -> (r: u16)
    ensures
        r == shown_firmware(inverter_type@, set_by_hand as int),
{
    if set_by_hand != 0 {
        set_by_hand
    } else if is_three_phase_inverter(inverter_type) {
        612
    } else {
        shipped_firmware_of(inverter_type)
    }
}

/// Nominal battery voltage in tenths of a volt.
pub fn nominal_decivolts_of(inverter_type: &str) -> (r: u16)
    ensures
        r == nominal_decivolts(inverter_type@),
        r >= 512,
{
    if is_three_phase_inverter(inverter_type) {
        768
    } else if same(inverter_type, "AllInOne6") || same(inverter_type, "AllInOne") || same(
        inverter_type,
        "AllInOne5",
    ) || same(inverter_type, "AIO8kW") || same(inverter_type, "AIO10kW") {
        3070
    } else {
        512
    }
}

/// Law: a type without a second slot never has an extended one.
pub proof fn law_extended_slots_need_slot_2(t: Seq<char>)
    ensures
        extended_slots(t) ==> second_slot(t),
{
}

/// Law: no type is both a three-phase inverter and a gateway.
pub proof fn law_gateway_is_not_three_phase(t: Seq<char>)
    ensures
        !(gateway(t) && three_phase(t)),
{
    reveal_strlit("ThreePhase");
    reveal_strlit("ACThreePhase");
    reveal_strlit("Gateway");
    if gateway(t) {
        assert(t[0] == t.subrange(0, 7)[0]);
        if crate::text::has_prefix(t, "ThreePhase"@) {
            assert(t[0] == t.subrange(0, 10)[0]);
        }
    }
}

/// Which wire register carries the power limit of the grid port.
///
/// * `SinglePhase`: HR 26, read-only, the physical AC output.
/// * `ThreePhase`: HR 1063, tenths of a watt, at most 6500 W.
/// * `Ems`: HR 2071, whole watts. The gateway shares it.
#[derive(Clone, Copy, Debug, PartialEq, Eq, Structural)]
pub enum GridPortPowerFamily {
    SinglePhase,
    ThreePhase,
    Ems,
}

/// The family of inverter type `t`.
pub open spec fn grid_port_family(t: Seq<char>) -> GridPortPowerFamily {
    if three_phase(t) {
        GridPortPowerFamily::ThreePhase
    } else if t == "EMS"@ || t == "EmsCommercial"@ || t == "Gateway12kW"@ {
        GridPortPowerFamily::Ems
    } else {
        GridPortPowerFamily::SinglePhase
    }
}

/// The largest limit, in whole watts, that a family accepts.
pub open spec fn ceiling_watts(f: GridPortPowerFamily) -> int {
    match f {
        GridPortPowerFamily::SinglePhase => 0,
        GridPortPowerFamily::ThreePhase => 6500,
        GridPortPowerFamily::Ems => 65535,
    }
}

/// `watts`, in millionths, held to what the family accepts.
pub open spec fn clamped_watts(f: GridPortPowerFamily, watts: int) -> int {
    crate::fixed::saturate(watts, 0, ceiling_watts(f) * 1_000_000)
}

/// The export limit, in millionths of a watt, that a request for `watts`
/// leads to. A single-phase site may set any cap, also one above what the
/// inverter can reach.
pub open spec fn export_limit(f: GridPortPowerFamily, watts: int) -> int {
    match f {
        GridPortPowerFamily::SinglePhase => crate::fixed::positive_part(watts),
        _ => clamped_watts(f, watts),
    }
}

/// The label that names the register of a family.
pub open spec fn family_label(f: GridPortPowerFamily) -> Seq<char> {
    match f {
        GridPortPowerFamily::SinglePhase => "Inverter Max AC Output (HR 26, read-only)"@,
        GridPortPowerFamily::ThreePhase => "Grid Port Export Limit (HR 1063, ×0.1 dW)"@,
        GridPortPowerFamily::Ems => "Grid Port Export Limit (HR 2071, raw W)"@,
    }
}

impl GridPortPowerFamily {
    /// The family of an inverter type.
    pub fn from_inverter_type(inverter_type: &str) -> (r: GridPortPowerFamily)
        ensures
            r == grid_port_family(inverter_type@),
    {
        if is_three_phase_inverter(inverter_type) {
            GridPortPowerFamily::ThreePhase
        } else if same(inverter_type, "EMS") || same(inverter_type, "EmsCommercial") || same(
            inverter_type,
            "Gateway12kW",
        ) {
            GridPortPowerFamily::Ems
        } else {
            GridPortPowerFamily::SinglePhase
        }
    }

    /// A label that names the register in play.
    pub fn label(self) -> (r: &'static str)
        ensures
            r@ == family_label(self),
    {
        match self {
            GridPortPowerFamily::SinglePhase => "Inverter Max AC Output (HR 26, read-only)",
            GridPortPowerFamily::ThreePhase => "Grid Port Export Limit (HR 1063, ×0.1 dW)",
            GridPortPowerFamily::Ems => "Grid Port Export Limit (HR 2071, raw W)",
        }
    }

    /// The largest limit that this family accepts.
    pub fn max_w(self) -> (r: Fixed)
        ensures
            r@ == ceiling_watts(self) * 1_000_000,
    {
        match self {
            GridPortPowerFamily::SinglePhase => Fixed::from_units(0),
            GridPortPowerFamily::ThreePhase => Fixed::from_units(6500),
            GridPortPowerFamily::Ems => Fixed::from_units(65535),
        }
    }

    /// `watts` held to what this family accepts; negative values become zero.
    pub fn clamp_watts(self, watts: Fixed) -> (r: Fixed)
        ensures
            r@ == clamped_watts(self, watts@),
    {
        let top = self.max_w();
        if watts.micros() < 0 {
            Fixed::from_units(0)
        } else if watts.micros() > top.micros() {
            top
        } else {
            watts
        }
    }

    /// The export limit that a request for `watts` leads to.
    pub fn export_limit_for(self, watts: Fixed) -> (r: Fixed)
        ensures
            r == Fixed::of(export_limit(self, watts@)),
            r@ == export_limit(self, watts@),
    {
        let asked: i64 = watts.micros();
        proof {
            crate::fixed::lemma_fixed_of(export_limit(self, watts@));
        }
        let limit = match self {
            GridPortPowerFamily::SinglePhase => if asked < 0 {
                Fixed::from_units(0)
            } else {
                watts
            },
            GridPortPowerFamily::ThreePhase => self.clamp_watts(watts),
            GridPortPowerFamily::Ems => self.clamp_watts(watts),
        };
        proof {
            crate::fixed::lemma_fixed_same(limit, Fixed::of(export_limit(self, watts@)));
        }
        limit
    }
}

/// Law: clamping is idempotent and never exceeds the family's ceiling.
pub proof fn law_clamp_watts(f: GridPortPowerFamily, watts: int)
    ensures
        0 <= clamped_watts(f, watts) <= ceiling_watts(f) * 1_000_000,
        clamped_watts(f, clamped_watts(f, watts)) == clamped_watts(f, watts),
        0 <= watts <= ceiling_watts(f) * 1_000_000 ==> clamped_watts(f, watts) == watts,
{
}

/// Law: a label tells its family.
pub proof fn law_labels_distinct(f: GridPortPowerFamily, g: GridPortPowerFamily)
    requires
        family_label(f) == family_label(g),
    ensures
        f == g,
{
    reveal_strlit("Inverter Max AC Output (HR 26, read-only)");
    reveal_strlit("Grid Port Export Limit (HR 1063, ×0.1 dW)");
    reveal_strlit("Grid Port Export Limit (HR 2071, raw W)");
    assert("Inverter Max AC Output (HR 26, read-only)"@[0] == 'I');
    assert("Grid Port Export Limit (HR 1063, ×0.1 dW)"@[0] == 'G');
    assert("Grid Port Export Limit (HR 2071, raw W)"@[0] == 'G');
    assert("Grid Port Export Limit (HR 1063, ×0.1 dW)"@[27] == '1');
    assert("Grid Port Export Limit (HR 2071, raw W)"@[27] == '2');
}

} // verus!
