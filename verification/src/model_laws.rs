//! What the inverter models promise.
use crate::model;
use crate::model::GridPortPowerFamily;
use crate::showing::{plain, words};
use vstd::prelude::*;

verus! {

/// The names of the types differ.
proof fn lemma_types()
    ensures
        "Gen1Hybrid"@.len() == 10,
        "Gen1Hybrid"@[3] == '1',
        "Gen1Hybrid"@[5] == 'y',
        "Gen2Hybrid"@.len() == 10,
        "Gen2Hybrid"@[3] == '2',
        "Gen2Hybrid"@[5] == 'y',
        "Gen3Hybrid"@.len() == 10,
        "Gen3Hybrid"@[3] == '3',
        "Gen3Hybrid"@[5] == 'y',
        "Hybrid4600"@.len() == 10,
        "Hybrid4600"@[5] == 'd',
        "Hybrid4600"@[6] == '4',
        "Hybrid3600"@.len() == 10,
        "Hybrid3600"@[5] == 'd',
        "Hybrid3600"@[6] == '3',
        "Polar5kW"@.len() == 8,
        "Polar5kW"@[5] == '5',
        "Polar4600"@.len() == 9,
        "Polar4600"@[5] == '4',
        "Polar3600"@.len() == 9,
        "Polar3600"@[5] == '3',
        "Polar6kW"@.len() == 8,
        "Polar6kW"@[5] == '6',
        "Polar7kW"@.len() == 8,
        "Polar7kW"@[5] == '7',
        "Gen3Hybrid8kW"@.len() == 13,
        "Gen3Hybrid8kW"@[3] == '3',
        "Gen3Hybrid8kW"@[5] == 'y',
        "Gen3Hybrid10kW"@.len() == 14,
        "Gen3Hybrid10kW"@[5] == 'y',
        "Polar8kW"@.len() == 8,
        "Polar8kW"@[5] == '8',
        "Gen3Plus6kW"@.len() == 11,
        "Gen3Plus6kW"@[5] == 'l',
        "Gen3Plus6kW"@[8] == '6',
        "Gen3Plus4600"@.len() == 12,
        "Gen3Plus4600"@[5] == 'l',
        "Gen3Plus4600"@[8] == '4',
        "Gen3Plus3600"@.len() == 12,
        "Gen3Plus3600"@[5] == 'l',
        "Gen3Plus3600"@[8] == '3',
        "Gen3Plus6kW2"@.len() == 12,
        "Gen3Plus6kW2"@[5] == 'l',
        "Gen3Plus6kW2"@[8] == '6',
        "Gen3Plus7kW"@.len() == 11,
        "Gen3Plus7kW"@[5] == 'l',
        "Gen3Plus7kW"@[8] == '7',
        "Gen3Plus8kW"@.len() == 11,
        "Gen3Plus8kW"@[5] == 'l',
        "Gen3Plus8kW"@[8] == '8',
        "PVInverter5kW"@.len() == 13,
        "PVInverter5kW"@[5] == 'e',
        "PVInverter5kW"@[10] == '5',
        "PVInverter4600"@.len() == 14,
        "PVInverter4600"@[5] == 'e',
        "PVInverter4600"@[10] == '4',
        "PVInverter3600"@.len() == 14,
        "PVInverter3600"@[5] == 'e',
        "PVInverter3600"@[10] == '3',
        "PVInverter6kW"@.len() == 13,
        "PVInverter6kW"@[5] == 'e',
        "PVInverter6kW"@[10] == '6',
        "ACCoupled"@.len() == 9,
        "ACCoupled"@[5] == 'p',
        "ACCoupled2"@.len() == 10,
        "ACCoupled2"@[5] == 'p',
        "ThreePhase"@.len() == 10,
        "ThreePhase"@[5] == 'P',
        "ThreePhase8kW"@.len() == 13,
        "ThreePhase8kW"@[5] == 'P',
        "ThreePhase10kW"@.len() == 14,
        "ThreePhase10kW"@[5] == 'P',
        "ThreePhase10kW"@[11] == '0',
        "ThreePhase11kW"@.len() == 14,
        "ThreePhase11kW"@[5] == 'P',
        "ThreePhase11kW"@[11] == '1',
        "AIOCommercial"@.len() == 13,
        "AIOCommercial"@[0] == 'A',
        "AIOCommercial"@[5] == 'm',
        "EMS"@.len() == 3,
        "EMSCommercial"@.len() == 13,
        "EMSCommercial"@[0] == 'E',
        "EMSCommercial"@[5] == 'm',
        "ACThreePhase"@.len() == 12,
        "ACThreePhase"@[5] == 'e',
        "Gateway12kW"@.len() == 11,
        "Gateway12kW"@[5] == 'a',
        "AllInOne6"@.len() == 9,
        "AllInOne6"@[5] == 'O',
        "AllInOne6"@[8] == '6',
        "AllInOne"@.len() == 8,
        "AllInOne"@[5] == 'O',
        "AllInOne5"@.len() == 9,
        "AllInOne5"@[5] == 'O',
        "AllInOne5"@[8] == '5',
        "AIO6kW"@.len() == 6,
        "AIO6kW"@[3] == '6',
        "AIO8kW"@.len() == 6,
        "AIO8kW"@[3] == '8',
        "AIO10kW"@.len() == 7,
        "AIOHybrid6kW"@.len() == 12,
        "AIOHybrid6kW"@[5] == 'b',
        "AIOHybrid6kW"@[9] == '6',
        "AIOHybrid8kW"@.len() == 12,
        "AIOHybrid8kW"@[5] == 'b',
        "AIOHybrid8kW"@[9] == '8',
        "AIOHybrid10kW"@.len() == 13,
        "AIOHybrid10kW"@[5] == 'b',
        "AIOHybrid10kW"@[10] == '0',
        "AIOHybrid12kW"@.len() == 13,
        "AIOHybrid12kW"@[5] == 'b',
        "AIOHybrid12kW"@[10] == '2',
        "Gen4Hybrid6kW"@.len() == 13,
        "Gen4Hybrid6kW"@[3] == '4',
        "Gen4Hybrid6kW"@[5] == 'y',
{
    reveal_strlit("Gen1Hybrid");
    reveal_strlit("Gen2Hybrid");
    reveal_strlit("Gen3Hybrid");
    reveal_strlit("Hybrid4600");
    reveal_strlit("Hybrid3600");
    reveal_strlit("Polar5kW");
    reveal_strlit("Polar4600");
    reveal_strlit("Polar3600");
    reveal_strlit("Polar6kW");
    reveal_strlit("Polar7kW");
    reveal_strlit("Gen3Hybrid8kW");
    reveal_strlit("Gen3Hybrid10kW");
    reveal_strlit("Polar8kW");
    reveal_strlit("Gen3Plus6kW");
    reveal_strlit("Gen3Plus4600");
    reveal_strlit("Gen3Plus3600");
    reveal_strlit("Gen3Plus6kW2");
    reveal_strlit("Gen3Plus7kW");
    reveal_strlit("Gen3Plus8kW");
    reveal_strlit("PVInverter5kW");
    reveal_strlit("PVInverter4600");
    reveal_strlit("PVInverter3600");
    reveal_strlit("PVInverter6kW");
    reveal_strlit("ACCoupled");
    reveal_strlit("ACCoupled2");
    reveal_strlit("ThreePhase");
    reveal_strlit("ThreePhase8kW");
    reveal_strlit("ThreePhase10kW");
    reveal_strlit("ThreePhase11kW");
    reveal_strlit("AIOCommercial");
    reveal_strlit("EMS");
    reveal_strlit("EMSCommercial");
    reveal_strlit("ACThreePhase");
    reveal_strlit("Gateway12kW");
    reveal_strlit("AllInOne6");
    reveal_strlit("AllInOne");
    reveal_strlit("AllInOne5");
    reveal_strlit("AIO6kW");
    reveal_strlit("AIO8kW");
    reveal_strlit("AIO10kW");
    reveal_strlit("AIOHybrid6kW");
    reveal_strlit("AIOHybrid8kW");
    reveal_strlit("AIOHybrid10kW");
    reveal_strlit("AIOHybrid12kW");
    reveal_strlit("Gen4Hybrid6kW");
}

/// Law: the code that HR 0 shows for each type. A name that is none of them counts as a
/// hybrid of the first generations.
#[verifier::rlimit(60)]
pub proof fn law_type_codes(t: Seq<char>)
    ensures
        model::type_code("Gen1Hybrid"@) == 0x2001,
        model::type_code("Gen2Hybrid"@) == 0x2001,
        model::type_code("Gen3Hybrid"@) == 0x2001,
        model::type_code("Hybrid4600"@) == 0x2002,
        model::type_code("Hybrid3600"@) == 0x2003,
        model::type_code("Polar5kW"@) == 0x2101,
        model::type_code("Polar4600"@) == 0x2102,
        model::type_code("Polar3600"@) == 0x2103,
        model::type_code("Polar6kW"@) == 0x2104,
        model::type_code("Polar7kW"@) == 0x2105,
        model::type_code("Gen3Hybrid8kW"@) == 0x2106,
        model::type_code("Gen3Hybrid10kW"@) == 0x2102,
        model::type_code("Polar8kW"@) == 0x2106,
        model::type_code("Gen3Plus6kW"@) == 0x2201,
        model::type_code("Gen3Plus4600"@) == 0x2202,
        model::type_code("Gen3Plus3600"@) == 0x2203,
        model::type_code("Gen3Plus6kW2"@) == 0x2204,
        model::type_code("Gen3Plus7kW"@) == 0x2205,
        model::type_code("Gen3Plus8kW"@) == 0x2206,
        model::type_code("PVInverter5kW"@) == 0x2301,
        model::type_code("PVInverter4600"@) == 0x2302,
        model::type_code("PVInverter3600"@) == 0x2303,
        model::type_code("PVInverter6kW"@) == 0x2304,
        model::type_code("ACCoupled"@) == 0x3001,
        model::type_code("ACCoupled2"@) == 0x3002,
        model::type_code("ThreePhase"@) == 0x4001,
        model::type_code("ThreePhase8kW"@) == 0x4002,
        model::type_code("ThreePhase10kW"@) == 0x4003,
        model::type_code("ThreePhase11kW"@) == 0x4004,
        model::type_code("AIOCommercial"@) == 0x4101,
        model::type_code("EMS"@) == 0x5001,
        model::type_code("EMSCommercial"@) == 0x5101,
        model::type_code("ACThreePhase"@) == 0x6001,
        model::type_code("Gateway12kW"@) == 0x7001,
        model::type_code("AllInOne6"@) == 0x8001,
        model::type_code("AllInOne"@) == 0x8002,
        model::type_code("AllInOne5"@) == 0x8003,
        model::type_code("AIO6kW"@) == 0x8101,
        model::type_code("AIO8kW"@) == 0x8102,
        model::type_code("AIO10kW"@) == 0x8103,
        model::type_code("AIOHybrid6kW"@) == 0x8201,
        model::type_code("AIOHybrid8kW"@) == 0x8202,
        model::type_code("AIOHybrid10kW"@) == 0x8203,
        model::type_code("AIOHybrid12kW"@) == 0x8204,
        model::type_code("Gen4Hybrid6kW"@) == 0x8304,
        t != "Gen1Hybrid"@ && t != "Gen2Hybrid"@ && t != "Gen3Hybrid"@ && t != "Hybrid4600"@
            && t != "Hybrid3600"@ && t != "Polar5kW"@ && t != "Polar4600"@ && t != "Polar3600"@
            && t != "Polar6kW"@ && t != "Polar7kW"@ && t != "Gen3Hybrid8kW"@
            && t != "Gen3Hybrid10kW"@ && t != "Polar8kW"@ && t != "Gen3Plus6kW"@
            && t != "Gen3Plus4600"@ && t != "Gen3Plus3600"@ && t != "Gen3Plus6kW2"@
            && t != "Gen3Plus7kW"@ && t != "Gen3Plus8kW"@ && t != "PVInverter5kW"@
            && t != "PVInverter4600"@ && t != "PVInverter3600"@ && t != "PVInverter6kW"@
            && t != "ACCoupled"@ && t != "ACCoupled2"@ && t != "ThreePhase"@
            && t != "ThreePhase8kW"@ && t != "ThreePhase10kW"@ && t != "ThreePhase11kW"@
            && t != "AIOCommercial"@ && t != "EMS"@ && t != "EMSCommercial"@
            && t != "ACThreePhase"@ && t != "Gateway12kW"@ && t != "AllInOne6"@ && t != "AllInOne"@
            && t != "AllInOne5"@ && t != "AIO6kW"@ && t != "AIO8kW"@ && t != "AIO10kW"@
            && t != "AIOHybrid6kW"@ && t != "AIOHybrid8kW"@ && t != "AIOHybrid10kW"@
            && t != "AIOHybrid12kW"@ && t != "Gen4Hybrid6kW"@ ==> model::type_code(t) == 0x2001,
{
    lemma_types();
}

/// Law: the firmware that a type ships with.
pub proof fn law_shipped_firmware(t: Seq<char>)
    requires
        !plain::three_phase(t),
    ensures
        model::shown_firmware(t, 0) == plain::firmware(t, 0),
        model::shipped_firmware("Gen1Hybrid"@) == 252,
        model::shipped_firmware("Gen2Hybrid"@) == 852,
        model::shipped_firmware("Gen3Hybrid"@) == 318,
        model::shipped_firmware("Gen3Plus6kW"@) == 452,
        model::shipped_firmware("Gen3Plus4600"@) == 452,
        model::shipped_firmware("Gen3Plus3600"@) == 452,
        model::shipped_firmware("Gen3Plus6kW2"@) == 452,
{
    lemma_types();
    words::lemma_types(t);
}

/// Law: three-phase inverters ship with firmware 612, and a version set by hand comes
/// before that of the type.
pub proof fn law_shown_firmware(t: Seq<char>, version: int)
    ensures
        version != 0 ==> model::shown_firmware(t, version) == version,
        plain::three_phase(t) ==> model::shown_firmware(t, 0) == 612,
{
    words::lemma_types(t);
}

/// Law: the nominal battery voltage of each kind of type, in tenths of a volt.
pub proof fn law_nominal_voltage(t: Seq<char>)
    ensures
        plain::three_phase(t) ==> model::nominal_decivolts(t) == 768,
        model::nominal_decivolts("AllInOne"@) == 3070,
        model::nominal_decivolts("AllInOne5"@) == 3070,
        model::nominal_decivolts("AllInOne6"@) == 3070,
        model::nominal_decivolts("AIO8kW"@) == 3070,
        model::nominal_decivolts("AIO10kW"@) == 3070,
        !plain::three_phase(t) && t != "AllInOne"@ && t != "AllInOne5"@ && t != "AllInOne6"@ && t
            != "AIO8kW"@ && t != "AIO10kW"@ ==> model::nominal_decivolts(t) == 512,
{
    lemma_types();
    words::lemma_types(t);
    words::lemma_types("AllInOne"@);
    words::lemma_types("AllInOne5"@);
    words::lemma_types("AllInOne6"@);
    words::lemma_types("AIO8kW"@);
    words::lemma_types("AIO10kW"@);
}

/// Law: which types are three-phase ones, which are gateways, and how many slots a type
/// has.
pub proof fn law_kinds(t: &str, three_phase: bool, gateway: bool, extended: bool, second: bool)
    requires
        call_ensures(model::is_three_phase_inverter, (t,), three_phase),
        call_ensures(model::is_gateway_inverter, (t,), gateway),
        call_ensures(model::uses_gen3_extended_slots, (t,), extended),
        call_ensures(model::has_slot_2, (t,), second),
    ensures
        three_phase <==> plain::three_phase(t@),
        gateway <==> plain::gateway(t@),
        second <==> t@ != "Gen2Hybrid"@ && t@ != "ACCoupled"@ && t@ != "ACCoupled2"@,
        extended <==> t@ != "Gen1Hybrid"@ && t@ != "Gen2Hybrid"@ && t@ != "ACCoupled"@ && t@
            != "ACCoupled2"@,
{
    words::lemma_types(t@);
}

/// Law: the labels and the limits of the grid port by family.
pub proof fn law_grid_port_families()
    ensures
        model::family_label(GridPortPowerFamily::SinglePhase)
            == "Inverter Max AC Output (HR 26, read-only)"@,
        model::family_label(GridPortPowerFamily::ThreePhase)
            == "Grid Port Export Limit (HR 1063, ×0.1 dW)"@,
        model::family_label(GridPortPowerFamily::Ems) == "Grid Port Export Limit (HR 2071, raw W)"@,
        model::ceiling_watts(GridPortPowerFamily::SinglePhase) == 0,
        model::ceiling_watts(GridPortPowerFamily::ThreePhase) == 6500,
        model::ceiling_watts(GridPortPowerFamily::Ems) == 65535,
{
}

} // verus!
