//! What a gateway shows in front of its units.
use crate::catalogue;
use crate::projection::gateway;
use crate::registers;
use crate::showing::{plain, words};
use crate::state::PlantState;
use vstd::prelude::*;

verus! {

/// How many units a gateway shows: at least one and at most three.
pub open spec fn units(s: PlantState) -> int {
    plain::within(s.config.parallel_aio_num as int, 1, 3)
}

/// Whether the gateway has firmware that puts the lower word of a long counter first.
pub open spec fn lower_first(s: PlantState) -> bool {
    s.config.gateway_fw_version >= 10
}

/// The first word of a long counter.
pub open spec fn first(s: PlantState, x: int) -> int {
    if lower_first(s) {
        plain::lower(x)
    } else {
        plain::upper(x)
    }
}

/// The second word of a long counter.
pub open spec fn second(s: PlantState, x: int) -> int {
    if lower_first(s) {
        plain::upper(x)
    } else {
        plain::lower(x)
    }
}

/// A register of the gateway's bank shows what the overlay puts there.
proof fn lemma_overlaid(values: Map<u32, u16>, s: PlantState, key: int)
    requires
        plain::gateway(s.config.inverter_type@),
        0 <= key <= 65_535,
        gateway::overlay_word(key, s) is Some,
    ensures
        registers::projected_values(values, catalogue::catalogue(), s).get(key as u32) == Some(
            gateway::overlay_word(key, s)->0 as u16,
        ),
{
    words::lemma_types(s.config.inverter_type@);
}

/// Law: a gateway names itself "GW2423G192", its firmware "GA00" and the version, and its
/// first unit
/// "SA24230001".
#[verifier::spinoff_prover]
#[verifier::rlimit(40)]
pub proof fn law_gateway_identity(values: Map<u32, u16>, s: PlantState)
    requires
        plain::gateway(s.config.inverter_type@),
    ensures
        words::holding(values, s, 13) == Some(0x4757u16),
        words::holding(values, s, 14) == Some(0x3234u16),
        words::holding(values, s, 15) == Some(0x3233u16),
        words::holding(values, s, 16) == Some(0x4731u16),
        words::holding(values, s, 17) == Some(0x3932u16),
        words::input(values, s, 1600) == Some(0x4741u16),
        words::input(values, s, 1601) == Some(0x3030u16),
        words::input(values, s, 1602) == Some(0u16),
        words::input(values, s, 1603) == Some(s.config.gateway_fw_version as u16),
        words::input(values, s, 1604) == Some(2u16),
        words::input(values, s, 1627) == Some(0x5341u16),
        words::input(values, s, 1628) == Some(0x3234u16),
        words::input(values, s, 1629) == Some(0x3233u16),
        words::input(values, s, 1630) == Some(0x3030u16),
        words::input(values, s, 1631) == Some(0x3031u16),
{
    lemma_overlaid(values, s, 10013);
    lemma_overlaid(values, s, 10014);
    lemma_overlaid(values, s, 10015);
    lemma_overlaid(values, s, 10016);
    lemma_overlaid(values, s, 10017);
    lemma_overlaid(values, s, 1600);
    lemma_overlaid(values, s, 1601);
    lemma_overlaid(values, s, 1602);
    lemma_overlaid(values, s, 1603);
    lemma_overlaid(values, s, 1604);
    lemma_overlaid(values, s, 1627);
    lemma_overlaid(values, s, 1628);
    lemma_overlaid(values, s, 1629);
    lemma_overlaid(values, s, 1630);
    lemma_overlaid(values, s, 1631);
}

/// Law: voltages, currents and powers of a gateway.
#[verifier::spinoff_prover]
#[verifier::rlimit(40)]
pub proof fn law_gateway_power(values: Map<u32, u16>, s: PlantState)
    requires
        plain::gateway(s.config.inverter_type@),
    ensures
        words::input(values, s, 1608) == Some((if s.grid.connected { 2400int } else { 0 }) as u16),
        words::input(values, s, 1610) == Some((if s.grid.connected { 2400int } else { 0 }) as u16),
        words::input(values, s, 1624) == Some((if s.grid.connected { 2400int } else { 0 }) as u16),
        words::input(values, s, 1625) == Some((if s.grid.connected { 2400int } else { 0 }) as u16),
        words::input(values, s, 1609) == Some(
            plain::signed_word(s.grid.power_w@, 24_000_000) as u16,
        ),
        words::input(values, s, 1611) == Some(plain::word(s.load_demand_w@, 24_000_000) as u16),
        words::input(values, s, 1612) == Some(
            plain::word(s.solar.generation_w@, 24_000_000) as u16,
        ),
        words::input(values, s, 1616) == Some(
            plain::signed_word(s.battery.power_kw@ * 1000, 1_000_000) as u16,
        ),
        words::input(values, s, 1617) == Some(plain::word(s.solar.generation_w@, 1_000_000) as u16),
        words::input(values, s, 1618) == Some(plain::word(s.load_demand_w@, 1_000_000) as u16),
        words::input(values, s, 1619) == Some(0u16),
        words::input(values, s, 1620) == Some(0u16),
        words::input(values, s, 1621) == Some(0u16),
        words::input(values, s, 1622) == Some(0u16),
        words::input(values, s, 1623) == Some(0u16),
{
    lemma_overlaid(values, s, 1608);
    lemma_overlaid(values, s, 1610);
    lemma_overlaid(values, s, 1624);
    lemma_overlaid(values, s, 1625);
    lemma_overlaid(values, s, 1609);
    lemma_overlaid(values, s, 1611);
    lemma_overlaid(values, s, 1612);
    lemma_overlaid(values, s, 1616);
    lemma_overlaid(values, s, 1617);
    lemma_overlaid(values, s, 1618);
    lemma_overlaid(values, s, 1619);
    lemma_overlaid(values, s, 1620);
    lemma_overlaid(values, s, 1621);
    lemma_overlaid(values, s, 1622);
    lemma_overlaid(values, s, 1623);
}

/// Law: the energy counters IR 1640-1648 of a gateway.
#[verifier::spinoff_prover]
#[verifier::rlimit(40)]
pub proof fn law_gateway_grid_and_solar_energy(values: Map<u32, u16>, s: PlantState)
    requires
        plain::gateway(s.config.inverter_type@),
    ensures
        words::input(values, s, 1640) == Some(
            plain::word(s.energy_totals.grid_import_kwh@, 100_000) as u16,
        ),
        words::input(values, s, 1641) == Some(
            first(s, plain::long(s.energy_totals.grid_import_kwh@, 100_000)) as u16,
        ),
        words::input(values, s, 1642) == Some(
            second(s, plain::long(s.energy_totals.grid_import_kwh@, 100_000)) as u16,
        ),
        words::input(values, s, 1643) == Some(
            plain::word(s.energy_totals.solar_generation_kwh@, 100_000) as u16,
        ),
        words::input(values, s, 1644) == Some(
            first(s, plain::long(s.energy_totals.solar_generation_kwh@, 100_000)) as u16,
        ),
        words::input(values, s, 1645) == Some(
            second(s, plain::long(s.energy_totals.solar_generation_kwh@, 100_000)) as u16,
        ),
        words::input(values, s, 1646) == Some(
            plain::word(s.energy_totals.grid_export_kwh@, 100_000) as u16,
        ),
        words::input(values, s, 1647) == Some(
            first(s, plain::long(s.energy_totals.grid_export_kwh@, 100_000)) as u16,
        ),
        words::input(values, s, 1648) == Some(
            second(s, plain::long(s.energy_totals.grid_export_kwh@, 100_000)) as u16,
        ),
{
    lemma_overlaid(values, s, 1640);
    lemma_overlaid(values, s, 1641);
    lemma_overlaid(values, s, 1642);
    lemma_overlaid(values, s, 1643);
    lemma_overlaid(values, s, 1644);
    lemma_overlaid(values, s, 1645);
    lemma_overlaid(values, s, 1646);
    lemma_overlaid(values, s, 1647);
    lemma_overlaid(values, s, 1648);
}

/// Law: the energy counters IR 1649-1657 of a gateway.
#[verifier::spinoff_prover]
#[verifier::rlimit(40)]
pub proof fn law_gateway_battery_and_load_energy(values: Map<u32, u16>, s: PlantState)
    requires
        plain::gateway(s.config.inverter_type@),
    ensures
        words::input(values, s, 1649) == Some(
            plain::word(s.energy_totals.battery_charge_kwh@, 100_000) as u16,
        ),
        words::input(values, s, 1650) == Some(
            first(s, plain::long(s.energy_totals.battery_charge_kwh@, 100_000)) as u16,
        ),
        words::input(values, s, 1651) == Some(
            second(s, plain::long(s.energy_totals.battery_charge_kwh@, 100_000)) as u16,
        ),
        words::input(values, s, 1652) == Some(
            plain::word(s.energy_totals.battery_discharge_kwh@, 100_000) as u16,
        ),
        words::input(values, s, 1653) == Some(
            first(s, plain::long(s.energy_totals.battery_discharge_kwh@, 100_000)) as u16,
        ),
        words::input(values, s, 1654) == Some(
            second(s, plain::long(s.energy_totals.battery_discharge_kwh@, 100_000)) as u16,
        ),
        words::input(values, s, 1655) == Some(
            plain::word(s.energy_totals.load_consumption_kwh@, 100_000) as u16,
        ),
        words::input(values, s, 1656) == Some(
            first(s, plain::long(s.energy_totals.load_consumption_kwh@, 100_000)) as u16,
        ),
        words::input(values, s, 1657) == Some(
            second(s, plain::long(s.energy_totals.load_consumption_kwh@, 100_000)) as u16,
        ),
{
    lemma_overlaid(values, s, 1649);
    lemma_overlaid(values, s, 1650);
    lemma_overlaid(values, s, 1651);
    lemma_overlaid(values, s, 1652);
    lemma_overlaid(values, s, 1653);
    lemma_overlaid(values, s, 1654);
    lemma_overlaid(values, s, 1655);
    lemma_overlaid(values, s, 1656);
    lemma_overlaid(values, s, 1657);
}

/// Law: the units behind a gateway: how many, their power and state, and their reserve.
#[verifier::spinoff_prover]
#[verifier::rlimit(40)]
pub proof fn law_gateway_units(values: Map<u32, u16>, s: PlantState)
    requires
        plain::gateway(s.config.inverter_type@),
    ensures
        words::input(values, s, 1700) == Some(units(s) as u16),
        words::input(values, s, 1701) == Some(units(s) as u16),
        words::input(values, s, 1702) == Some(
            plain::signed_word(s.battery.power_kw@ * 1000, 1_000_000) as u16,
        ),
        words::input(values, s, 1703) == Some(
            (if s.battery.power_kw@ > 10_000 {
                1int
            } else if s.battery.power_kw@ < -10_000 {
                2
            } else {
                0
            }) as u16,
        ),
        words::input(values, s, 1704) == Some(100u16),
        words::input(values, s, 1801) == Some(
            (if 0 < units(s) { plain::word(s.battery.soc_percent@, 1_000_000) } else { 0 }) as u16,
        ),
        words::input(values, s, 1802) == Some(
            (if 1 < units(s) { plain::word(s.battery.soc_percent@, 1_000_000) } else { 0 }) as u16,
        ),
        words::input(values, s, 1803) == Some(
            (if 2 < units(s) { plain::word(s.battery.soc_percent@, 1_000_000) } else { 0 }) as u16,
        ),
        words::input(values, s, 1816) == Some(
            (if 0 < units(s) {
                plain::signed_word(s.battery.power_kw@ * 1000, units(s) * 1_000_000)
            } else {
                0
            }) as u16,
        ),
        words::input(values, s, 1817) == Some(
            (if 1 < units(s) {
                plain::signed_word(s.battery.power_kw@ * 1000, units(s) * 1_000_000)
            } else {
                0
            }) as u16,
        ),
        words::input(values, s, 1818) == Some(
            (if 2 < units(s) {
                plain::signed_word(s.battery.power_kw@ * 1000, units(s) * 1_000_000)
            } else {
                0
            }) as u16,
        ),
{
    lemma_overlaid(values, s, 1700);
    lemma_overlaid(values, s, 1701);
    lemma_overlaid(values, s, 1702);
    lemma_overlaid(values, s, 1703);
    lemma_overlaid(values, s, 1704);
    lemma_overlaid(values, s, 1801);
    lemma_overlaid(values, s, 1802);
    lemma_overlaid(values, s, 1803);
    lemma_overlaid(values, s, 1816);
    lemma_overlaid(values, s, 1817);
    lemma_overlaid(values, s, 1818);
}

/// Law: each unit behind a gateway shows an equal share of the energy charged.
#[verifier::spinoff_prover]
#[verifier::rlimit(40)]
pub proof fn law_gateway_unit_charge(values: Map<u32, u16>, s: PlantState)
    requires
        plain::gateway(s.config.inverter_type@),
    ensures
        words::input(values, s, 1705) == Some(
            (if 0 < units(s) {
                plain::word(s.energy_totals.battery_charge_kwh@, units(s) * 100_000)
            } else {
                0
            }) as u16,
        ),
        words::input(values, s, 1706) == Some(
            (if 0 < units(s) {
                first(s, plain::long(s.energy_totals.battery_charge_kwh@, units(s) * 100_000))
            } else {
                0
            }) as u16,
        ),
        words::input(values, s, 1707) == Some(
            (if 0 < units(s) {
                second(s, plain::long(s.energy_totals.battery_charge_kwh@, units(s) * 100_000))
            } else {
                0
            }) as u16,
        ),
        words::input(values, s, 1708) == Some(
            (if 1 < units(s) {
                plain::word(s.energy_totals.battery_charge_kwh@, units(s) * 100_000)
            } else {
                0
            }) as u16,
        ),
        words::input(values, s, 1709) == Some(
            (if 1 < units(s) {
                first(s, plain::long(s.energy_totals.battery_charge_kwh@, units(s) * 100_000))
            } else {
                0
            }) as u16,
        ),
        words::input(values, s, 1710) == Some(
            (if 1 < units(s) {
                second(s, plain::long(s.energy_totals.battery_charge_kwh@, units(s) * 100_000))
            } else {
                0
            }) as u16,
        ),
        words::input(values, s, 1711) == Some(
            (if 2 < units(s) {
                plain::word(s.energy_totals.battery_charge_kwh@, units(s) * 100_000)
            } else {
                0
            }) as u16,
        ),
        words::input(values, s, 1712) == Some(
            (if 2 < units(s) {
                first(s, plain::long(s.energy_totals.battery_charge_kwh@, units(s) * 100_000))
            } else {
                0
            }) as u16,
        ),
        words::input(values, s, 1713) == Some(
            (if 2 < units(s) {
                second(s, plain::long(s.energy_totals.battery_charge_kwh@, units(s) * 100_000))
            } else {
                0
            }) as u16,
        ),
{
    lemma_overlaid(values, s, 1705);
    lemma_overlaid(values, s, 1706);
    lemma_overlaid(values, s, 1707);
    lemma_overlaid(values, s, 1708);
    lemma_overlaid(values, s, 1709);
    lemma_overlaid(values, s, 1710);
    lemma_overlaid(values, s, 1711);
    lemma_overlaid(values, s, 1712);
    lemma_overlaid(values, s, 1713);
}

/// Law: each unit behind a gateway shows an equal share of the energy discharged.
#[verifier::spinoff_prover]
#[verifier::rlimit(40)]
pub proof fn law_gateway_unit_discharge(values: Map<u32, u16>, s: PlantState)
    requires
        plain::gateway(s.config.inverter_type@),
    ensures
        words::input(values, s, 1750) == Some(
            (if 0 < units(s) {
                plain::word(s.energy_totals.battery_discharge_kwh@, units(s) * 100_000)
            } else {
                0
            }) as u16,
        ),
        words::input(values, s, 1751) == Some(
            (if 0 < units(s) {
                first(s, plain::long(s.energy_totals.battery_discharge_kwh@, units(s) * 100_000))
            } else {
                0
            }) as u16,
        ),
        words::input(values, s, 1752) == Some(
            (if 0 < units(s) {
                second(s, plain::long(s.energy_totals.battery_discharge_kwh@, units(s) * 100_000))
            } else {
                0
            }) as u16,
        ),
        words::input(values, s, 1753) == Some(
            (if 1 < units(s) {
                plain::word(s.energy_totals.battery_discharge_kwh@, units(s) * 100_000)
            } else {
                0
            }) as u16,
        ),
        words::input(values, s, 1754) == Some(
            (if 1 < units(s) {
                first(s, plain::long(s.energy_totals.battery_discharge_kwh@, units(s) * 100_000))
            } else {
                0
            }) as u16,
        ),
        words::input(values, s, 1755) == Some(
            (if 1 < units(s) {
                second(s, plain::long(s.energy_totals.battery_discharge_kwh@, units(s) * 100_000))
            } else {
                0
            }) as u16,
        ),
        words::input(values, s, 1756) == Some(
            (if 2 < units(s) {
                plain::word(s.energy_totals.battery_discharge_kwh@, units(s) * 100_000)
            } else {
                0
            }) as u16,
        ),
        words::input(values, s, 1757) == Some(
            (if 2 < units(s) {
                first(s, plain::long(s.energy_totals.battery_discharge_kwh@, units(s) * 100_000))
            } else {
                0
            }) as u16,
        ),
        words::input(values, s, 1758) == Some(
            (if 2 < units(s) {
                second(s, plain::long(s.energy_totals.battery_discharge_kwh@, units(s) * 100_000))
            } else {
                0
            }) as u16,
        ),
{
    lemma_overlaid(values, s, 1750);
    lemma_overlaid(values, s, 1751);
    lemma_overlaid(values, s, 1752);
    lemma_overlaid(values, s, 1753);
    lemma_overlaid(values, s, 1754);
    lemma_overlaid(values, s, 1755);
    lemma_overlaid(values, s, 1756);
    lemma_overlaid(values, s, 1757);
    lemma_overlaid(values, s, 1758);
}

/// Law: the totals IR 1795-1800 of a gateway.
#[verifier::spinoff_prover]
#[verifier::rlimit(40)]
pub proof fn law_gateway_battery_totals(values: Map<u32, u16>, s: PlantState)
    requires
        plain::gateway(s.config.inverter_type@),
    ensures
        words::input(values, s, 1795) == Some(
            plain::word(s.energy_totals.battery_charge_kwh@, 100_000) as u16,
        ),
        words::input(values, s, 1796) == Some(
            first(s, plain::long(s.energy_totals.battery_charge_kwh@, 100_000)) as u16,
        ),
        words::input(values, s, 1797) == Some(
            second(s, plain::long(s.energy_totals.battery_charge_kwh@, 100_000)) as u16,
        ),
        words::input(values, s, 1798) == Some(
            plain::word(s.energy_totals.battery_discharge_kwh@, 100_000) as u16,
        ),
        words::input(values, s, 1799) == Some(
            first(s, plain::long(s.energy_totals.battery_discharge_kwh@, 100_000)) as u16,
        ),
        words::input(values, s, 1800) == Some(
            second(s, plain::long(s.energy_totals.battery_discharge_kwh@, 100_000)) as u16,
        ),
{
    lemma_overlaid(values, s, 1795);
    lemma_overlaid(values, s, 1796);
    lemma_overlaid(values, s, 1797);
    lemma_overlaid(values, s, 1798);
    lemma_overlaid(values, s, 1799);
    lemma_overlaid(values, s, 1800);
}

/// The place of a register among those of the unit serials, seven to a unit.
pub open spec fn serial_place(s: PlantState, a: int) -> int {
    a - (if lower_first(s) {
        1841int
    } else {
        1831
    })
}

/// Law: the serials of the units stand seven registers apart, five words each, and
/// differ in their last word only. All other registers of the block show zero.
pub proof fn law_gateway_serials(values: Map<u32, u16>, s: PlantState, a: int)
    requires
        plain::gateway(s.config.inverter_type@),
        1831 <= a <= 1859,
    ensures
        ({
            let p = serial_place(s, a);
            words::input(values, s, a) == Some(
                (if p < 0 || p >= 7 * units(s) || p % 7 > 4 {
                    0int
                } else if p % 7 == 0 {
                    0x5341
                } else if p % 7 == 1 {
                    0x3234
                } else if p % 7 == 2 {
                    0x3233
                } else if p % 7 == 3 {
                    0x3030
                } else {
                    0x3031 + p / 7
                }) as u16,
            )
        }),
{
    lemma_overlaid(values, s, a);
}

} // verus!
