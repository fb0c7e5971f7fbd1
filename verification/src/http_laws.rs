//! What browsers and scripts can rely on.
use crate::http;
use crate::http::{
    ApiCommand, Argument, Progress, ReadError, ReadStep, RequestHead, RequestReader, Route,
    StreamAction, StreamEvent,
};
use crate::text;
use vstd::prelude::*;

verus! {

/// The names of the commands differ.
proof fn lemma_commands()
    ensures
        "create_plant"@.len() == 12,
        "create_plant"@[10] == 'n',
        "load_scenario"@.len() == 13,
        "load_scenario"@[10] == 'r',
        "start_simulation"@.len() == 16,
        "start_simulation"@[0] == 's',
        "start_simulation"@[10] == 'l',
        "pause_simulation"@.len() == 16,
        "pause_simulation"@[0] == 'p',
        "pause_simulation"@[10] == 'l',
        "inject_fault"@.len() == 12,
        "inject_fault"@[10] == 'l',
        "clear_fault"@.len() == 11,
        "clear_fault"@[10] == 't',
        "set_mode"@.len() == 8,
        "set_weather"@.len() == 11,
        "set_weather"@[10] == 'r',
        "set_solar_override"@.len() == 18,
        "set_solar_override"@[10] == 'o',
        "set_load_override"@.len() == 17,
        "set_load_override"@[10] == 'v',
        "set_ct_meter"@.len() == 12,
        "set_ct_meter"@[10] == 'e',
        "set_battery_soc"@.len() == 15,
        "set_battery_soc"@[10] == 'y',
        "set_battery_soc"@[14] == 'c',
        "set_battery_soh"@.len() == 15,
        "set_battery_soh"@[10] == 'y',
        "set_battery_soh"@[14] == 'h',
        "start_calibration"@.len() == 17,
        "start_calibration"@[10] == 'b',
        "cancel_calibration"@.len() == 18,
        "cancel_calibration"@[10] == 'i',
        "set_tick_interval"@.len() == 17,
        "set_tick_interval"@[10] == 'n',
        "get_current_state"@.len() == 17,
        "get_current_state"@[10] == 't',
        "save_plant"@.len() == 10,
        "save_plant"@[0] == 's',
        "has_saved_plant"@.len() == 15,
        "has_saved_plant"@[10] == 'p',
        "load_plant"@.len() == 10,
        "load_plant"@[0] == 'l',
        "export_recording"@.len() == 16,
        "export_recording"@[10] == 'o',
        "export_config"@.len() == 13,
        "export_config"@[10] == 'f',
        "set_evc_enabled"@.len() == 15,
        "set_evc_enabled"@[10] == 'a',
        "set_evc_charge_control"@.len() == 22,
        "set_evc_charge_control"@[10] == 'a',
        "set_evc_charge_control"@[16] == 'o',
        "set_evc_charge_current"@.len() == 22,
        "set_evc_charge_current"@[10] == 'a',
        "set_evc_charge_current"@[16] == 'u',
        "set_evc_session_energy"@.len() == 22,
        "set_evc_session_energy"@[10] == 's',
        "set_evc_cable_status"@.len() == 20,
        "get_evc_state"@.len() == 13,
        "get_evc_state"@[10] == 'a',
        "set_evc_port"@.len() == 12,
        "set_evc_port"@[0] == 's',
        "set_evc_port"@[10] == 'r',
        "get_evc_port"@.len() == 12,
        "get_evc_port"@[0] == 'g',
        "get_evc_port"@[10] == 'r',
        "set_dsp_firmware"@.len() == 16,
        "set_dsp_firmware"@[4] == 'd',
        "set_dsp_firmware"@[10] == 'r',
        "set_arm_firmware"@.len() == 16,
        "set_arm_firmware"@[4] == 'a',
        "set_arm_firmware"@[10] == 'r',
        "set_inverter_temperature"@.len() == 24,
{
    reveal_strlit("create_plant");
    reveal_strlit("load_scenario");
    reveal_strlit("start_simulation");
    reveal_strlit("pause_simulation");
    reveal_strlit("inject_fault");
    reveal_strlit("clear_fault");
    reveal_strlit("set_mode");
    reveal_strlit("set_weather");
    reveal_strlit("set_solar_override");
    reveal_strlit("set_load_override");
    reveal_strlit("set_ct_meter");
    reveal_strlit("set_battery_soc");
    reveal_strlit("set_battery_soh");
    reveal_strlit("start_calibration");
    reveal_strlit("cancel_calibration");
    reveal_strlit("set_tick_interval");
    reveal_strlit("get_current_state");
    reveal_strlit("save_plant");
    reveal_strlit("has_saved_plant");
    reveal_strlit("load_plant");
    reveal_strlit("export_recording");
    reveal_strlit("export_config");
    reveal_strlit("set_evc_enabled");
    reveal_strlit("set_evc_charge_control");
    reveal_strlit("set_evc_charge_current");
    reveal_strlit("set_evc_session_energy");
    reveal_strlit("set_evc_cable_status");
    reveal_strlit("get_evc_state");
    reveal_strlit("set_evc_port");
    reveal_strlit("get_evc_port");
    reveal_strlit("set_dsp_firmware");
    reveal_strlit("set_arm_firmware");
    reveal_strlit("set_inverter_temperature");
}

/// Law: the commands by their names. A request that names none of them is answered with
/// status 404 and the name.
#[verifier::rlimit(40)]
pub proof fn law_commands_by_name(cmd: &str, r: Result<ApiCommand, (u16, String)>)
    requires
        call_ensures(http::dispatch, (cmd,), r),
    ensures
        cmd@ == "create_plant"@ ==> r == Ok::<_, (u16, String)>(ApiCommand::CreatePlant),
        cmd@ == "load_scenario"@ ==> r == Ok::<_, (u16, String)>(ApiCommand::LoadScenario),
        cmd@ == "start_simulation"@ ==> r == Ok::<_, (u16, String)>(ApiCommand::StartSimulation),
        cmd@ == "pause_simulation"@ ==> r == Ok::<_, (u16, String)>(ApiCommand::PauseSimulation),
        cmd@ == "inject_fault"@ ==> r == Ok::<_, (u16, String)>(ApiCommand::InjectFault),
        cmd@ == "clear_fault"@ ==> r == Ok::<_, (u16, String)>(ApiCommand::ClearFault),
        cmd@ == "set_mode"@ ==> r == Ok::<_, (u16, String)>(ApiCommand::SetMode),
        cmd@ == "set_weather"@ ==> r == Ok::<_, (u16, String)>(ApiCommand::SetWeather),
        cmd@ == "set_solar_override"@ ==> r == Ok::<_, (u16, String)>(ApiCommand::SetSolarOverride),
        cmd@ == "set_load_override"@ ==> r == Ok::<_, (u16, String)>(ApiCommand::SetLoadOverride),
        cmd@ == "set_ct_meter"@ ==> r == Ok::<_, (u16, String)>(ApiCommand::SetCtMeter),
        cmd@ == "set_battery_soc"@ ==> r == Ok::<_, (u16, String)>(ApiCommand::SetBatterySoc),
        cmd@ == "set_battery_soh"@ ==> r == Ok::<_, (u16, String)>(ApiCommand::SetBatterySoh),
        cmd@ == "start_calibration"@ ==> r == Ok::<_, (u16, String)>(ApiCommand::StartCalibration),
        cmd@ == "cancel_calibration"@ ==> r == Ok::<_, (u16, String)>(ApiCommand::CancelCalibration),
        cmd@ == "set_tick_interval"@ ==> r == Ok::<_, (u16, String)>(ApiCommand::SetTickInterval),
        cmd@ == "get_current_state"@ ==> r == Ok::<_, (u16, String)>(ApiCommand::GetCurrentState),
        cmd@ == "save_plant"@ ==> r == Ok::<_, (u16, String)>(ApiCommand::SavePlant),
        cmd@ == "has_saved_plant"@ ==> r == Ok::<_, (u16, String)>(ApiCommand::HasSavedPlant),
        cmd@ == "load_plant"@ ==> r == Ok::<_, (u16, String)>(ApiCommand::LoadPlant),
        cmd@ == "export_recording"@ ==> r == Ok::<_, (u16, String)>(ApiCommand::ExportRecording),
        cmd@ == "export_config"@ ==> r == Ok::<_, (u16, String)>(ApiCommand::ExportConfig),
        cmd@ == "set_evc_enabled"@ ==> r == Ok::<_, (u16, String)>(ApiCommand::SetEvcEnabled),
        cmd@ == "set_evc_charge_control"@
            ==> r == Ok::<_, (u16, String)>(ApiCommand::SetEvcChargeControl),
        cmd@ == "set_evc_charge_current"@
            ==> r == Ok::<_, (u16, String)>(ApiCommand::SetEvcChargeCurrent),
        cmd@ == "set_evc_session_energy"@
            ==> r == Ok::<_, (u16, String)>(ApiCommand::SetEvcSessionEnergy),
        cmd@ == "set_evc_cable_status"@
            ==> r == Ok::<_, (u16, String)>(ApiCommand::SetEvcCableStatus),
        cmd@ == "get_evc_state"@ ==> r == Ok::<_, (u16, String)>(ApiCommand::GetEvcState),
        cmd@ == "set_evc_port"@ ==> r == Ok::<_, (u16, String)>(ApiCommand::SetEvcPort),
        cmd@ == "get_evc_port"@ ==> r == Ok::<_, (u16, String)>(ApiCommand::GetEvcPort),
        cmd@ == "set_dsp_firmware"@ ==> r == Ok::<_, (u16, String)>(ApiCommand::SetDspFirmware),
        cmd@ == "set_arm_firmware"@ ==> r == Ok::<_, (u16, String)>(ApiCommand::SetArmFirmware),
        cmd@ == "set_inverter_temperature"@
            ==> r == Ok::<_, (u16, String)>(ApiCommand::SetInverterTemperature),
        r is Ok
            ==> cmd@ == "create_plant"@ || cmd@ == "load_scenario"@ || cmd@ == "start_simulation"@
                || cmd@ == "pause_simulation"@ || cmd@ == "inject_fault"@ || cmd@ == "clear_fault"@
                || cmd@ == "set_mode"@ || cmd@ == "set_weather"@ || cmd@ == "set_solar_override"@
                || cmd@ == "set_load_override"@ || cmd@ == "set_ct_meter"@
                || cmd@ == "set_battery_soc"@ || cmd@ == "set_battery_soh"@
                || cmd@ == "start_calibration"@ || cmd@ == "cancel_calibration"@
                || cmd@ == "set_tick_interval"@ || cmd@ == "get_current_state"@
                || cmd@ == "save_plant"@ || cmd@ == "has_saved_plant"@ || cmd@ == "load_plant"@
                || cmd@ == "export_recording"@ || cmd@ == "export_config"@
                || cmd@ == "set_evc_enabled"@ || cmd@ == "set_evc_charge_control"@
                || cmd@ == "set_evc_charge_current"@ || cmd@ == "set_evc_session_energy"@
                || cmd@ == "set_evc_cable_status"@ || cmd@ == "get_evc_state"@
                || cmd@ == "set_evc_port"@ || cmd@ == "get_evc_port"@
                || cmd@ == "set_dsp_firmware"@ || cmd@ == "set_arm_firmware"@
                || cmd@ == "set_inverter_temperature"@,
        r matches Err(e) ==> e.0 == 404 && e.1@ == "unknown command: "@ + cmd@,
{
    lemma_commands();
}

/// Law: what each command takes from the arguments of its request.
pub proof fn law_command_arguments(c: ApiCommand, r: Argument)
    requires
        call_ensures(ApiCommand::argument, (c,), r),
    ensures
        r is Nothing <==> c == ApiCommand::PauseSimulation || c == ApiCommand::CancelCalibration
            || c == ApiCommand::GetCurrentState || c == ApiCommand::SavePlant
            || c == ApiCommand::HasSavedPlant || c == ApiCommand::LoadPlant
            || c == ApiCommand::GetEvcState || c == ApiCommand::GetEvcPort,
        r is Params <==> c == ApiCommand::CreatePlant || c == ApiCommand::LoadScenario
            || c == ApiCommand::StartSimulation || c == ApiCommand::InjectFault
            || c == ApiCommand::ClearFault || c == ApiCommand::SetMode
            || c == ApiCommand::SetWeather || c == ApiCommand::SetSolarOverride
            || c == ApiCommand::SetLoadOverride || c == ApiCommand::SetCtMeter
            || c == ApiCommand::SetBatterySoc || c == ApiCommand::SetBatterySoh
            || c == ApiCommand::StartCalibration || c == ApiCommand::SetTickInterval
            || c == ApiCommand::ExportRecording,
        c == ApiCommand::ExportConfig ==> (r matches Argument::Field(f) && f@ == "path"@),
        c == ApiCommand::SetEvcEnabled ==> (r matches Argument::Field(f) && f@ == "enabled"@),
        c == ApiCommand::SetEvcChargeControl ==> (r matches Argument::Field(f) && f@ == "mode"@),
        c == ApiCommand::SetEvcChargeCurrent ==> (r matches Argument::Field(f) && f@ == "deciAmps"@),
        c == ApiCommand::SetEvcSessionEnergy ==> (r matches Argument::Field(f) && f@ == "kwh"@),
        c == ApiCommand::SetEvcCableStatus ==> (r matches Argument::Field(f) && f@ == "status"@),
        c == ApiCommand::SetEvcPort ==> (r matches Argument::Field(f) && f@ == "port"@),
        c == ApiCommand::SetDspFirmware ==> (r matches Argument::Field(f) && f@ == "version"@),
        c == ApiCommand::SetArmFirmware ==> (r matches Argument::Field(f) && f@ == "version"@),
        c == ApiCommand::SetInverterTemperature
            ==> (r matches Argument::Field(f) && f@ == "celsius"@),
{
    assert(r@ == http::argument_of(c));
}

/// Law: arguments that a command cannot use are answered with status 400, the field
/// where there is one, and the reason.
pub proof fn law_bad_arguments(a: Argument, why: &str, r: (u16, String))
    requires
        call_ensures(http::bad_argument, (a, why), r),
    ensures
        r.0 == 400,
        a matches Argument::Field(f) ==> r.1@ == "invalid `"@ + f@ + "`: "@ + why@,
        !(a is Field) ==> r.1@ == "invalid params: "@ + why@,
{
}

/// Law: a command that worked is answered with status 200, one that failed with 500.
pub proof fn law_answer_status(r: Result<u64, String>, s: u16)
    requires
        call_ensures(http::answer_status::<u64>, (&r,), s),
    ensures
        r is Ok ==> s == 200,
        r is Err ==> s == 500,
{
}

/// The paths differ.
proof fn lemma_paths()
    ensures
        "/"@.len() == 1,
        "/index.html"@.len() == 11,
        "/index.html"@[1] == 'i',
        "/api/events"@.len() == 11,
        "/api/events"@[1] == 'a',
        "/api/export/recordings"@.len() == 22,
        "/api/export/config"@.len() == 18,
        "/api/scenario"@.len() == 13,
{
    reveal_strlit("/");
    reveal_strlit("/index.html");
    reveal_strlit("/api/events");
    reveal_strlit("/api/export/recordings");
    reveal_strlit("/api/export/config");
    reveal_strlit("/api/scenario");
}

/// The methods differ.
proof fn lemma_methods()
    ensures
        "GET"@.len() == 3,
        "POST"@.len() == 4,
        "OPTIONS"@.len() == 7,
{
    reveal_strlit("GET");
    reveal_strlit("POST");
    reveal_strlit("OPTIONS");
}

/// A path and its query.
pub open spec fn splits(path: Seq<char>, clean: Seq<char>) -> bool {
    &&& clean.len() <= path.len()
    &&& path.take(clean.len() as int) == clean
    &&& forall|i: int| 0 <= i < clean.len() ==> clean[i] != '?'
    &&& clean.len() < path.len() ==> path[clean.len() as int] == '?'
}

/// The part of a path before its query.
proof fn lemma_clean(path: Seq<char>, clean: Seq<char>)
    requires
        splits(path, clean),
    ensures
        http::without_query(path) == clean,
{
    assert forall|j: int| 0 <= j < clean.len() implies path[j] != '?' by {
        assert(path.take(clean.len() as int)[j] == path[j]);
    }
    text::lemma_find_char(path, '?', clean.len() as int);
}

/// A path that begins like an invocation is none of the fixed ones.
proof fn lemma_invoke(clean: Seq<char>)
    ensures
        text::has_prefix(clean, "/api/invoke/"@) <==> clean.len() >= 12 && clean.take(12)
            == "/api/invoke/"@,
        text::has_prefix(clean, "/api/invoke/"@) ==> clean != "/api/scenario"@,
        "/api/invoke/"@.len() == 12,
{
    reveal_strlit("/api/invoke/");
    reveal_strlit("/api/scenario");
    assert("/api/invoke/"@.len() == 12);
    assert("/api/invoke/"@[5] == 'i');
    assert("/api/scenario"@[5] == 's');
    if clean.len() >= 12 {
        assert(clean.take(12) =~= clean.subrange(0, 12));
        assert(clean.subrange(0, 12)[5] == clean[5]);
    }
}

/// Law: where each request leads. A query does not change where, and what has no place
/// is not found.
#[verifier::rlimit(40)]
pub proof fn law_routes(method: &str, path: &str, clean: Seq<char>, r: Route)
    requires
        call_ensures(http::route, (method, path), r),
        splits(path@, clean),
    ensures
        r is Index <==> method@ == "GET"@ && (clean == "/"@ || clean == "/index.html"@),
        r is Events <==> method@ == "GET"@ && clean == "/api/events"@,
        r is ExportRecordings <==> method@ == "GET"@ && clean == "/api/export/recordings"@,
        r is ExportConfig <==> method@ == "GET"@ && clean == "/api/export/config"@,
        r is Scenario <==> method@ == "POST"@ && clean == "/api/scenario"@,
        r is Invoke <==> method@ == "POST"@ && clean.len() >= 12 && clean.take(12)
            == "/api/invoke/"@,
        r is Preflight <==> method@ == "OPTIONS"@,
        r matches Route::Invoke(c) ==> c@ == clean.skip(12),
        r is ExportRecordings && path@ == clean ==> (r matches Route::ExportRecordings(f) && f@
            == "csv"@),
{
    lemma_clean(path@, clean);
    lemma_invoke(clean);
    lemma_paths();
    lemma_methods();
    if path@ == clean {
        assert forall|j: int| 0 <= j < clean.len() implies path@[j] != '?' by {}
        text::lemma_find_char(path@, '?', path@.len() as int);
    }
}

/// Law: the value of a query parameter comes from the first pair with its name, in
/// letters of either case.
pub proof fn law_query_pair(key: Seq<char>, name: Seq<char>, value: Seq<char>, rest: Seq<char>)
    requires
        forall|i: int| 0 <= i < name.len() ==> name[i] != '&' && name[i] != '=',
        forall|i: int| 0 <= i < value.len() ==> value[i] != '&',
    ensures
        text::lowered(name) == text::lowered(key) ==> http::query_lookup(
            name + seq!['='] + value + seq!['&'] + rest,
            key,
        ) == Some(
            http::lossy_text(http::decoded_bytes(vstd::utf8::encode_utf8(value))),
        ),
        text::lowered(name) != text::lowered(key) ==> http::query_lookup(
            name + seq!['='] + value + seq!['&'] + rest,
            key,
        ) == http::query_lookup(rest, key),
{
    let pair = name + seq!['='] + value;
    let q = name + seq!['='] + value + seq!['&'] + rest;
    let n = pair.len() as int;
    assert forall|j: int| 0 <= j < n implies q[j] != '&' by {
        if j < name.len() {
            assert(q[j] == name[j]);
        } else if j > name.len() {
            assert(q[j] == value[j - name.len() - 1]);
        }
    }
    assert(q[n] == '&');
    text::lemma_find_char(q, '&', n);
    assert(q.take(n) =~= pair);
    assert(q.skip(n + 1) =~= rest);
    assert forall|j: int| 0 <= j < name.len() implies pair[j] != '=' by {
        assert(pair[j] == name[j]);
    }
    assert(pair[name.len() as int] == '=');
    text::lemma_find_char(pair, '=', name.len() as int);
    assert(pair.take(name.len() as int) =~= name);
    assert(pair.skip(name.len() as int + 1) =~= value);
}

/// The value of a hexadecimal digit.
pub open spec fn digit_value(b: u8) -> int {
    if '0' as u8 <= b <= '9' as u8 {
        b - '0' as u8
    } else if 'a' as u8 <= b <= 'f' as u8 {
        b - 'a' as u8 + 10
    } else if 'A' as u8 <= b <= 'F' as u8 {
        b - 'A' as u8 + 10
    } else {
        -1
    }
}

/// Law: in a query value a percent sign before two hexadecimal digits stands for the byte
/// with that number, a plus sign for a space, and other bytes for themselves.
pub proof fn law_query_escapes(a: u8, b: u8, c: u8, rest: Seq<u8>)
    ensures
        http::decoded_bytes(Seq::empty()) == Seq::<u8>::empty(),
        digit_value(a) >= 0 && digit_value(b) >= 0 ==> http::decoded_bytes(
            seq!['%' as u8, a, b] + rest,
        ) == seq![(16 * digit_value(a) + digit_value(b)) as u8] + http::decoded_bytes(rest),
        http::decoded_bytes(seq!['+' as u8] + rest) == seq![' ' as u8] + http::decoded_bytes(rest),
        c != '%' as u8 && c != '+' as u8 ==> http::decoded_bytes(seq![c] + rest) == seq![c]
            + http::decoded_bytes(rest),
        digit_value(b) < 0 ==> http::decoded_bytes(seq!['%' as u8, a, b] + rest) == seq!['%' as u8]
            + http::decoded_bytes(seq![a, b] + rest),
{
    let escaped = seq!['%' as u8, a, b] + rest;
    assert(escaped.skip(3) =~= rest);
    assert(escaped.skip(1) =~= seq![a, b] + rest);
    assert((seq!['+' as u8] + rest).skip(1) =~= rest);
    assert((seq![c] + rest).skip(1) =~= rest);
}

/// A sequence without white space at its ends stays as it is.
proof fn lemma_trimmed(s: Seq<char>)
    requires
        s.len() > 0 ==> !text::is_space(s[0]) && !text::is_space(s.last()),
    ensures
        http::trim_end(http::trim_start(s)) == s,
{
}

/// Law: white space before and after a value does not count.
pub proof fn law_trimming(s: Seq<char>, c: char)
    requires
        text::is_space(c),
    ensures
        http::trim_start(seq![c] + s) == http::trim_start(s),
        http::trim_end(s.push(c)) == http::trim_end(s),
        text::is_space(' '),
        text::is_space('\t'),
        text::is_space('\r'),
        text::is_space('\n'),
        !text::is_space('a'),
        !text::is_space(':'),
{
    assert((seq![c] + s).skip(1) =~= s);
    assert(s.push(c).drop_last() =~= s);
}

/// Law: a header line is a name, a colon and a value; names count in lower case. A line
/// without a colon is no header.
pub proof fn law_header_line(name: Seq<char>, value: Seq<char>)
    requires
        forall|i: int| 0 <= i < name.len() ==> name[i] != ':',
        name.len() > 0 ==> !text::is_space(name[0]) && !text::is_space(name.last()),
        value.len() > 0 ==> !text::is_space(value[0]) && !text::is_space(value.last()),
    ensures
        http::header_of(name + seq![':'] + value) == Some((text::lowered(name), value)),
        http::header_of(name + seq![':', ' '] + value) == Some((text::lowered(name), value)),
        http::header_of(name) is None,
{
    let line = name + seq![':'] + value;
    let n = name.len() as int;
    assert forall|j: int| 0 <= j < n implies line[j] != ':' by {
        assert(line[j] == name[j]);
    }
    text::lemma_find_char(line, ':', n);
    assert(line.take(n) =~= name);
    assert(line.skip(n + 1) =~= value);
    let wide = name + seq![':', ' '] + value;
    assert forall|j: int| 0 <= j < n implies wide[j] != ':' by {
        assert(wide[j] == name[j]);
    }
    text::lemma_find_char(wide, ':', n);
    assert(wide.take(n) =~= name);
    assert(wide.skip(n + 1) =~= seq![' '] + value);
    law_trimming(value, ' ');
    lemma_trimmed(name);
    lemma_trimmed(value);
    text::lemma_find_char(name, ':', n);
}

/// Law: the request line is a method, a path and a version.
pub proof fn law_request_line(method: Seq<char>, path: Seq<char>, version: Seq<char>)
    requires
        forall|i: int| 0 <= i < method.len() ==> method[i] != ' ',
        forall|i: int| 0 <= i < path.len() ==> path[i] != ' ',
    ensures
        http::line_method(method + seq![' '] + path + seq![' '] + version) == method,
        http::line_path(method + seq![' '] + path + seq![' '] + version) == path,
        http::line_path(method) == seq!['/'],
{
    let line = method + seq![' '] + path + seq![' '] + version;
    let n = method.len() as int;
    assert forall|j: int| 0 <= j < n implies line[j] != ' ' by {
        assert(line[j] == method[j]);
    }
    assert(line[n] == ' ');
    text::lemma_find_char(line, ' ', n);
    assert(line.take(n) =~= method);
    let rest = line.skip(n + 1);
    assert(rest =~= path + seq![' '] + version);
    assert forall|j: int| 0 <= j < path.len() implies rest[j] != ' ' by {
        assert(rest[j] == path[j]);
    }
    assert(rest[path.len() as int] == ' ');
    text::lemma_find_char(rest, ' ', path.len() as int);
    assert(rest.take(path.len() as int) =~= path);
    text::lemma_find_char(method, ' ', n);
}

/// Law: of several headers with a name, the first counts.
pub proof fn law_first_header_counts(
    h: Seq<(Seq<char>, Seq<char>)>,
    name: Seq<char>,
    value: Seq<char>,
    key: Seq<char>,
)
    ensures
        http::header_lookup(seq![(name, value)] + h, name) == Some(value),
        key != name ==> http::header_lookup(seq![(name, value)] + h, key) == http::header_lookup(
            h,
            key,
        ),
        http::header_lookup(Seq::empty(), key) is None,
{
    assert((seq![(name, value)] + h).skip(1) =~= h);
}

/// The digits of a number have its value.
proof fn lemma_digits(n: nat)
    ensures
        http::digits_value(text::decimal(n)) == n,
        http::all_digits(text::decimal(n)),
        text::decimal(n).len() > 0,
    decreases n,
{
    if n < 10 {
        assert(text::decimal(n).drop_last() =~= Seq::empty());
        assert(text::decimal(n).last() as u32 == 48 + n);
        reveal_with_fuel(http::digits_value, 2);
    } else {
        lemma_digits(n / 10);
        let d = text::decimal(n);
        assert(d.drop_last() =~= text::decimal(n / 10));
        assert(d.last() as u32 == 48 + n % 10);
        assert forall|i: int| 0 <= i < d.len() implies '0' <= #[trigger] d[i] <= '9' by {
            if i < d.len() - 1 {
                assert(d[i] == text::decimal(n / 10)[i]);
            }
        }
    }
}

/// Law: a number reads back from its digits, with a plus sign before them too, up to the
/// largest one asked for. Nothing, and what holds another character, is no number.
pub proof fn law_numbers_read_back(n: nat, max: int, s: Seq<char>, i: int)
    ensures
        n <= max ==> http::parsed_number(text::decimal(n), max) == Some(n as int),
        n <= max ==> http::parsed_number(seq!['+'] + text::decimal(n), max) == Some(n as int),
        n > max ==> http::parsed_number(text::decimal(n), max) is None,
        http::parsed_number(Seq::empty(), max) is None,
        0 < i < s.len() && !('0' <= s[i] <= '9') ==> http::parsed_number(s, max) is None,
        s.len() > 0 && s[0] != '+' && !('0' <= s[0] <= '9') ==> http::parsed_number(s, max) is None,
{
    lemma_digits(n);
    let d = text::decimal(n);
    assert('0' <= d[0] <= '9');
    assert((seq!['+'] + d).skip(1) =~= d);
    if 0 < i < s.len() && !('0' <= s[i] <= '9') {
        assert(s.skip(1)[i - 1] == s[i]);
    }
}

/// Law: a request whose head is whole is complete with as many bytes behind it as its
/// length says; a head that is not whole is waited for up to a mebibyte.
pub proof fn law_request_progress(b: Seq<u8>, e: int)
    requires
        http::first_occurrence(b, seq![13u8, 10, 13, 10], Some(e)),
        vstd::utf8::valid_utf8(b.take(e)),
    ensures
        ({
            let head = vstd::utf8::decode_utf8(b.take(e));
            let want = http::content_length(head);
            &&& b.len() - e - 4 >= want ==> http::has_progress(
                b,
                Progress::Complete { head, body: b.skip(e + 4).take(want) },
            )
            &&& b.len() - e - 4 < want ==> http::has_progress(b, Progress::Partial)
        }),
{
    assert(http::head_end() =~= seq![13u8, 10, 13, 10]);
    assert(http::first_occurrence(b, http::head_end(), Some(e)));
    assert(b.skip(e + 4).len() == b.len() - e - 4);
    let p = http::progress_at(b, Some(e));
    assert(http::has_progress(b, p));
}

/// Law: without the end of a head a request is waited for, up to a mebibyte.
pub proof fn law_head_progress(b: Seq<u8>)
    requires
        http::first_occurrence(b, seq![13u8, 10, 13, 10], None),
    ensures
        b.len() <= 1_048_576 ==> http::has_progress(b, Progress::Partial),
        b.len() > 1_048_576 ==> http::has_progress(b, Progress::TooLarge),
{
    assert(http::head_end() =~= seq![13u8, 10, 13, 10]);
    assert(http::first_occurrence(b, http::head_end(), None));
    let p = http::progress_at(b, None);
    assert(http::has_progress(b, p));
}

/// Law: the words of the statuses.
pub proof fn law_status_words(code: u16, r: &'static str)
    requires
        call_ensures(http::status_reason, (code,), r),
    ensures
        code == 200 ==> r@ == "OK"@,
        code == 204 ==> r@ == "No Content"@,
        code == 400 ==> r@ == "Bad Request"@,
        code == 404 ==> r@ == "Not Found"@,
        code == 500 ==> r@ == "Internal Server Error"@,
{
}

/// Law: the head of a response names the status, the kind and the length of its body.
pub proof fn law_response_head(
    status: u16,
    kind: &str,
    length: usize,
    reason: &'static str,
    r: String,
)
    requires
        call_ensures(http::response_head, (status, kind, length), r),
        call_ensures(http::status_reason, (status,), reason),
    ensures
        r@ == "HTTP/1.1 "@ + text::decimal(status as nat) + " "@ + reason@
            + "\r\nContent-Type: "@ + kind@ + "\r\nContent-Length: "@ + text::decimal(
            length as nat,
        )
        + "\r\nCache-Control: no-store\r\nAccess-Control-Allow-Origin: *\r\nAccess-Control-Allow-Methods: GET, POST, OPTIONS\r\nAccess-Control-Allow-Headers: Content-Type\r\nConnection: close\r\n\r\n"@,
{
}

/// Law: the head of a download names the kind, the length and the file.
pub proof fn law_attachment_head(kind: &str, file: &str, length: usize, r: String)
    requires
        call_ensures(http::attachment_head, (kind, file, length), r),
    ensures
        r@ == "HTTP/1.1 200 OK\r\nContent-Type: "@ + kind@ + "\r\nContent-Length: "@
            + text::decimal(length as nat) + "\r\nContent-Disposition: attachment; filename=\""@
            + file@ + "\"\r\nCache-Control: no-store\r\nConnection: close\r\n\r\n"@,
{
}

/// Law: a text inside JSON: quotes and backslashes behind a backslash, control characters
/// by their names or numbers, other characters as they are, one after the other.
pub proof fn law_json_characters(s: Seq<char>, c: char)
    ensures
        http::json_chars(Seq::empty()) == Seq::<char>::empty(),
        http::json_chars(s.push(c)) == http::json_chars(s) + http::json_char(c),
        http::json_char('"') == "\\\""@,
        http::json_char('\\') == "\\\\"@,
        http::json_char('\n') == "\\n"@,
        http::json_char('\r') == "\\r"@,
        http::json_char('\t') == "\\t"@,
        http::json_char(8 as char) == "\\b"@,
        http::json_char(12 as char) == "\\f"@,
        c as u32 >= 32 && c != '"' && c != '\\' ==> http::json_char(c) == seq![c],
        16 <= c as u32 <= 25 ==> http::json_char(c) == "\\u00"@ + seq![
            '1',
            ('0' as u32 + c as u32 - 16) as char,
        ],
        26 <= c as u32 <= 31 ==> http::json_char(c) == "\\u00"@ + seq![
            '1',
            ('a' as u32 + c as u32 - 26) as char,
        ],
        c as u32 <= 7 ==> http::json_char(c) == "\\u00"@ + seq![
            '0',
            ('0' as u32 + c as u32) as char,
        ],
{
    assert(s.push(c).drop_last() =~= s);
}

/// Law: a failure is reported as a JSON object with its message.
pub proof fn law_error_payload(message: &str, r: String)
    requires
        call_ensures(http::error_payload, (message,), r),
    ensures
        r@ == "{\""@ + http::json_chars("error"@) + "\":\""@ + http::json_chars(message@) + "\"}"@,
{
}

/// Law: a download is named after its format, and an unknown format is CSV.
pub proof fn law_download_names(format: &str, r: String)
    requires
        call_ensures(http::export_filename, (format,), r),
    ensures
        format@ == "jsonl"@ ==> r@ == "recording."@ + "jsonl"@,
        format@ == "json"@ ==> r@ == "recording."@ + "json"@,
        format@ == "csv"@ ==> r@ == "recording."@ + "csv"@,
        format@ != "jsonl"@ && format@ != "json"@ ==> r@ == "recording."@ + "csv"@,
{
    reveal_strlit("jsonl");
    reveal_strlit("json");
    reveal_strlit("csv");
    assert("jsonl"@.len() == 5 && "json"@.len() == 4 && "csv"@.len() == 3);
}

/// Law: a listening browser gets each message in a frame and a comment when nothing
/// happens; lost messages are passed over, and the end is the end.
pub proof fn law_event_stream(e: StreamEvent, r: StreamAction)
    requires
        call_ensures(http::stream_step, (&e,), r),
    ensures
        e matches StreamEvent::Message(m) ==> (r matches StreamAction::Send(s) && s@ == "data: "@
            + m@ + "\n\n"@),
        e is Idle ==> (r matches StreamAction::Send(s) && s@ == ": keepalive\n\n"@),
        r is Wait <==> e is Lagged,
        r is Stop <==> e is Closed,
{
}

/// Law: the port of the page is the number that the setting gives, and 8001 where it gives
/// none from 1 to 65535.
pub proof fn law_page_port(s: &str, n: nat, r: u16, without: u16)
    requires
        call_ensures(http::web_port, (Some(s),), r),
        call_ensures(http::web_port, (None,), without),
    ensures
        without == 8001,
        s@ == text::decimal(n) && 1 <= n <= 65535 ==> r == n,
        s@ == text::decimal(n) && (n == 0 || n > 65535) ==> r == 8001,
        s@.len() == 0 ==> r == 8001,
{
    law_numbers_read_back(n, 65535, s@, 0);
    if s@.len() == 0 {
        assert(s@ =~= Seq::empty());
    }
}

/// Law: a temporary file is named after the process, the time and the kind.
pub proof fn law_temporary_names(pid: u32, nanos: u64, kind: &str, r: String)
    requires
        call_ensures(http::temp_name, (pid, nanos, kind), r),
    ensures
        r@ == "givsim-"@ + text::decimal(pid as nat) + "-"@ + text::decimal(nanos as nat) + "."@
            + kind@,
{
}

/// Law: what went wrong while a request was read.
pub proof fn law_read_errors(e: ReadError, r: &'static str)
    requires
        call_ensures(ReadError::text, (e,), r),
    ensures
        e == ReadError::IncompleteHeader ==> r@ == "incomplete request header"@,
        e == ReadError::HeaderTooLarge ==> r@ == "request header too large"@,
        e == ReadError::NonUtf8Header ==> r@ == "non-utf8 request header"@,
        e == ReadError::BodyTruncated ==> r@ == "body truncated"@,
{
}

/// Whether a line holds no line end, nor the first half of one at its own end.
pub open spec fn one_line(line: Seq<char>) -> bool {
    &&& forall|i: int| 0 <= i < line.len() - 1 ==> !(#[trigger] line[i] == '\r' && line[i + 1]
        == '\n')
    &&& line.len() > 0 ==> line.last() != '\r'
}

/// The end of the first line.
proof fn lemma_line_end(line: Seq<char>, rest: Seq<char>)
    requires
        one_line(line),
    ensures
        http::find_line_end(line + seq!['\r', '\n'] + rest) == line.len(),
    decreases line.len(),
{
    let s = line + seq!['\r', '\n'] + rest;
    if line.len() > 0 {
        let tail = line.skip(1);
        assert forall|i: int| 0 <= i < tail.len() - 1 implies !(#[trigger] tail[i] == '\r'
            && tail[i + 1] == '\n') by {
            assert(tail[i] == line[i + 1] && tail[i + 1] == line[i + 2]);
        }
        assert(tail.len() > 0 ==> tail.last() == line.last());
        lemma_line_end(tail, rest);
        assert(s.skip(1) =~= tail + seq!['\r', '\n'] + rest);
        if line.len() > 1 {
            assert(s[0] == line[0] && s[1] == line[1]);
        } else {
            assert(s[0] == line[0] && line[0] == line.last());
        }
    } else {
        assert(s[0] == '\r' && s[1] == '\n');
    }
}

/// Law: the head of a request is its first line and the headers of the lines after it, in
/// order. A line without a colon is passed over.
pub proof fn law_head_lines(line: Seq<char>, rest: Seq<char>)
    requires
        one_line(line),
    ensures
        http::request_line(line + seq!['\r', '\n'] + rest) == line,
        http::head_headers(line + seq!['\r', '\n'] + rest) == http::headers_of(rest),
        http::headers_of(line + seq!['\r', '\n'] + rest) == (match http::header_of(line) {
            Some(h) => seq![h] + http::headers_of(rest),
            None => http::headers_of(rest),
        }),
{
    lemma_line_end(line, rest);
    let s = line + seq!['\r', '\n'] + rest;
    let n = line.len() as int;
    assert(s.take(n) =~= line);
    assert(s.skip(n + 2) =~= rest);
    assert(Seq::<(Seq<char>, Seq<char>)>::empty() + http::headers_of(rest) =~= http::headers_of(
        rest,
    ));
}

/// Law: what is read of a head: the method, the path and the headers.
pub proof fn law_parsed_head(s: &str, r: RequestHead)
    requires
        call_ensures(http::parse_head, (s,), r),
    ensures
        r.method@ == http::line_method(http::request_line(s@)),
        r.path@ == http::line_path(http::request_line(s@)),
        r.headers@.len() == http::head_headers(s@).len(),
        forall|i: int|
            0 <= i < r.headers@.len() ==> ((#[trigger] r.headers@[i]).0@, r.headers@[i].1@)
                == http::head_headers(s@)[i],
{
    assert(http::header_views(r.headers@).len() == r.headers@.len());
    assert forall|i: int| 0 <= i < r.headers@.len() implies ((#[trigger] r.headers@[i]).0@,
    r.headers@[i].1@) == http::head_headers(s@)[i] by {
        assert(http::header_views(r.headers@)[i] == (r.headers@[i].0@, r.headers@[i].1@));
    }
}

/// Law: a reader keeps all bytes that arrive, hands the request over once it is whole,
/// with as many bytes of body as its length says, and refuses a head that is too long.
pub proof fn law_reader(reader: &mut RequestReader, chunk: &[u8], r: ReadStep, e: int)
    requires
        call_ensures(RequestReader::feed, (reader, chunk), r),
    ensures
        final(reader).received() == old(reader).received() + chunk@,
        ({
            let b = final(reader).received();
            let want = http::content_length(vstd::utf8::decode_utf8(b.take(e)));
            &&& http::first_occurrence(b, seq![13u8, 10, 13, 10], None) && b.len() <= 1_048_576
                ==> r is More
            &&& http::first_occurrence(b, seq![13u8, 10, 13, 10], None) && b.len() > 1_048_576
                ==> r == ReadStep::Failed(ReadError::HeaderTooLarge)
            &&& http::first_occurrence(b, seq![13u8, 10, 13, 10], Some(e))
                && vstd::utf8::valid_utf8(b.take(e)) && b.len() - e - 4 < want ==> r is More
            &&& http::first_occurrence(b, seq![13u8, 10, 13, 10], Some(e))
                && vstd::utf8::valid_utf8(b.take(e)) && b.len() - e - 4 >= want ==> (
            r matches ReadStep::Done(q) && q.body@ == b.skip(e + 4).take(want) && http::says(
                q.head,
                vstd::utf8::decode_utf8(b.take(e)),
            ))
            &&& http::first_occurrence(b, seq![13u8, 10, 13, 10], Some(e))
                && !vstd::utf8::valid_utf8(b.take(e)) ==> r == ReadStep::Failed(
                ReadError::NonUtf8Header,
            )
        }),
{
    let b = final(reader).received();
    let p = choose|p: Progress| #[trigger] http::has_progress(b, p) && http::answers(r, p);
    assert(http::head_end() =~= seq![13u8, 10, 13, 10]);
    if http::first_occurrence(b, http::head_end(), None) {
        let q = http::progress_at(b, None);
        assert(http::has_progress(b, q));
        http::law_progress_is_one_thing(b, p, q);
    }
    if http::first_occurrence(b, http::head_end(), Some(e)) {
        let q = http::progress_at(b, Some(e));
        assert(http::has_progress(b, q));
        http::law_progress_is_one_thing(b, p, q);
        assert(b.skip(e + 4).len() == b.len() - e - 4);
    }
}

/// Law: a connection that ends before anything came was idle; otherwise the head or the
/// body is missing.
pub proof fn law_reader_end(reader: RequestReader, r: Option<ReadError>)
    requires
        call_ensures(RequestReader::end, (&reader,), r),
    ensures
        r is None <==> reader.received().len() == 0,
        reader.received().len() > 0 && http::first_occurrence(
            reader.received(),
            seq![13u8, 10, 13, 10],
            None,
        ) ==> r == Some(ReadError::IncompleteHeader),
        reader.received().len() > 0 && !http::first_occurrence(
            reader.received(),
            seq![13u8, 10, 13, 10],
            None,
        ) ==> r == Some(ReadError::BodyTruncated),
{
    assert(http::head_end() =~= seq![13u8, 10, 13, 10]);
}

/// Law: a query parameter is looked for behind the question mark.
pub proof fn law_query_parameter(
    path: &str,
    key: &str,
    clean: Seq<char>,
    query: Seq<char>,
    r: Option<String>,
)
    requires
        call_ensures(http::query_param, (path, key), r),
        forall|i: int| 0 <= i < clean.len() ==> clean[i] != '?',
    ensures
        path@ == clean ==> r is None,
        path@ == clean + seq!['?'] + query ==> match r {
            Some(v) => http::query_lookup(query, key@) == Some(v@),
            None => http::query_lookup(query, key@) is None,
        },
{
    let n = clean.len() as int;
    if path@ == clean {
        text::lemma_find_char(path@, '?', n);
    }
    if path@ == clean + seq!['?'] + query {
        assert forall|j: int| 0 <= j < n implies path@[j] != '?' by {
            assert(path@[j] == clean[j]);
        }
        assert(path@[n] == '?');
        text::lemma_find_char(path@, '?', n);
        assert(path@.skip(n + 1) =~= query);
    }
}

/// Law: the value of a header is that of the first one with its name.
pub proof fn law_header_value(headers: &[(String, String)], key: &str, r: Option<&str>, i: int)
    requires
        call_ensures(http::header_value, (headers, key), r),
    ensures
        match r {
            Some(v) => http::header_lookup(http::header_views(headers@), key@) == Some(v@),
            None => http::header_lookup(http::header_views(headers@), key@) is None,
        },
{
}

/// Law: the head of the event stream.
pub proof fn law_stream_head(r: &'static str)
    requires
        call_ensures(http::stream_head, (), r),
    ensures
        r@
        == "HTTP/1.1 200 OK\r\nContent-Type: text/event-stream\r\nCache-Control: no-store\r\nConnection: keep-alive\r\nAccess-Control-Allow-Origin: *\r\n\r\n"@,
{
}

/// Law: the length of a body is the number in its header, and none where there is no
/// header or no number in it.
pub proof fn law_content_length(head: Seq<char>, n: nat)
    ensures
        http::header_lookup(http::head_headers(head), "content-length"@) is None
            ==> http::content_length(head) == 0,
        n <= usize::MAX && http::header_lookup(http::head_headers(head), "content-length"@) == Some(
            text::decimal(n),
        ) ==> http::content_length(head) == n,
        http::header_lookup(http::head_headers(head), "content-length"@) == Some(
            Seq::<char>::empty(),
        ) ==> http::content_length(head) == 0,
{
    law_numbers_read_back(n, usize::MAX as int, Seq::empty(), 0);
}

/// Law: a recording is downloaded in the format that the query names, and as CSV where it
/// names none.
pub proof fn law_download_format(method: &str, path: &str, r: Route)
    requires
        call_ensures(http::route, (method, path), r),
    ensures
        r matches Route::ExportRecordings(f) ==> f@ == (match http::query_value(path@, "format"@) {
            Some(v) => v,
            None => "csv"@,
        }),
{
}

/// Law: the last pair of a query ends with it, a part without an equals sign is passed
/// over, and nothing is found in nothing.
pub proof fn law_query_end(key: Seq<char>, name: Seq<char>, value: Seq<char>, rest: Seq<char>)
    requires
        forall|i: int| 0 <= i < name.len() ==> name[i] != '&' && name[i] != '=',
        forall|i: int| 0 <= i < value.len() ==> value[i] != '&',
    ensures
        text::lowered(name) == text::lowered(key) ==> http::query_lookup(
            name + seq!['='] + value,
            key,
        ) == Some(http::lossy_text(http::decoded_bytes(vstd::utf8::encode_utf8(value)))),
        text::lowered(name) != text::lowered(key) ==> http::query_lookup(
            name + seq!['='] + value,
            key,
        ) is None,
        http::query_lookup(name, key) is None,
        http::query_lookup(name + seq!['&'] + rest, key) == http::query_lookup(rest, key),
{
    let pair = name + seq!['='] + value;
    let n = pair.len() as int;
    assert forall|j: int| 0 <= j < n implies pair[j] != '&' by {
        if j < name.len() {
            assert(pair[j] == name[j]);
        } else if j > name.len() {
            assert(pair[j] == value[j - name.len() - 1]);
        }
    }
    text::lemma_find_char(pair, '&', n);
    assert(pair.take(n) =~= pair);
    assert forall|j: int| 0 <= j < name.len() implies pair[j] != '=' by {
        assert(pair[j] == name[j]);
    }
    text::lemma_find_char(pair, '=', name.len() as int);
    assert(pair.take(name.len() as int) =~= name);
    assert(pair.skip(name.len() as int + 1) =~= value);
    let m = name.len() as int;
    text::lemma_find_char(name, '&', m);
    text::lemma_find_char(name, '=', m);
    assert(name.take(m) =~= name);
    let q = name + seq!['&'] + rest;
    assert forall|j: int| 0 <= j < m implies q[j] != '&' by {
        assert(q[j] == name[j]);
    }
    assert(q[m] == '&');
    text::lemma_find_char(q, '&', m);
    assert(q.take(m) =~= name);
    assert(q.skip(m + 1) =~= rest);
}

/// Law: a percent sign without two characters behind it stands for itself, and so does one
/// before a plus sign unless a digit follows: then both give that digit's value.
pub proof fn law_odd_escapes(a: u8, rest: Seq<u8>)
    ensures
        http::decoded_bytes(seq!['%' as u8]) == seq!['%' as u8],
        http::decoded_bytes(seq!['%' as u8, a]) == seq!['%' as u8] + http::decoded_bytes(seq![a]),
        digit_value(a) >= 0 ==> http::decoded_bytes(seq!['%' as u8, '+' as u8, a] + rest) == seq![
            digit_value(a) as u8,
        ] + http::decoded_bytes(rest),
{
    assert(seq!['%' as u8].skip(1) =~= Seq::empty());
    assert(http::decoded_bytes(Seq::empty()) =~= Seq::empty());
    assert(seq!['%' as u8] + Seq::empty() =~= seq!['%' as u8]);
    assert(seq!['%' as u8, a].skip(1) =~= seq![a]);
    assert((seq!['%' as u8, '+' as u8, a] + rest).skip(3) =~= rest);
}

} // verus!
