//! What readers of recordings and reports can rely on.
use crate::atomic_write;
use crate::atomic_write::AfterRename;
use crate::calendar;
use crate::numerals;
use crate::recording;
use crate::recording::RecordingFrame;
use crate::scenario::{AssertionResult, ScenarioResult};
use crate::state::InverterMode;
use crate::text;
use vstd::prelude::*;

verus! {

/// Law: a trace without frames has its columns only.
pub proof fn law_csv_columns(frames: &[RecordingFrame], r: String)
    requires
        frames@.len() == 0,
        call_ensures(recording::write_csv, (frames,), r),
    ensures
        r@
        == "timestamp,soc_percent,battery_power_kw,solar_w,load_w,grid_w,grid_connected,inverter_mode,active_faults\n"@,
{
}

/// Law: each frame adds a row to the trace: the moment, the charge and the power of the
/// battery, the powers of sun, load and grid, whether the grid is there, the mode asked
/// for, and the faults.
pub proof fn law_csv_rows(
    frames: &[RecordingFrame],
    more: &[RecordingFrame],
    f: RecordingFrame,
    r: String,
    q: String,
)
    requires
        more@ == frames@.push(f),
        call_ensures(recording::write_csv, (frames,), r),
        call_ensures(recording::write_csv, (more,), q),
    ensures
        q@ == r@ + (calendar::moment_display(f.timestamp) + ","@ + numerals::decimal_text(
            f.plant_state.battery_record.soc_percent@,
            2,
        ) + ","@ + numerals::decimal_text(f.plant_state.battery_record.power_kw@, 2) + ","@
            + numerals::decimal_text(f.plant_state.solar.generation_w@, 0) + ","@
            + numerals::decimal_text(f.plant_state.load_demand_w@, 0) + ","@
            + numerals::decimal_text(f.plant_state.grid.power_w@, 0) + ","@ + (
        if f.plant_state.grid.connected {
            "1"@
        } else {
            "0"@
        }) + ","@ + (match f.plant_state.inverter.mode {
            InverterMode::Normal => "Normal"@,
            InverterMode::Eco => "Eco"@,
            InverterMode::ForceCharge => "ForceCharge"@,
            InverterMode::ForceDischarge => "ForceDischarge"@,
            InverterMode::ExportLimit => "ExportLimit"@,
        }) + ",\""@ + text::join(text::views(f.plant_state.active_faults@), ";"@) + "\"\n"@),
{
    assert(more@.drop_last() =~= frames@);
}

/// Law: a line of a recording and a report end in a line feed.
pub proof fn law_lines_end(json: &str, frame: String, report: String)
    requires
        call_ensures(recording::write_frame, (json,), frame),
        call_ensures(recording::write_json_report, (json,), report),
    ensures
        frame@ == json@ + "\n"@,
        report@ == json@ + "\n"@,
{
}

/// Law: in XML five characters stand behind an ampersand, all others for themselves.
pub proof fn law_xml_characters(s: Seq<char>, c: char)
    ensures
        recording::escaped(Seq::empty()) == Seq::<char>::empty(),
        recording::escaped(seq!['&'] + s) == "&amp;"@ + recording::escaped(s),
        recording::escaped(seq!['<'] + s) == "&lt;"@ + recording::escaped(s),
        recording::escaped(seq!['>'] + s) == "&gt;"@ + recording::escaped(s),
        recording::escaped(seq!['"'] + s) == "&quot;"@ + recording::escaped(s),
        recording::escaped(seq!['\''] + s) == "&apos;"@ + recording::escaped(s),
        c != '&' && c != '<' && c != '>' && c != '"' && c != '\'' ==> recording::escaped(
            seq![c] + s,
        ) == seq![c] + recording::escaped(s),
{
    assert((seq!['&'] + s).skip(1) =~= s);
    assert((seq!['<'] + s).skip(1) =~= s);
    assert((seq!['>'] + s).skip(1) =~= s);
    assert((seq!['"'] + s).skip(1) =~= s);
    assert((seq!['\''] + s).skip(1) =~= s);
    assert((seq![c] + s).skip(1) =~= s);
}

/// Law: a report counts the assertions and the failures, and holds a case for each
/// assertion.
pub proof fn law_report(result: ScenarioResult, r: String)
    requires
        call_ensures(recording::write_junit_xml, (&result,), r),
    ensures
        r@ == "<?xml version=\"1.0\" encoding=\"UTF-8\"?>\n<testsuites><testsuite name=\""@
            + recording::escaped(result.name@) + "\" tests=\""@ + text::decimal(
            (result.passed + result.failed) as nat,
        ) + "\" failures=\""@ + text::decimal(result.failed as nat) + "\">\n"@
            + recording::junit_cases(result.name@, result.assertions@)
            + "</testsuite></testsuites>\n"@,
{
}

/// Law: the cases of a report come in the order of the assertions. One that passed is
/// empty; one that failed holds its messages.
pub proof fn law_report_cases(name: Seq<char>, before: Seq<AssertionResult>, a: AssertionResult)
    ensures
        recording::junit_cases(name, Seq::empty()) == Seq::<char>::empty(),
        a.passed ==> recording::junit_cases(name, before.push(a)) == recording::junit_cases(
            name,
            before,
        ) + ("  <testcase name=\"assertion @ "@ + recording::escaped(a.time@) + "\" classname=\""@
            + recording::escaped(name) + "\"/>\n"@),
        !a.passed ==> recording::junit_cases(name, before.push(a)) == recording::junit_cases(
            name,
            before,
        ) + ("  <testcase name=\"assertion @ "@ + recording::escaped(a.time@) + "\" classname=\""@
            + recording::escaped(name) + "\">\n    <failure message=\""@ + recording::escaped(
            text::join(text::views(a.messages@), "; "@),
        ) + "\">"@ + recording::escaped(text::join(text::views(a.messages@), "\n"@))
            + "</failure>\n  </testcase>\n"@),
{
    assert(before.push(a).drop_last() =~= before);
}

/// Law: a result counts what passed and what failed, and succeeds without failures.
pub proof fn law_result_counts(result: ScenarioResult, total: usize, success: bool)
    requires
        call_ensures(ScenarioResult::total, (&result,), total),
        call_ensures(ScenarioResult::is_success, (&result,), success),
    ensures
        total == result.passed + result.failed,
        success <==> result.failed == 0,
{
}

/// Law: a write whose rename works is done at once; otherwise it waits ten milliseconds
/// longer each time, and gives up at the fourth attempt.
pub proof fn law_rename_steps(attempt: u32, renamed: bool, r: AfterRename)
    requires
        call_ensures(atomic_write::after_rename, (attempt, renamed), r),
    ensures
        renamed ==> r == AfterRename::Done,
        !renamed && attempt == 0 ==> r == (AfterRename::Retry { pause_ms: 10, attempt: 1 }),
        !renamed && attempt == 1 ==> r == (AfterRename::Retry { pause_ms: 20, attempt: 2 }),
        !renamed && attempt == 2 ==> r == (AfterRename::Retry { pause_ms: 30, attempt: 3 }),
        !renamed && attempt >= 3 ==> r == AfterRename::GiveUp,
{
}

/// Law: the sibling of a file, and when its directory is to be made.
pub proof fn law_sibling(path: &str, tmp: String, parent: &str, exists: bool, creates: bool)
    requires
        call_ensures(atomic_write::tmp_path, (path,), tmp),
        call_ensures(atomic_write::creates_parent, (parent, exists), creates),
    ensures
        tmp@ == path@ + ".tmp"@,
        creates <==> !exists && parent@.len() > 0,
{
}

/// Law: a recording that was saved reads back as it was, whatever the frames hold, as long
/// as each is fit for a line.
pub proof fn law_saved_recording_reads_back(
    frames: &[String],
    saved: String,
    content: &str,
    r: Vec<String>,
)
    requires
        call_ensures(recording::save_recording, (frames,), saved),
        content@ == saved@,
        call_ensures(recording::read_frames, (content,), r),
        forall|i: int|
            0 <= i < text::views(frames@).len() ==> recording::fits_line(
                #[trigger] text::views(frames@)[i],
            ),
    ensures
        text::views(r@) == text::views(frames@),
{
    recording::law_recording_reads_back(text::views(frames@));
}

/// Law: two recordings differ at the indices at which their states differ, and at those
/// that only the longer one has.
pub proof fn law_differing_indices(a: &[String], b: &[String], r: Vec<usize>, i: usize)
    requires
        call_ensures(recording::diff_recordings, (a, b), r),
    ensures
        r@.contains(i) <==> (i < a@.len() && i < b@.len() && a@[i as int]@ != b@[i as int]@) || (i
            < a@.len() && i >= b@.len()) || (i >= a@.len() && i < b@.len()),
{
    let d = r@.map_values(|i: usize| i as int);
    recording::law_differences_exact(a@, b@, i as int);
    if r@.contains(i) {
        let j = choose|j: int| 0 <= j < r@.len() && r@[j] == i;
        assert(d[j] == i as int);
        assert(d.contains(i as int));
    }
    if d.contains(i as int) {
        let j = choose|j: int| 0 <= j < d.len() && d[j] == i as int;
        assert(r@[j] == i);
    }
}

/// Law: frames that were all read come to all of them, in order; the first failure fails
/// the whole.
pub proof fn law_gathered_frames(decoded: Vec<Result<u64, String>>, r: Result<Vec<u64>, String>)
    requires
        call_ensures(recording::gather_frames::<u64>, (decoded,), r),
    ensures
        r is Ok <==> forall|i: int| 0 <= i < decoded@.len() ==> (#[trigger] decoded@[i]) is Ok,
        r matches Ok(v) ==> v@.len() == decoded@.len() && forall|i: int|
            0 <= i < v@.len() ==> decoded@[i] == Ok::<u64, String>(#[trigger] v@[i]),
        r matches Err(e) ==> exists|i: int|
            0 <= i < decoded@.len() && #[trigger] decoded@[i] == Err::<u64, String>(e) && forall|
                j: int,
            |
                0 <= j < i ==> (#[trigger] decoded@[j]) is Ok,
{
    if let Ok(v) = r {
        assert forall|i: int| 0 <= i < v@.len() implies decoded@[i] == Ok::<u64, String>(
            #[trigger] v@[i],
        ) by {
            assert(decoded@[i] is Ok || decoded@[i] is Err);
        }
    }
}

/// Law: a recording is read line by line; a carriage return before a line feed belongs to
/// the line end, and the last line needs none.
pub proof fn law_recording_lines(line: Seq<char>, rest: Seq<char>)
    requires
        forall|i: int| 0 <= i < line.len() ==> line[i] != '\n',
    ensures
        recording::lines(Seq::empty()) == Seq::<Seq<char>>::empty(),
        line.len() > 0 ==> recording::lines(line) == seq![line],
        line.len() == 0 || line.last() != '\r' ==> recording::lines(line + seq!['\n'] + rest)
            == seq![line] + recording::lines(rest),
        recording::lines(line + seq!['\r', '\n'] + rest) == seq![line] + recording::lines(rest),
{
    let n = line.len() as int;
    text::lemma_find_char(line, '\n', n);
    let a = line + seq!['\n'] + rest;
    assert forall|j: int| 0 <= j < n implies a[j] != '\n' by {
        assert(a[j] == line[j]);
    }
    text::lemma_find_char(a, '\n', n);
    assert(a.take(n) =~= line);
    assert(a.skip(n + 1) =~= rest);
    let b = line + seq!['\r', '\n'] + rest;
    assert forall|j: int| 0 <= j < n + 1 implies b[j] != '\n' by {
        if j < n {
            assert(b[j] == line[j]);
        }
    }
    text::lemma_find_char(b, '\n', n + 1);
    assert(b.take(n + 1) =~= line.push('\r'));
    assert(line.push('\r').drop_last() =~= line);
    assert(b.skip(n + 2) =~= rest);
}

/// Law: the frames of a recording are its lines that are not blank, in order.
pub proof fn law_frames_of_lines(line: Seq<char>, rest: Seq<Seq<char>>)
    ensures
        recording::blank(line) ==> recording::frames_among(seq![line] + rest)
            == recording::frames_among(rest),
        !recording::blank(line) ==> recording::frames_among(seq![line] + rest) == seq![line]
            + recording::frames_among(rest),
        recording::blank(line) <==> forall|i: int|
            0 <= i < line.len() ==> text::is_space(#[trigger] line[i]),
{
    assert((seq![line] + rest).skip(1) =~= rest);
}

} // verus!
