//! Recordings of a run: JSON Lines, CSV, and JUnit XML reports.
//!
//! A recording is one line of JSON per frame. Turning a frame into JSON and back is
//! left to the caller; here stand the lines, the tables and the reports.
use crate::calendar;
use crate::calendar::display_moment;
use crate::dto;
use crate::dto::mode_name_of;
use crate::numerals;
use crate::numerals::append_micros;
use crate::scenario::{AssertionResult, ScenarioResult};
use crate::state::{PlantState, Timestamp};
use crate::text;
use crate::text::{
    append_decimal, characters, find_char_between, is_space_char, join_of, joined, same,
    string_between,
};
use std::collections::HashMap;
use vstd::prelude::*;
use vstd::string::StringExecFns;

verus! {

/// A single recorded frame.
#[derive(Clone, Debug)]
pub struct RecordingFrame {
    pub timestamp: Timestamp,
    pub plant_state: PlantState,
    /// Register address to raw value at this instant.
    pub register_snapshot: HashMap<u16, u16>,
}

// ---------------------------------------------------------------------------
// JSON Lines
// ---------------------------------------------------------------------------

/// The line of a recording for a frame whose JSON is `json`.
pub fn write_frame(json: &str) -> (r: String)
    ensures
        r@ == json@ + "\n"@,
{
    joined(json, "\n")
}

/// The report for a result whose JSON is `json`.
pub fn write_json_report(json: &str) -> (r: String)
    ensures
        r@ == json@ + "\n"@,
{
    joined(json, "\n")
}

/// A line without the carriage return at its end, if it has one.
pub open spec fn without_return(line: Seq<char>) -> Seq<char> {
    if line.len() > 0 && line.last() == '\r' {
        line.drop_last()
    } else {
        line
    }
}

/// The lines of `s`. A last line need not have an end; the end of any other line is
/// a line feed, with or without a carriage return before it.
pub open spec fn lines(s: Seq<char>) -> Seq<Seq<char>>
    decreases s.len(),
{
    let i = text::find_char(s, '\n');
    if s.len() == 0 {
        Seq::empty()
    } else if i >= s.len() || i < 0 {
        seq![s]
    } else {
        seq![without_return(s.take(i))] + lines(s.skip(i + 1))
    }
}

/// Whether a line holds nothing but white space.
pub open spec fn blank(line: Seq<char>) -> bool {
    forall|i: int| 0 <= i < line.len() ==> text::is_space(#[trigger] line[i])
}

/// `all` without blank lines.
pub open spec fn frames_among(all: Seq<Seq<char>>) -> Seq<Seq<char>>
    decreases all.len(),
{
    if all.len() == 0 {
        Seq::empty()
    } else if blank(all[0]) {
        frames_among(all.skip(1))
    } else {
        seq![all[0]] + frames_among(all.skip(1))
    }
}

/// Whether the characters from `from` up to `to` are all white space.
fn blank_between(v: &Vec<char>, from: usize, to: usize) -> (r: bool)
    requires
        from <= to <= v@.len(),
    ensures
        r == blank(v@.subrange(from as int, to as int)),
{
    let ghost line = v@.subrange(from as int, to as int);
    let mut i: usize = from;
    while i < to
        invariant
            from <= i <= to <= v@.len(),
            line == v@.subrange(from as int, to as int),
            forall|j: int| 0 <= j < i - from ==> text::is_space(#[trigger] line[j]),
        decreases to - i,
    {
        assert(line[i - from] == v@[i as int]);
        if !is_space_char(v[i]) {
            return false;
        }
        i += 1;
    }
    true
}

/// The JSON of each frame of a recording, in order. Blank lines are skipped.
pub fn read_frames(recording: &str) -> (r: Vec<String>)
    ensures
        text::views(r@) == frames_among(lines(recording@)),
{
    let v = characters(recording);
    let n: usize = v.len();
    let mut out: Vec<String> = Vec::new();
    let mut at: usize = 0;
    assert(v@.skip(0) =~= v@);
    assert(text::views(out@) =~= Seq::empty());
    assert(Seq::<Seq<char>>::empty() + frames_among(lines(v@)) =~= frames_among(lines(v@)));
    while at < n
        invariant
            at <= n,
            n == v@.len(),
            text::views(out@) + frames_among(lines(v@.skip(at as int))) == frames_among(lines(v@)),
        decreases n - at,
    {
        let ghost rest = v@.skip(at as int);
        let stop: usize = find_char_between(&v, at, n, '\n');
        assert(v@.subrange(at as int, n as int) =~= rest);
        let mut end: usize = stop;
        if stop < n && end > at && v[end - 1] == '\r' {
            end -= 1;
        }
        let ghost line = v@.subrange(at as int, end as int);
        let ghost before = out@;
        let next: usize = if stop < n {
            stop + 1
        } else {
            n
        };
        proof {
            assert(lines(rest) =~= seq![line] + lines(v@.skip(next as int))) by {
                if stop < n {
                    assert(rest.take(stop - at) =~= v@.subrange(at as int, stop as int));
                    assert(without_return(rest.take(stop - at)) =~= line);
                    assert(rest.skip(stop - at + 1) =~= v@.skip(next as int));
                } else {
                    assert(line =~= rest);
                    assert(v@.skip(n as int).len() == 0);
                }
            }
            assert((seq![line] + lines(v@.skip(next as int))).skip(1) =~= lines(
                v@.skip(next as int),
            ));
        }
        if !blank_between(&v, at, end) {
            out.push(string_between(&v, at, end));
            assert(text::views(out@) =~= text::views(before).push(line));
            assert(text::views(before).push(line) + frames_among(lines(v@.skip(next as int)))
                =~= text::views(before) + (seq![line] + frames_among(
                lines(v@.skip(next as int)),
            )));
        }
        at = next;
    }
    assert(v@.skip(at as int).len() == 0);
    assert(text::views(out@) + Seq::<Seq<char>>::empty() =~= text::views(out@));
    out
}

/// A recording of the frames whose JSON is given.
pub open spec fn recorded(frames: Seq<Seq<char>>) -> Seq<char>
    decreases frames.len(),
{
    if frames.len() == 0 {
        Seq::empty()
    } else {
        frames[0] + "\n"@ + recorded(frames.skip(1))
    }
}

/// [`recorded`] grows by a line with each frame.
proof fn lemma_recorded_push(frames: Seq<Seq<char>>, f: Seq<char>)
    ensures
        recorded(frames.push(f)) == recorded(frames) + (f + "\n"@),
    decreases frames.len(),
{
    assert(frames.push(f).len() > 0);
    if frames.len() > 0 {
        assert(frames.push(f)[0] == frames[0]);
        lemma_recorded_push(frames.skip(1), f);
        assert(frames.push(f).skip(1) =~= frames.skip(1).push(f));
        assert(frames[0] + "\n"@ + (recorded(frames.skip(1)) + (f + "\n"@)) =~= frames[0] + "\n"@
            + recorded(frames.skip(1)) + (f + "\n"@));
    } else {
        assert(frames.push(f)[0] == f);
        assert(recorded(frames.push(f).skip(1)) =~= Seq::empty());
        assert(f + "\n"@ + Seq::empty() =~= Seq::empty() + (f + "\n"@));
    }
}

/// The recording of the frames whose JSON is given.
pub fn save_recording(frames: &[String]) -> (r: String)
    ensures
        r@ == recorded(text::views(frames@)),
{
    let mut out = String::new();
    let mut i: usize = 0;
    while i < frames.len()
        invariant
            i <= frames@.len(),
            out@ == recorded(text::views(frames@.take(i as int))),
        decreases frames@.len() - i,
    {
        let line = write_frame(frames[i].as_str());
        out.append(line.as_str());
        proof {
            lemma_recorded_push(text::views(frames@.take(i as int)), frames@[i as int]@);
            assert(text::views(frames@.take(i + 1)) =~= text::views(frames@.take(i as int)).push(
                frames@[i as int]@,
            ));
        }
        i += 1;
    }
    assert(frames@.take(i as int) =~= frames@);
    out
}

/// Whether `json` is fit for a line: not blank, without a line feed in it, without a
/// carriage return at its end.
pub open spec fn fits_line(json: Seq<char>) -> bool {
    &&& !blank(json)
    &&& forall|i: int| 0 <= i < json.len() ==> #[trigger] json[i] != '\n'
    &&& json.last() != '\r'
}

/// Whether `line` can stand between frames: blank, without a line feed in it.
pub open spec fn fits_between(line: Seq<char>) -> bool {
    &&& blank(line)
    &&& forall|i: int| 0 <= i < line.len() ==> #[trigger] line[i] != '\n'
}

/// Law: blank lines between the frames of a recording change nothing: reading gives
/// the frames, in order.
pub proof fn law_blank_lines_are_skipped(all: Seq<Seq<char>>)
    requires
        forall|i: int|
            0 <= i < all.len() ==> fits_line(#[trigger] all[i]) || fits_between(all[i]),
    ensures
        frames_among(lines(recorded(all))) == frames_among(all),
    decreases all.len(),
{
    reveal_strlit("\n");
    if all.len() > 0 {
        let f = all[0];
        let rest = recorded(all.skip(1));
        let s = f + "\n"@ + rest;
        assert(fits_line(f) || fits_between(f));
        assert(s[f.len() as int] == '\n');
        assert forall|i: int| 0 <= i < f.len() implies #[trigger] s[i] != '\n' by {
            assert(s[i] == f[i]);
        }
        text::lemma_find_char(s, '\n', f.len() as int);
        assert(s.take(f.len() as int) =~= f);
        assert(s.skip(f.len() as int + 1) =~= rest);
        let line = without_return(f);
        assert(lines(s) == seq![line] + lines(rest));
        assert((seq![line] + lines(rest)).skip(1) =~= lines(rest));
        assert(fits_line(f) ==> line == f);
        assert(blank(f) ==> blank(line));
        assert forall|i: int| 0 <= i < all.skip(1).len() implies fits_line(
            #[trigger] all.skip(1)[i],
        ) || fits_between(all.skip(1)[i]) by {
            assert(all.skip(1)[i] == all[i + 1]);
        }
        law_blank_lines_are_skipped(all.skip(1));
    }
}

/// Frames alone hold no blank line to leave out.
proof fn lemma_frames_stay(frames: Seq<Seq<char>>)
    requires
        forall|i: int| 0 <= i < frames.len() ==> !blank(#[trigger] frames[i]),
    ensures
        frames_among(frames) == frames,
    decreases frames.len(),
{
    if frames.len() > 0 {
        assert(!blank(frames[0]));
        assert forall|i: int| 0 <= i < frames.skip(1).len() implies !blank(
            #[trigger] frames.skip(1)[i],
        ) by {
            assert(frames.skip(1)[i] == frames[i + 1]);
        }
        lemma_frames_stay(frames.skip(1));
        assert(seq![frames[0]] + frames.skip(1) =~= frames);
    }
}

/// Law: reading a recording gives back the frames that were written, in order.
pub proof fn law_recording_reads_back(frames: Seq<Seq<char>>)
    requires
        forall|i: int| 0 <= i < frames.len() ==> fits_line(#[trigger] frames[i]),
    ensures
        frames_among(lines(recorded(frames))) == frames,
{
    law_blank_lines_are_skipped(frames);
    lemma_frames_stay(frames);
}

/// Law: a recording of nothing but white space, or of nothing at all, has no frames.
pub proof fn law_blank_recording_is_empty(recording: Seq<char>)
    requires
        blank(recording),
    ensures
        frames_among(lines(recording)) == Seq::<Seq<char>>::empty(),
    decreases recording.len(),
{
    let i = text::find_char(recording, '\n');
    if recording.len() > 0 {
        if i >= recording.len() || i < 0 {
            assert(lines(recording) == seq![recording]);
            assert(frames_among(seq![recording].skip(1)) =~= Seq::empty());
        } else {
            let line = without_return(recording.take(i));
            let rest = recording.skip(i + 1);
            assert forall|j: int| 0 <= j < line.len() implies text::is_space(#[trigger] line[j]) by {
                assert(line[j] == recording[j]);
            }
            assert forall|j: int| 0 <= j < rest.len() implies text::is_space(#[trigger] rest[j]) by {
                assert(rest[j] == recording[i + 1 + j]);
            }
            law_blank_recording_is_empty(rest);
            assert((seq![line] + lines(rest)).skip(1) =~= lines(rest));
        }
    }
}

/// Whether `r` is what the frames read so far come to: all of them, or the first
/// failure among them.
pub open spec fn comes_to<T>(decoded: Seq<Result<T, String>>, r: Result<Seq<T>, String>) -> bool {
    match r {
        Ok(frames) => {
            &&& frames.len() == decoded.len()
            &&& forall|i: int|
                0 <= i < decoded.len() ==> #[trigger] decoded[i] == Ok::<T, String>(frames[i])
        },
        Err(e) => exists|i: int|
            {
                &&& 0 <= i < decoded.len()
                &&& #[trigger] decoded[i] == Err::<T, String>(e)
                &&& forall|j: int| 0 <= j < i ==> (#[trigger] decoded[j]) is Ok
            },
    }
}

/// The frames of a recording from what each of them was read as: one that could not be
/// read fails the whole.
pub fn gather_frames<T>(decoded: Vec<Result<T, String>>) -> (r: Result<Vec<T>, String>)
    ensures
        match r {
            Ok(v) => comes_to(decoded@, Ok(v@)),
            Err(e) => comes_to(decoded@, Err(e)),
        },
{
    let mut out: Vec<T> = Vec::new();
    for d in it: decoded
        invariant
            it.seq() == decoded@,
            out@.len() == it.index(),
            forall|i: int|
                0 <= i < it.index() ==> #[trigger] decoded@[i] == Ok::<T, String>(out@[i]),
    {
        assert(decoded@[it.index()] == d);
        match d {
            Ok(f) => out.push(f),
            Err(e) => {
                assert(comes_to(decoded@, Err(e)));
                return Err(e);
            },
        }
    }
    Ok(out)
}

/// Law: frames that were written, with blank lines between them or without, read back
/// as they were where each line reads back; one line that does not read fails the
/// whole.
pub proof fn law_frames_read_back<T>(
    all: Seq<Seq<char>>,
    read: spec_fn(Seq<char>) -> Result<T, String>,
    r: Result<Seq<T>, String>,
)
    requires
        forall|i: int|
            0 <= i < all.len() ==> fits_line(#[trigger] all[i]) || fits_between(all[i]),
        comes_to(
            frames_among(lines(recorded(all))).map_values(|json: Seq<char>| read(json)),
            r,
        ),
    ensures
        match r {
            Ok(frames) => {
                &&& frames.len() == frames_among(all).len()
                &&& forall|i: int|
                    0 <= i < frames.len() ==> read(frames_among(all)[i]) == Ok::<T, String>(
                        #[trigger] frames[i],
                    )
            },
            Err(e) => exists|i: int|
                0 <= i < frames_among(all).len() && read(#[trigger] frames_among(all)[i]) == Err::<
                    T,
                    String,
                >(e),
        },
{
    law_blank_lines_are_skipped(all);
    let json = frames_among(all);
    let decoded = json.map_values(|json: Seq<char>| read(json));
    match r {
        Ok(frames) => {
            assert forall|i: int| 0 <= i < frames.len() implies read(json[i]) == Ok::<T, String>(
                #[trigger] frames[i],
            ) by {
                assert(decoded[i] == read(json[i]));
            }
        },
        Err(e) => {
            let i = choose|i: int|
                {
                    &&& 0 <= i < decoded.len()
                    &&& #[trigger] decoded[i] == Err::<T, String>(e)
                    &&& forall|j: int| 0 <= j < i ==> (#[trigger] decoded[j]) is Ok
                };
            assert(read(json[i]) == decoded[i]);
        },
    }
}

// ---------------------------------------------------------------------------
// Differences
// ---------------------------------------------------------------------------

/// Whether the recordings `a` and `b` differ at the index `i`.
pub open spec fn differ_at(a: Seq<String>, b: Seq<String>, i: int) -> bool {
    &&& 0 <= i
    &&& i < a.len() || i < b.len()
    &&& i < a.len() && i < b.len() ==> a[i]@ != b[i]@
}

/// The indices below `n` at which the recordings differ, in order.
pub open spec fn differences(a: Seq<String>, b: Seq<String>, n: nat) -> Seq<int>
    decreases n,
{
    if n == 0 {
        Seq::empty()
    } else {
        let before = differences(a, b, (n - 1) as nat);
        if differ_at(a, b, n - 1) {
            before.push(n - 1)
        } else {
            before
        }
    }
}

/// The larger of two lengths.
pub open spec fn longer(a: nat, b: nat) -> nat {
    if a < b {
        b
    } else {
        a
    }
}

/// The indices at which two recordings differ, each recording given by the JSON of
/// its plant states. Where one is longer, all of its further indices count.
pub fn diff_recordings(a: &[String], b: &[String]) -> (r: Vec<usize>)
    ensures
        r@.map_values(|i: usize| i as int) == differences(a@, b@, longer(a@.len(), b@.len())),
{
    let n: usize = if a.len() < b.len() {
        b.len()
    } else {
        a.len()
    };
    let mut out: Vec<usize> = Vec::new();
    let mut i: usize = 0;
    assert(out@.map_values(|i: usize| i as int) =~= Seq::<int>::empty());
    while i < n
        invariant
            i <= n,
            n == longer(a@.len(), b@.len()),
            out@.map_values(|i: usize| i as int) == differences(a@, b@, i as nat),
        decreases n - i,
    {
        let ghost before = out@;
        let alike = i < a.len() && i < b.len() && same(a[i].as_str(), b[i].as_str());
        if !alike {
            out.push(i);
            assert(out@.map_values(|i: usize| i as int) =~= before.map_values(
                |i: usize| i as int,
            ).push(i as int));
        }
        i += 1;
    }
    out
}

/// [`differences`] holds exactly the indices at which the recordings differ.
proof fn lemma_differences(a: Seq<String>, b: Seq<String>, n: nat, i: int)
    ensures
        differences(a, b, n).contains(i) <==> i < n && differ_at(a, b, i),
    decreases n,
{
    if n > 0 {
        lemma_differences(a, b, (n - 1) as nat, i);
        let before = differences(a, b, (n - 1) as nat);
        if differ_at(a, b, n - 1) {
            assert(before.push(n - 1)[before.len() as int] == n - 1);
            assert forall|j: int| 0 <= j < before.len() implies before.push(n - 1)[j]
                == before[j] by {}
            if before.contains(i) {
                let j = choose|j: int| 0 <= j < before.len() && before[j] == i;
                assert(before.push(n - 1)[j] == i);
            }
        }
    }
}

/// Law: an index counts as a difference exactly when the recordings differ there.
pub proof fn law_differences_exact(a: Seq<String>, b: Seq<String>, i: int)
    ensures
        differences(a, b, longer(a.len(), b.len())).contains(i) <==> differ_at(a, b, i),
{
    lemma_differences(a, b, longer(a.len(), b.len()), i);
}

/// Law: the differences of two recordings do not depend on which is named first.
pub proof fn law_differences_symmetric(a: Seq<String>, b: Seq<String>, n: nat)
    ensures
        differences(a, b, n) == differences(b, a, n),
    decreases n,
{
    if n > 0 {
        law_differences_symmetric(a, b, (n - 1) as nat);
    }
}

/// Law: two recordings have no differences exactly when they hold the same states.
pub proof fn law_no_differences(a: Seq<String>, b: Seq<String>)
    ensures
        differences(a, b, longer(a.len(), b.len())).len() == 0 <==> text::views(a) == text::views(
            b,
        ),
{
    let d = differences(a, b, longer(a.len(), b.len()));
    assert(text::views(a).len() == a.len() && text::views(b).len() == b.len());
    if d.len() == 0 {
        assert forall|i: int| !differ_at(a, b, i) by {
            law_differences_exact(a, b, i);
        }
        assert(!differ_at(a, b, a.len() as int) && !differ_at(a, b, b.len() as int));
        assert forall|i: int| 0 <= i < a.len() implies text::views(a)[i] == text::views(b)[i] by {
            assert(!differ_at(a, b, i));
        }
        assert(text::views(a) =~= text::views(b));
    } else if text::views(a) == text::views(b) {
        let i = d[0];
        assert(d.contains(i));
        law_differences_exact(a, b, i);
        assert(text::views(a)[i] == a[i]@);
        assert(text::views(b)[i] == b[i]@);
    }
}

// ---------------------------------------------------------------------------
// CSV
// ---------------------------------------------------------------------------

/// The columns of a CSV trace.
pub open spec fn csv_header() -> Seq<char> {
    "timestamp,soc_percent,battery_power_kw,solar_w,load_w,grid_w,grid_connected,inverter_mode,active_faults\n"@
}

/// The row of a frame.
pub open spec fn csv_row(f: RecordingFrame) -> Seq<char> {
    let s = f.plant_state;
    calendar::moment_display(f.timestamp) + ","@ + numerals::decimal_text(s.battery_record.soc_percent@, 2)
        + ","@ + numerals::decimal_text(s.battery_record.power_kw@, 2) + ","@ + numerals::decimal_text(
        s.solar.generation_w@,
        0,
    ) + ","@ + numerals::decimal_text(s.load_demand_w@, 0) + ","@ + numerals::decimal_text(
        s.grid.power_w@,
        0,
    ) + ","@ + (if s.grid.connected {
        "1"@
    } else {
        "0"@
    }) + ","@ + dto::mode_name(s.inverter.mode) + ",\""@ + text::join(
        text::views(s.active_faults@),
        ";"@,
    ) + "\"\n"@
}

/// The trace of the frames: the columns, then a row for each frame.
pub open spec fn csv_trace(frames: Seq<RecordingFrame>) -> Seq<char>
    decreases frames.len(),
{
    if frames.len() == 0 {
        csv_header()
    } else {
        csv_trace(frames.drop_last()) + csv_row(frames.last())
    }
}

/// Appends the row of a frame.
fn append_csv_row(out: &mut String, f: &RecordingFrame)
    requires
        calendar::exists_moment(f.timestamp),
    ensures
        final(out)@ == old(out)@ + csv_row(*f),
{
    let s = &f.plant_state;
    let mut row = display_moment(&f.timestamp);
    row.append(",");
    append_micros(&mut row, s.battery_record.soc_percent.micros(), 2);
    row.append(",");
    append_micros(&mut row, s.battery_record.power_kw.micros(), 2);
    row.append(",");
    append_micros(&mut row, s.solar.generation_w.micros(), 0);
    row.append(",");
    append_micros(&mut row, s.load_demand_w.micros(), 0);
    row.append(",");
    append_micros(&mut row, s.grid.power_w.micros(), 0);
    row.append(",");
    if s.grid.connected {
        row.append("1");
    } else {
        row.append("0");
    }
    row.append(",");
    row.append(mode_name_of(s.inverter.mode));
    row.append(",\"");
    let faults = join_of(&s.active_faults, ";");
    row.append(faults.as_str());
    row.append("\"\n");
    out.append(row.as_str());
}

/// The trace of the frames as CSV.
pub fn write_csv(frames: &[RecordingFrame]) -> (r: String)
    requires
        forall|i: int|
            0 <= i < frames@.len() ==> calendar::exists_moment((#[trigger] frames@[i]).timestamp),
    ensures
        r@ == csv_trace(frames@),
{
    let mut out =
        "timestamp,soc_percent,battery_power_kw,solar_w,load_w,grid_w,grid_connected,inverter_mode,active_faults\n".to_owned();
    let mut i: usize = 0;
    while i < frames.len()
        invariant
            i <= frames@.len(),
            forall|i: int|
                0 <= i < frames@.len() ==> calendar::exists_moment(
                    (#[trigger] frames@[i]).timestamp,
                ),
            out@ == csv_trace(frames@.take(i as int)),
        decreases frames@.len() - i,
    {
        assert(frames@.take(i + 1).drop_last() =~= frames@.take(i as int));
        append_csv_row(&mut out, &frames[i]);
        i += 1;
    }
    assert(frames@.take(i as int) =~= frames@);
    out
}

// ---------------------------------------------------------------------------
// JUnit XML
// ---------------------------------------------------------------------------

/// A character as it stands in XML.
pub open spec fn escaped_char(c: char) -> Seq<char> {
    if c == '&' {
        "&amp;"@
    } else if c == '<' {
        "&lt;"@
    } else if c == '>' {
        "&gt;"@
    } else if c == '"' {
        "&quot;"@
    } else if c == '\'' {
        "&apos;"@
    } else {
        seq![c]
    }
}

/// A string as it stands in XML.
pub open spec fn escaped(s: Seq<char>) -> Seq<char>
    decreases s.len(),
{
    if s.len() == 0 {
        Seq::empty()
    } else {
        escaped_char(s[0]) + escaped(s.skip(1))
    }
}

/// A string as it stands in XML.
pub fn xml_escape(s: &str) -> (r: String)
    ensures
        r@ == escaped(s@),
{
    let v = characters(s);
    let mut out = String::new();
    let mut i: usize = 0;
    assert(v@.skip(0) =~= v@);
    assert(out@ + escaped(v@) =~= escaped(v@));
    while i < v.len()
        invariant
            i <= v@.len(),
            out@ + escaped(v@.skip(i as int)) == escaped(v@),
        decreases v@.len() - i,
    {
        let c = v[i];
        let ghost before = out@;
        if c == '&' {
            out.append("&amp;");
        } else if c == '<' {
            out.append("&lt;");
        } else if c == '>' {
            out.append("&gt;");
        } else if c == '"' {
            out.append("&quot;");
        } else if c == '\'' {
            out.append("&apos;");
        } else {
            out.push(c);
        }
        assert(v@.skip(i as int).skip(1) =~= v@.skip(i + 1));
        assert(out@ =~= before + escaped_char(c));
        assert(out@ + escaped(v@.skip(i + 1)) =~= before + (escaped_char(c) + escaped(
            v@.skip(i + 1),
        )));
        i += 1;
    }
    assert(out@ + escaped(v@.skip(i as int)) =~= out@);
    out
}

/// Whether `c` has a meaning of its own in XML text or in an attribute, the
/// ampersand apart.
pub open spec fn is_markup(c: char) -> bool {
    c == '<' || c == '>' || c == '"' || c == '\''
}

/// Law: an escaped string holds no character that would end the text or the
/// attribute that it stands in.
pub proof fn law_escaped_is_not_markup(s: Seq<char>)
    ensures
        forall|i: int| 0 <= i < escaped(s).len() ==> !is_markup(#[trigger] escaped(s)[i]),
    decreases s.len(),
{
    reveal_strlit("&amp;");
    reveal_strlit("&lt;");
    reveal_strlit("&gt;");
    reveal_strlit("&quot;");
    reveal_strlit("&apos;");
    if s.len() > 0 {
        law_escaped_is_not_markup(s.skip(1));
        let head = escaped_char(s[0]);
        assert forall|i: int| 0 <= i < head.len() implies !is_markup(#[trigger] head[i]) by {}
        assert forall|i: int| 0 <= i < escaped(s).len() implies !is_markup(
            #[trigger] escaped(s)[i],
        ) by {
            if i < head.len() {
                assert(escaped(s)[i] == head[i]);
            } else {
                assert(escaped(s)[i] == escaped(s.skip(1))[i - head.len()]);
            }
        }
    }
}

/// Law: an escaped string tells which string it was.
pub proof fn law_escape_tells_apart(a: Seq<char>, b: Seq<char>)
    requires
        escaped(a) == escaped(b),
    ensures
        a == b,
    decreases a.len(),
{
    reveal_strlit("&amp;");
    reveal_strlit("&lt;");
    reveal_strlit("&gt;");
    reveal_strlit("&quot;");
    reveal_strlit("&apos;");
    let e = escaped(a);
    if a.len() == 0 {
        if b.len() > 0 {
            assert(escaped_char(b[0]).len() > 0);
            assert(escaped(b).len() > 0);
        }
    } else {
        assert(escaped_char(a[0]).len() > 0);
        assert(e.len() > 0);
        assert(b.len() > 0);
        let x = escaped_char(a[0]);
        let y = escaped_char(b[0]);
        assert(x.len() > 0 && y.len() > 0);
        assert(e[0] == x[0] && e[0] == y[0]);
        if x.len() > 1 && y.len() > 1 {
            assert(x.len() >= 4 && y.len() >= 4);
            assert(e[1] == x[1] && e[1] == y[1]);
            assert(e[2] == x[2] && e[2] == y[2]);
        }
        assert(a[0] == b[0]);
        assert(escaped(a.skip(1)) =~= e.skip(x.len() as int));
        assert(escaped(b.skip(1)) =~= e.skip(x.len() as int));
        law_escape_tells_apart(a.skip(1), b.skip(1));
        assert(a =~= seq![a[0]] + a.skip(1));
        assert(b =~= seq![b[0]] + b.skip(1));
    }
}

/// The case of an assertion in the suite `name`.
pub open spec fn junit_case(name: Seq<char>, a: AssertionResult) -> Seq<char> {
    let opening = "  <testcase name=\"assertion @ "@ + escaped(a.time@) + "\" classname=\""@
        + escaped(name);
    if a.passed {
        opening + "\"/>\n"@
    } else {
        opening + "\">\n    <failure message=\""@ + escaped(
            text::join(text::views(a.messages@), "; "@),
        ) + "\">"@ + escaped(text::join(text::views(a.messages@), "\n"@))
            + "</failure>\n  </testcase>\n"@
    }
}

/// The cases of the assertions, in order.
pub open spec fn junit_cases(name: Seq<char>, a: Seq<AssertionResult>) -> Seq<char>
    decreases a.len(),
{
    if a.len() == 0 {
        Seq::empty()
    } else {
        junit_cases(name, a.drop_last()) + junit_case(name, a.last())
    }
}

/// The report of a result.
pub open spec fn junit_report(r: ScenarioResult) -> Seq<char> {
    "<?xml version=\"1.0\" encoding=\"UTF-8\"?>\n<testsuites><testsuite name=\""@ + escaped(r.name@)
        + "\" tests=\""@ + text::decimal((r.passed + r.failed) as nat) + "\" failures=\""@
        + text::decimal(r.failed as nat) + "\">\n"@ + junit_cases(r.name@, r.assertions@)
        + "</testsuite></testsuites>\n"@
}

/// Appends the case of an assertion.
fn append_case(out: &mut String, name: &str, a: &AssertionResult)
    ensures
        final(out)@ == old(out)@ + junit_case(name@, *a),
{
    let mut case = "  <testcase name=\"assertion @ ".to_owned();
    let time = xml_escape(a.time.as_str());
    case.append(time.as_str());
    case.append("\" classname=\"");
    let class = xml_escape(name);
    case.append(class.as_str());
    if a.passed {
        case.append("\"/>\n");
    } else {
        case.append("\">\n    <failure message=\"");
        let list = join_of(&a.messages, "; ");
        let message = xml_escape(list.as_str());
        case.append(message.as_str());
        case.append("\">");
        let rows = join_of(&a.messages, "\n");
        let body = xml_escape(rows.as_str());
        case.append(body.as_str());
        case.append("</failure>\n  </testcase>\n");
    }
    out.append(case.as_str());
}

/// The report of a scenario's result as JUnit XML.
pub fn write_junit_xml(result: &ScenarioResult) -> (r: String)
    requires
        result.passed + result.failed <= usize::MAX,
    ensures
        r@ == junit_report(*result),
{
    let mut out =
        "<?xml version=\"1.0\" encoding=\"UTF-8\"?>\n<testsuites><testsuite name=\"".to_owned();
    let name = xml_escape(result.name.as_str());
    out.append(name.as_str());
    out.append("\" tests=\"");
    append_decimal(&mut out, result.total() as u64);
    out.append("\" failures=\"");
    append_decimal(&mut out, result.failed as u64);
    out.append("\">\n");
    let ghost head = out@;
    let mut i: usize = 0;
    assert(head + junit_cases(result.name@, result.assertions@.take(0)) =~= head);
    while i < result.assertions.len()
        invariant
            i <= result.assertions@.len(),
            out@ == head + junit_cases(result.name@, result.assertions@.take(i as int)),
        decreases result.assertions@.len() - i,
    {
        let ghost before = junit_cases(result.name@, result.assertions@.take(i as int));
        assert(result.assertions@.take(i + 1).drop_last() =~= result.assertions@.take(i as int));
        append_case(&mut out, result.name.as_str(), &result.assertions[i]);
        assert(out@ =~= head + (before + junit_case(
            result.name@,
            result.assertions@[i as int],
        )));
        i += 1;
    }
    assert(result.assertions@.take(i as int) =~= result.assertions@);
    out.append("</testsuite></testsuites>\n");
    out
}

} // verus!
