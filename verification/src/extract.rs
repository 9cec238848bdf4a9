//! The extraction engine: from the probing tool's report to the fields of a
//! record.
//!
//! Each field is found by fixed substring rules, tried in a fixed order; the
//! first rule that matches decides. A field that no rule decides is
//! `Unknown`.

use crate::decimal::{all_digits, are_digits, digits_value};
use crate::error::ExtractionError;
use crate::megabits::{megabits_label, megabits_of_digits};
use crate::record::{MediaRecord, RecordModel};
use crate::text::{
    chars_of, contains, contains_chars, find_char, lemma_position_from, lines_of, position_from,
    remove_char, slice_of, split_lines, string_of, trim, trim_chars, views_of, without,
};
use vstd::prelude::*;
use vstd::string::StringExecFns;

verus! {

/// The label of a field that the rules do not decide.
pub open spec fn unknown() -> Seq<char> {
    "Unknown"@
}

/// The codec's label: the first of the known codec tokens that the report
/// contains decides.
pub open spec fn codec_label(report: Seq<char>) -> Seq<char> {
    if contains(report, "h264"@) {
        "H.264"@
    } else if contains(report, "hevc"@) || contains(report, "h265"@) {
        "H.265"@
    } else if contains(report, "vp9"@) {
        "VP9"@
    } else if contains(report, "av01"@) {
        "AV1"@
    } else if contains(report, "hap"@) {
        "Hap"@
    } else if contains(report, "mjpeg"@) {
        "MJPEG"@
    } else {
        unknown()
    }
}

/// The resolution that one line gives: the line must name both `width` and
/// `height`, and hold both numbers of one of the known resolutions.
pub open spec fn line_resolution(line: Seq<char>) -> Option<Seq<char>> {
    if !(contains(line, "width"@) && contains(line, "height"@)) {
        None
    } else if contains(line, "1920"@) && contains(line, "1080"@) {
        Some("1920x1080"@)
    } else if contains(line, "1280"@) && contains(line, "720"@) {
        Some("1280x720"@)
    } else if contains(line, "3840"@) && contains(line, "2160"@) {
        Some("3840x2160"@)
    } else {
        None
    }
}

/// The resolution that the first of `lines` which gives one gives.
pub open spec fn first_resolution(lines: Seq<Seq<char>>) -> Seq<char>
    decreases lines.len(),
{
    if lines.len() == 0 {
        unknown()
    } else {
        match line_resolution(lines[0]) {
            Some(label) => label,
            None => first_resolution(lines.drop_first()),
        }
    }
}

/// The resolution's label: that of the first line of the report that gives
/// one.
pub open spec fn resolution_label(report: Seq<char>) -> Seq<char> {
    first_resolution(lines_of(report))
}

/// The frame rate's label: the first of the known rates that the report
/// holds, as a fraction over one or as a quoted number, decides. The whole
/// report is searched, not line by line.
pub open spec fn frame_rate_label(report: Seq<char>) -> Seq<char> {
    if contains(report, "25/1"@) || contains(report, "\"25\""@) {
        "25"@
    } else if contains(report, "30/1"@) || contains(report, "\"30\""@) {
        "30"@
    } else if contains(report, "24/1"@) || contains(report, "\"24\""@) {
        "24"@
    } else if contains(report, "60/1"@) || contains(report, "\"60\""@) {
        "60"@
    } else {
        unknown()
    }
}

/// A line that may state the bit rate: it names `bit_rate`, and not
/// `max_bit_rate`.
pub open spec fn is_bitrate_line(line: Seq<char>) -> bool {
    contains(line, "bit_rate"@) && !contains(line, "max_bit_rate"@)
}

/// The first of `lines` that may state the bit rate.
pub open spec fn first_bitrate_line(lines: Seq<Seq<char>>) -> Option<Seq<char>>
    decreases lines.len(),
{
    if lines.len() == 0 {
        None
    } else if is_bitrate_line(lines[0]) {
        Some(lines[0])
    } else {
        first_bitrate_line(lines.drop_first())
    }
}

/// The text of the value on `line`: what stands between the first colon and
/// the first comma after it, without the whitespace around it and then
/// without quotation marks. `None` where the colon or the comma is missing.
pub open spec fn value_token(line: Seq<char>) -> Option<Seq<char>> {
    let colon = position_from(line, ':', 0);
    let comma = position_from(line, ',', colon);
    if colon < line.len() && comma < line.len() {
        Some(without(trim(line.subrange(colon + 1, comma)), '"'))
    } else {
        None
    }
}

/// `token` is a decimal number: one digit or more, and nothing else.
pub open spec fn is_number(token: Seq<char>) -> bool {
    token.len() > 0 && all_digits(token)
}

/// The label of a bit rate whose value is written `token`.
pub open spec fn token_label(token: Seq<char>) -> Seq<char> {
    if is_number(token) {
        megabits_label(digits_value(token))
    } else {
        unknown()
    }
}

/// The label of the bit rate that `line` states.
pub open spec fn line_bitrate(line: Seq<char>) -> Seq<char> {
    match value_token(line) {
        Some(token) => token_label(token),
        None => unknown(),
    }
}

/// The bit rate's label: the first line of the report that may state the bit
/// rate decides alone; later lines are not read.
pub open spec fn bitrate_label(report: Seq<char>) -> Seq<char> {
    match first_bitrate_line(lines_of(report)) {
        Some(line) => line_bitrate(line),
        None => unknown(),
    }
}

/// Whether `text` contains `token`.
fn holds(text: &Vec<char>, token: &str) -> (r: bool)
    ensures
        r == contains(text@, token@),
{
    let needle = chars_of(token);
    contains_chars(text, &needle)
}

/// The codec's label for `report`.
pub fn extract_codec(report: &str) -> (label: String)
    ensures
        label@ == codec_label(report@),
{
    let text = chars_of(report);
    if holds(&text, "h264") {
        String::from_str("H.264")
    } else if holds(&text, "hevc") || holds(&text, "h265") {
        String::from_str("H.265")
    } else if holds(&text, "vp9") {
        String::from_str("VP9")
    } else if holds(&text, "av01") {
        String::from_str("AV1")
    } else if holds(&text, "hap") {
        String::from_str("Hap")
    } else if holds(&text, "mjpeg") {
        String::from_str("MJPEG")
    } else {
        String::from_str("Unknown")
    }
}

/// The resolution that `line` gives, if it gives one.
fn resolution_of_line(line: &Vec<char>) -> (label: Option<String>)
    ensures
        match label {
            Some(l) => line_resolution(line@) == Some(l@),
            None => line_resolution(line@) is None,
        },
{
    if !(holds(line, "width") && holds(line, "height")) {
        None
    } else if holds(line, "1920") && holds(line, "1080") {
        Some(String::from_str("1920x1080"))
    } else if holds(line, "1280") && holds(line, "720") {
        Some(String::from_str("1280x720"))
    } else if holds(line, "3840") && holds(line, "2160") {
        Some(String::from_str("3840x2160"))
    } else {
        None
    }
}

/// The resolution's label for `report`.
pub fn extract_resolution(report: &str) -> (label: String)
    ensures
        label@ == resolution_label(report@),
{
    let text = chars_of(report);
    let lines = split_lines(&text);
    let ghost all = views_of(lines@);
    let mut i: usize = 0;
    assert(all.subrange(0, all.len() as int) =~= all);
    while i < lines.len()
        invariant
            i <= lines.len(),
            all == views_of(lines@),
            all == lines_of(report@),
            first_resolution(all) == first_resolution(all.subrange(i as int, all.len() as int)),
        decreases lines.len() - i,
    {
        let ghost rest = all.subrange(i as int, all.len() as int);
        assert(rest.drop_first() =~= all.subrange(i + 1, all.len() as int));
        match resolution_of_line(&lines[i]) {
            Some(label) => {
                return label;
            },
            None => {},
        }
        i += 1;
    }
    String::from_str("Unknown")
}

/// The frame rate's label for `report`.
pub fn extract_frame_rate(report: &str) -> (label: String)
    ensures
        label@ == frame_rate_label(report@),
{
    let text = chars_of(report);
    if holds(&text, "25/1") || holds(&text, "\"25\"") {
        String::from_str("25")
    } else if holds(&text, "30/1") || holds(&text, "\"30\"") {
        String::from_str("30")
    } else if holds(&text, "24/1") || holds(&text, "\"24\"") {
        String::from_str("24")
    } else if holds(&text, "60/1") || holds(&text, "\"60\"") {
        String::from_str("60")
    } else {
        String::from_str("Unknown")
    }
}

/// The label of a bit rate whose value is written `token`.
fn label_of_chars(token: &Vec<char>) -> (label: String)
    ensures
        label@ == token_label(token@),
{
    if token.len() > 0 && are_digits(token) {
        string_of(&megabits_of_digits(token))
    } else {
        String::from_str("Unknown")
    }
}

/// The label of a bit rate whose value is written `token`: the rate in
/// megabits per second with one fractional digit where `token` is a decimal
/// number of bits per second, else `Unknown`.
pub fn label_of_token(token: &str) -> (label: String)
    ensures
        label@ == token_label(token@),
{
    label_of_chars(&chars_of(token))
}

/// The label of the bit rate that `line` states.
fn bitrate_of_line(line: &Vec<char>) -> (label: String)
    ensures
        label@ == line_bitrate(line@),
{
    let colon: usize = find_char(line, ':', 0);
    let comma: usize = find_char(line, ',', colon);
    if colon < line.len() && comma < line.len() {
        proof {
            lemma_position_from(line@, ':', 0);
            lemma_position_from(line@, ',', colon as int);
        }
        let between = slice_of(line, colon + 1, comma);
        let token = remove_char(&trim_chars(&between), '"');
        label_of_chars(&token)
    } else {
        String::from_str("Unknown")
    }
}

/// The bit rate's label for `report`.
pub fn extract_bitrate(report: &str) -> (label: String)
    ensures
        label@ == bitrate_label(report@),
{
    let text = chars_of(report);
    let lines = split_lines(&text);
    let ghost all = views_of(lines@);
    let mut i: usize = 0;
    assert(all.subrange(0, all.len() as int) =~= all);
    while i < lines.len()
        invariant
            i <= lines.len(),
            all == views_of(lines@),
            all == lines_of(report@),
            first_bitrate_line(all) == first_bitrate_line(all.subrange(i as int, all.len() as int)),
        decreases lines.len() - i,
    {
        let ghost rest = all.subrange(i as int, all.len() as int);
        assert(rest.drop_first() =~= all.subrange(i + 1, all.len() as int));
        if holds(&lines[i], "bit_rate") && !holds(&lines[i], "max_bit_rate") {
            return bitrate_of_line(&lines[i]);
        }
        i += 1;
    }
    String::from_str("Unknown")
}

/// `label` is one of the codec labels.
pub open spec fn is_codec_label(label: Seq<char>) -> bool {
    ||| label == "H.264"@
    ||| label == "H.265"@
    ||| label == "VP9"@
    ||| label == "AV1"@
    ||| label == "Hap"@
    ||| label == "MJPEG"@
    ||| label == unknown()
}

/// `label` is one of the resolution labels.
pub open spec fn is_resolution_label(label: Seq<char>) -> bool {
    ||| label == "1920x1080"@
    ||| label == "1280x720"@
    ||| label == "3840x2160"@
    ||| label == unknown()
}

/// `label` is one of the frame rate labels.
pub open spec fn is_frame_rate_label(label: Seq<char>) -> bool {
    ||| label == "25"@
    ||| label == "30"@
    ||| label == "24"@
    ||| label == "60"@
    ||| label == unknown()
}

/// `label` is a bit rate in megabits per second with one fractional digit,
/// or `Unknown`.
pub open spec fn is_bitrate_label(label: Seq<char>) -> bool {
    label == unknown() || exists|bits: nat| label == megabits_label(bits)
}

/// Each extracted field of `record` is one of its labels.
pub open spec fn well_formed(record: RecordModel) -> bool {
    &&& is_codec_label(record.codec)
    &&& is_resolution_label(record.resolution)
    &&& is_frame_rate_label(record.frame_rate)
    &&& is_bitrate_label(record.bitrate)
}

/// What the path and the report decide of a record: its path, its raw
/// report, and the four extracted fields.
pub open spec fn extracted_from(record: RecordModel, path: Seq<char>, report: Seq<char>) -> bool {
    &&& record.path == path
    &&& record.raw_report == report
    &&& record.codec == codec_label(report)
    &&& record.resolution == resolution_label(report)
    &&& record.frame_rate == frame_rate_label(report)
    &&& record.bitrate == bitrate_label(report)
}

/// The lines of a list give a resolution label.
pub proof fn lemma_first_resolution_is_label(lines: Seq<Seq<char>>)
    ensures
        is_resolution_label(first_resolution(lines)),
    decreases lines.len(),
{
    if lines.len() > 0 && line_resolution(lines[0]) is None {
        lemma_first_resolution_is_label(lines.drop_first());
    }
}

/// Whatever the report, each extracted field is one of its labels: no rule
/// gives a value outside its closed list.
pub proof fn lemma_labels_are_closed(report: Seq<char>)
    ensures
        is_codec_label(codec_label(report)),
        is_resolution_label(resolution_label(report)),
        is_frame_rate_label(frame_rate_label(report)),
        is_bitrate_label(bitrate_label(report)),
{
    lemma_first_resolution_is_label(lines_of(report));
}

/// `Path::file_stem` of std, for a path given as text. That function reads
/// the path by the rules of the platform, so nothing is claimed of the
/// result.
#[verifier::external_body]
fn file_stem_of(path: &str) -> (stem: Option<String>) {
    match std::path::Path::new(path).file_stem() {
        Some(stem) => Some(stem.to_string_lossy().into_owned()),
        None => None,
    }
}

/// `Path::extension` of std, for a path given as text. That function reads
/// the path by the rules of the platform, so nothing is claimed of the
/// result.
#[verifier::external_body]
fn extension_of(path: &str) -> (extension: Option<String>) {
    match std::path::Path::new(path).extension() {
        Some(extension) => Some(extension.to_string_lossy().into_owned()),
        None => None,
    }
}

/// `text`, or the empty string where there is none.
fn text_or_empty(text: Option<String>) -> (out: String)
    ensures
        out@ == match text {
            Some(t) => t@,
            None => Seq::<char>::empty(),
        },
{
    match text {
        Some(t) => t,
        None => String::new(),
    }
}

impl MediaRecord {
    /// The record of the file at `path` whose name has the stem `stem` and
    /// the extension `extension`, and of which the probing tool reported
    /// `report`. A missing stem or extension gives an empty name or
    /// container.
    pub fn from_parts(
        path: &str,
        stem: Option<String>,
        extension: Option<String>,
        report: &str,
    ) -> (record: MediaRecord)
        ensures
            extracted_from(record@, path@, report@),
            record@.name == match stem {
                Some(s) => s@,
                None => Seq::<char>::empty(),
            },
            record@.container == match extension {
                Some(e) => e@,
                None => Seq::<char>::empty(),
            },
            well_formed(record@),
    {
        proof {
            lemma_labels_are_closed(report@);
        }
        MediaRecord {
            name: text_or_empty(stem),
            container: text_or_empty(extension),
            codec: extract_codec(report),
            resolution: extract_resolution(report),
            frame_rate: extract_frame_rate(report),
            bitrate: extract_bitrate(report),
            path: String::from_str(path),
            raw_report: String::from_str(report),
        }
    }
}

/// The record of the file at `path`, of which the probing tool reported
/// `report`. Name and container are the stem and the extension that the
/// platform reads from `path`; the report decides the other fields.
pub fn analyze_report(path: &str, report: &str) -> (record: MediaRecord)
    ensures
        extracted_from(record@, path@, report@),
        well_formed(record@),
{
    let stem = file_stem_of(path);
    let extension = extension_of(path);
    MediaRecord::from_parts(path, stem, extension, report)
}

/// What came of the attempt to probe a file.
#[derive(Debug)]
pub enum Probe {
    /// The path names nothing that exists; the tool was not run.
    Missing,
    /// The tool could not be started; the text says why.
    NotStarted(String),
    /// The tool ran; this is all that it wrote to its standard output,
    /// whatever its exit status.
    Report(String),
}

/// The analysis of the file at `path`, given what came of probing it. A
/// report, even an empty one, gives a record; a missing file gives
/// `PathNotFound` and a tool that did not start `ProbeInvocationFailure`
/// with the reason. Nothing else fails.
pub fn analyze(path: &str, probe: Probe) -> (outcome: Result<MediaRecord, ExtractionError>)
    ensures
        match probe {
            Probe::Missing => outcome matches Err(ExtractionError::PathNotFound),
            Probe::NotStarted(reason) => outcome matches Err(
                ExtractionError::ProbeInvocationFailure(text),
            ) && text@ == reason@,
            Probe::Report(report) => outcome matches Ok(record) && extracted_from(
                record@,
                path@,
                report@,
            ) && well_formed(record@),
        },
{
    match probe {
        Probe::Missing => Err(ExtractionError::PathNotFound),
        Probe::NotStarted(reason) => Err(ExtractionError::ProbeInvocationFailure(reason)),
        Probe::Report(report) => Ok(analyze_report(path, report.as_str())),
    }
}

} // verus!
