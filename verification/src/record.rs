//! The record of one analysed file.

use vstd::prelude::*;

verus! {

/// What a `MediaRecord` holds, each field as the sequence of its characters.
pub ghost struct RecordModel {
    pub name: Seq<char>,
    pub container: Seq<char>,
    pub codec: Seq<char>,
    pub resolution: Seq<char>,
    pub frame_rate: Seq<char>,
    pub bitrate: Seq<char>,
    pub path: Seq<char>,
    pub raw_report: Seq<char>,
}

/// One analysed file: what its path and the probing tool's report say of it.
#[derive(Debug)]
pub struct MediaRecord {
    /// The stem of the file's name.
    pub name: String,
    /// The extension of the file's name.
    pub container: String,
    /// The video codec's label, or `Unknown`.
    pub codec: String,
    /// Width and height as `WxH`, or `Unknown`.
    pub resolution: String,
    /// Frames per second, or `Unknown`.
    pub frame_rate: String,
    /// Megabits per second with one fractional digit, or `Unknown`.
    pub bitrate: String,
    /// The path as the user gave it.
    pub path: String,
    /// The probing tool's report, unchanged.
    pub raw_report: String,
}

impl View for MediaRecord {
    type V = RecordModel;

    open spec fn view(&self) -> RecordModel {
        RecordModel {
            name: self.name@,
            container: self.container@,
            codec: self.codec@,
            resolution: self.resolution@,
            frame_rate: self.frame_rate@,
            bitrate: self.bitrate@,
            path: self.path@,
            raw_report: self.raw_report@,
        }
    }
}

impl Clone for MediaRecord {
    fn clone(&self) -> (copy: Self)
        ensures
            copy@ == self@,
    {
        MediaRecord {
            name: self.name.clone(),
            container: self.container.clone(),
            codec: self.codec.clone(),
            resolution: self.resolution.clone(),
            frame_rate: self.frame_rate.clone(),
            bitrate: self.bitrate.clone(),
            path: self.path.clone(),
            raw_report: self.raw_report.clone(),
        }
    }
}

/// The models of the records of `records`, in order.
pub open spec fn models_of(records: Seq<MediaRecord>) -> Seq<RecordModel> {
    Seq::new(records.len(), |i: int| records[i]@)
}

/// The models of the records that `records` refers to, in order.
pub open spec fn models_of_refs(records: Seq<&MediaRecord>) -> Seq<RecordModel> {
    Seq::new(records.len(), |i: int| records[i]@)
}

} // verus!
