//! The filter engine: predicates on the fields of a record, and the view
//! that a set of predicates leaves of a catalogue.

use crate::record::{models_of, models_of_refs, MediaRecord, RecordModel};
use crate::text::{contains, lemma_contains_part, str_contains, texts_of};
use vstd::prelude::*;
use vstd::string::StringExecFns;

verus! {

/// The field of a record that a predicate looks at.
#[derive(Clone, Copy, Debug, PartialEq, Eq)]
pub enum FilterField {
    Container,
    Codec,
    Resolution,
    FrameRate,
    Bitrate,
}

/// What a `FilterPredicate` holds, its value as a sequence of characters.
pub ghost struct PredicateModel {
    pub field: FilterField,
    pub value: Seq<char>,
}

/// One active constraint: the field `field` of a record must contain
/// `value`.
#[derive(Debug)]
pub struct FilterPredicate {
    pub field: FilterField,
    pub value: String,
}

impl View for FilterPredicate {
    type V = PredicateModel;

    open spec fn view(&self) -> PredicateModel {
        PredicateModel { field: self.field, value: self.value@ }
    }
}

impl Clone for FilterPredicate {
    fn clone(&self) -> (copy: Self)
        ensures
            copy@ == self@,
    {
        FilterPredicate { field: self.field, value: self.value.clone() }
    }
}

/// The models of the predicates of `predicates`, in order.
pub open spec fn predicate_models(predicates: Seq<FilterPredicate>) -> Seq<PredicateModel> {
    Seq::new(predicates.len(), |i: int| predicates[i]@)
}

/// The field of `record` that `field` names.
pub open spec fn field_of(record: RecordModel, field: FilterField) -> Seq<char> {
    match field {
        FilterField::Container => record.container,
        FilterField::Codec => record.codec,
        FilterField::Resolution => record.resolution,
        FilterField::FrameRate => record.frame_rate,
        FilterField::Bitrate => record.bitrate,
    }
}

/// `record` satisfies `predicate`: the field contains the value as a
/// contiguous part. The two need not be equal.
pub open spec fn satisfies(record: RecordModel, predicate: PredicateModel) -> bool {
    contains(field_of(record, predicate.field), predicate.value)
}

/// `record` satisfies every predicate of `predicates`.
pub open spec fn satisfies_all(record: RecordModel, predicates: Seq<PredicateModel>) -> bool {
    forall|i: int| 0 <= i < predicates.len() ==> satisfies(record, #[trigger] predicates[i])
}

/// The view that `predicates` leave of `records`: the records that satisfy
/// every predicate, in the order of `records`.
pub open spec fn visible(records: Seq<RecordModel>, predicates: Seq<PredicateModel>) -> Seq<
    RecordModel,
>
    decreases records.len(),
{
    if records.len() == 0 {
        Seq::empty()
    } else {
        let before = visible(records.drop_last(), predicates);
        if satisfies_all(records.last(), predicates) {
            before.push(records.last())
        } else {
            before
        }
    }
}

/// A predicate is satisfied by a record whose field holds the value
/// anywhere: at its start, at its end or in between.
pub proof fn lemma_satisfied_by_part(
    record: RecordModel,
    predicate: PredicateModel,
    before: Seq<char>,
    after: Seq<char>,
)
    requires
        field_of(record, predicate.field) == before + predicate.value + after,
    ensures
        satisfies(record, predicate),
{
    lemma_contains_part(before, predicate.value, after);
}

/// `places` picks `part` out of `whole`: it gives, for each item of `part`,
/// an index of `whole` that holds the item, and the indices rise.
pub open spec fn picks(places: Seq<int>, part: Seq<RecordModel>, whole: Seq<RecordModel>) -> bool {
    &&& places.len() == part.len()
    &&& forall|k: int| 0 <= k < places.len() ==> 0 <= #[trigger] places[k] < whole.len()
    &&& forall|k: int| 0 <= k < places.len() ==> whole[#[trigger] places[k]] == part[k]
    &&& forall|j: int, k: int| 0 <= j < k < places.len() ==> places[j] < places[k]
}

/// `part` is a subsequence of `whole`: its items stand in `whole`, in the
/// same order.
pub open spec fn is_subsequence(part: Seq<RecordModel>, whole: Seq<RecordModel>) -> bool {
    exists|places: Seq<int>| picks(places, part, whole)
}

/// The indices of the records of `records` that satisfy every predicate of
/// `predicates`, rising.
pub open spec fn visible_places(records: Seq<RecordModel>, predicates: Seq<PredicateModel>) -> Seq<
    int,
>
    decreases records.len(),
{
    if records.len() == 0 {
        Seq::empty()
    } else {
        let before = visible_places(records.drop_last(), predicates);
        if satisfies_all(records.last(), predicates) {
            before.push(records.len() - 1)
        } else {
            before
        }
    }
}

/// The indices of the visible records pick the view out of the records.
pub proof fn lemma_visible_places(records: Seq<RecordModel>, predicates: Seq<PredicateModel>)
    ensures
        picks(visible_places(records, predicates), visible(records, predicates), records),
    decreases records.len(),
{
    if records.len() > 0 {
        let shorter = records.drop_last();
        lemma_visible_places(shorter, predicates);
    }
}

/// With no predicate, the view is the whole of the records.
pub proof fn lemma_visible_without_predicates(records: Seq<RecordModel>)
    ensures
        visible(records, Seq::empty()) == records,
    decreases records.len(),
{
    if records.len() > 0 {
        lemma_visible_without_predicates(records.drop_last());
    }
}

/// Whatever the predicates, the view is a subsequence of the view without
/// predicates, which is the catalogue itself: filtering drops records and
/// never reorders them.
pub proof fn lemma_view_is_subsequence(records: Seq<RecordModel>, predicates: Seq<PredicateModel>)
    ensures
        is_subsequence(visible(records, predicates), visible(records, Seq::empty())),
        is_subsequence(visible(records, predicates), records),
        visible(records, predicates).len() <= records.len(),
{
    lemma_visible_places(records, predicates);
    lemma_visible_without_predicates(records);
    lemma_visible_len(records, predicates);
}

/// The view is no longer than the records.
pub proof fn lemma_visible_len(records: Seq<RecordModel>, predicates: Seq<PredicateModel>)
    ensures
        visible(records, predicates).len() <= records.len(),
    decreases records.len(),
{
    if records.len() > 0 {
        lemma_visible_len(records.drop_last(), predicates);
    }
}

/// The view holds the records that satisfy every predicate, and no others.
pub proof fn lemma_visible_members(
    records: Seq<RecordModel>,
    predicates: Seq<PredicateModel>,
    record: RecordModel,
)
    ensures
        visible(records, predicates).contains(record) <==> records.contains(record)
            && satisfies_all(record, predicates),
    decreases records.len(),
{
    let view = visible(records, predicates);
    if records.len() > 0 {
        let shorter = records.drop_last();
        let before = visible(shorter, predicates);
        lemma_visible_members(shorter, predicates, record);
        if view.contains(record) {
            let k = choose|k: int| 0 <= k < view.len() && view[k] == record;
            if k < before.len() {
                let j = choose|j: int| 0 <= j < shorter.len() && shorter[j] == record;
            }
        }
        if records.contains(record) && satisfies_all(record, predicates) {
            let j = choose|j: int| 0 <= j < records.len() && records[j] == record;
            if j < shorter.len() {
                assert(shorter[j] == record);
                let k = choose|k: int| 0 <= k < before.len() && before[k] == record;
                assert(view[k] == record);
            } else {
                assert(view[view.len() - 1] == record);
            }
        }
    }
}

impl FilterPredicate {
    /// Whether `record` satisfies this predicate.
    pub fn matches(&self, record: &MediaRecord) -> (r: bool)
        ensures
            r == satisfies(record@, self@),
    {
        match self.field {
            FilterField::Container => str_contains(record.container.as_str(), self.value.as_str()),
            FilterField::Codec => str_contains(record.codec.as_str(), self.value.as_str()),
            FilterField::Resolution => str_contains(
                record.resolution.as_str(),
                self.value.as_str(),
            ),
            FilterField::FrameRate => str_contains(
                record.frame_rate.as_str(),
                self.value.as_str(),
            ),
            FilterField::Bitrate => str_contains(record.bitrate.as_str(), self.value.as_str()),
        }
    }
}

/// Whether `record` satisfies every predicate of `predicates`.
pub fn matches_all(record: &MediaRecord, predicates: &Vec<FilterPredicate>) -> (r: bool)
    ensures
        r == satisfies_all(record@, predicate_models(predicates@)),
{
    let mut i: usize = 0;
    while i < predicates.len()
        invariant
            i <= predicates.len(),
            forall|j: int|
                0 <= j < i ==> satisfies(record@, #[trigger] predicate_models(predicates@)[j]),
        decreases predicates.len() - i,
    {
        if !predicates[i].matches(record) {
            assert(predicate_models(predicates@)[i as int] == predicates@[i as int]@);
            return false;
        }
        i += 1;
    }
    true
}

/// The view that `predicates` leave of `catalogue`: every record where there
/// is no predicate, else the records that satisfy each of them, in the
/// catalogue's order. The catalogue is not changed.
pub fn filtered_view<'a>(catalogue: &'a Vec<MediaRecord>, predicates: &Vec<FilterPredicate>) -> (out:
    Vec<&'a MediaRecord>)
    ensures
        models_of_refs(out@) == visible(models_of(catalogue@), predicate_models(predicates@)),
{
    let mut out: Vec<&'a MediaRecord> = Vec::new();
    let ghost all = models_of(catalogue@);
    let ghost preds = predicate_models(predicates@);
    let mut i: usize = 0;
    while i < catalogue.len()
        invariant
            i <= catalogue.len(),
            all == models_of(catalogue@),
            preds == predicate_models(predicates@),
            models_of_refs(out@) == visible(all.take(i as int), preds),
        decreases catalogue.len() - i,
    {
        assert(all.take(i + 1).drop_last() =~= all.take(i as int));
        if matches_all(&catalogue[i], predicates) {
            out.push(&catalogue[i]);
        }
        i += 1;
    }
    assert(all.take(catalogue.len() as int) =~= all);
    out
}

/// The values that are offered for each field when a filter is chosen.
#[derive(Debug)]
pub struct FilterOptions {
    pub containers: Vec<String>,
    pub codecs: Vec<String>,
    pub resolutions: Vec<String>,
    pub frame_rates: Vec<String>,
    pub bitrates: Vec<String>,
}

/// The containers that are offered.
pub open spec fn offered_containers() -> Seq<Seq<char>> {
    seq!["mp4"@, "mov"@, "avi"@, "mkv"@, "jpg"@, "png"@]
}

/// The codecs that are offered.
pub open spec fn offered_codecs() -> Seq<Seq<char>> {
    seq!["H.264"@, "H.265"@, "VP9"@, "AV1"@, "Hap"@, "DXV3"@]
}

/// The resolutions that are offered.
pub open spec fn offered_resolutions() -> Seq<Seq<char>> {
    seq!["1920x1080"@, "1280x720"@, "3840x2160"@, "2560x1440"@]
}

/// The frame rates that are offered.
pub open spec fn offered_frame_rates() -> Seq<Seq<char>> {
    seq!["24"@, "25"@, "30"@, "50"@, "60"@]
}

/// The bit rates that are offered.
pub open spec fn offered_bitrates() -> Seq<Seq<char>> {
    seq!["1"@, "5"@, "10"@, "15"@, "20"@]
}

impl Default for FilterOptions {
    fn default() -> (options: Self)
        ensures
            texts_of(options.containers@) == offered_containers(),
            texts_of(options.codecs@) == offered_codecs(),
            texts_of(options.resolutions@) == offered_resolutions(),
            texts_of(options.frame_rates@) == offered_frame_rates(),
            texts_of(options.bitrates@) == offered_bitrates(),
    {
        let containers = vec![
            String::from_str("mp4"),
            String::from_str("mov"),
            String::from_str("avi"),
            String::from_str("mkv"),
            String::from_str("jpg"),
            String::from_str("png"),
        ];
        let codecs = vec![
            String::from_str("H.264"),
            String::from_str("H.265"),
            String::from_str("VP9"),
            String::from_str("AV1"),
            String::from_str("Hap"),
            String::from_str("DXV3"),
        ];
        let resolutions = vec![
            String::from_str("1920x1080"),
            String::from_str("1280x720"),
            String::from_str("3840x2160"),
            String::from_str("2560x1440"),
        ];
        let frame_rates = vec![
            String::from_str("24"),
            String::from_str("25"),
            String::from_str("30"),
            String::from_str("50"),
            String::from_str("60"),
        ];
        let bitrates = vec![
            String::from_str("1"),
            String::from_str("5"),
            String::from_str("10"),
            String::from_str("15"),
            String::from_str("20"),
        ];
        FilterOptions { containers, codecs, resolutions, frame_rates, bitrates }
    }
}

} // verus!
