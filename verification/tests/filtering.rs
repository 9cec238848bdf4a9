use media_inspector::filter::{
    filtered_view, matches_all, FilterField, FilterOptions, FilterPredicate,
};
use media_inspector::record::MediaRecord;

fn record(name: &str, container: &str, codec: &str, resolution: &str, fps: &str, bitrate: &str) -> MediaRecord {
    MediaRecord {
        name: name.to_string(),
        container: container.to_string(),
        codec: codec.to_string(),
        resolution: resolution.to_string(),
        frame_rate: fps.to_string(),
        bitrate: bitrate.to_string(),
        path: format!("/media/{}.{}", name, container),
        raw_report: String::new(),
    }
}

fn predicate(field: FilterField, value: &str) -> FilterPredicate {
    FilterPredicate { field, value: value.to_string() }
}

fn catalogue() -> Vec<MediaRecord> {
    vec![
        record("a", "mp4", "H.264", "1920x1080", "25", "10.0"),
        record("b", "mov", "H.265", "1280x720", "30", "1.5"),
        record("c", "mp4", "VP9", "3840x2160", "60", "25.3"),
        record("d", "mkv", "H.264", "1920x1080", "24", "8.0"),
        record("a", "mp4", "H.264", "1920x1080", "25", "10.0"),
    ]
}

fn names(view: &Vec<&MediaRecord>) -> Vec<String> {
    view.iter().map(|r| r.name.clone()).collect()
}

#[test]
fn no_predicate_shows_every_record_in_order() {
    let c = catalogue();
    let view = filtered_view(&c, &Vec::new());
    assert_eq!(names(&view), vec!["a", "b", "c", "d", "a"]);
}

#[test]
fn empty_catalogue_has_empty_view() {
    let c: Vec<MediaRecord> = Vec::new();
    assert!(filtered_view(&c, &Vec::new()).is_empty());
    assert!(filtered_view(&c, &vec![predicate(FilterField::Codec, "H")]).is_empty());
}

#[test]
fn bitrate_filter_matches_parts_of_the_field() {
    let ten = record("x", "mp4", "H.264", "Unknown", "25", "10.0");
    let one_and_a_half = record("y", "mp4", "H.264", "Unknown", "25", "1.5");
    let eight = record("z", "mp4", "H.264", "Unknown", "25", "8.0");
    let p = predicate(FilterField::Bitrate, "1");
    assert!(p.matches(&ten));
    assert!(p.matches(&one_and_a_half));
    assert!(!p.matches(&eight));
}

#[test]
fn resolution_filter_matches_a_prefix() {
    let c = catalogue();
    let view = filtered_view(&c, &vec![predicate(FilterField::Resolution, "192")]);
    assert_eq!(names(&view), vec!["a", "d", "a"]);
}

#[test]
fn each_field_is_looked_at_by_its_own_predicate() {
    let r = record("n", "mp4", "H.264", "1920x1080", "25", "10.0");
    assert!(predicate(FilterField::Container, "mp4").matches(&r));
    assert!(!predicate(FilterField::Container, "H.264").matches(&r));
    assert!(predicate(FilterField::Codec, "H.264").matches(&r));
    assert!(!predicate(FilterField::Codec, "mp4").matches(&r));
    assert!(predicate(FilterField::Resolution, "x1080").matches(&r));
    assert!(!predicate(FilterField::Resolution, "25").matches(&r));
    assert!(predicate(FilterField::FrameRate, "25").matches(&r));
    assert!(!predicate(FilterField::FrameRate, "10").matches(&r));
    assert!(predicate(FilterField::Bitrate, "10.0").matches(&r));
    assert!(!predicate(FilterField::Bitrate, "25").matches(&r));
}

#[test]
fn empty_value_matches_every_record() {
    let c = catalogue();
    let view = filtered_view(&c, &vec![predicate(FilterField::Codec, "")]);
    assert_eq!(view.len(), 5);
}

#[test]
fn predicates_are_combined_by_and() {
    let c = catalogue();
    let both = vec![predicate(FilterField::Container, "mp4"), predicate(FilterField::Codec, "H.264")];
    assert_eq!(names(&filtered_view(&c, &both)), vec!["a", "a"]);
    let none = vec![predicate(FilterField::Container, "mkv"), predicate(FilterField::Codec, "VP9")];
    assert!(filtered_view(&c, &none).is_empty());
    assert!(matches_all(&c[0], &both));
    assert!(!matches_all(&c[1], &both));
    assert!(!matches_all(&c[2], &both));
    assert!(matches_all(&c[2], &Vec::new()));
}

#[test]
fn filtered_view_is_a_subsequence_of_the_catalogue() {
    let c = catalogue();
    let sets = vec![
        vec![predicate(FilterField::Codec, "H.26")],
        vec![predicate(FilterField::Bitrate, "0")],
        vec![predicate(FilterField::FrameRate, "2"), predicate(FilterField::Container, "m")],
        vec![predicate(FilterField::Resolution, "nothing")],
    ];
    for set in &sets {
        let all = filtered_view(&c, &Vec::new());
        let view = filtered_view(&c, set);
        let mut from = 0;
        for shown in &view {
            let mut found = false;
            while from < all.len() {
                let same = std::ptr::eq(all[from], *shown);
                from += 1;
                if same {
                    found = true;
                    break;
                }
            }
            assert!(found);
        }
    }
}

#[test]
fn filtered_view_leaves_the_catalogue_unchanged() {
    let c = catalogue();
    let _ = filtered_view(&c, &vec![predicate(FilterField::Codec, "VP9")]);
    assert_eq!(c.len(), 5);
    assert_eq!(c[2].codec, "VP9");
}

#[test]
fn duplicates_are_both_shown() {
    let c = catalogue();
    let view = filtered_view(&c, &vec![predicate(FilterField::Bitrate, "10.0")]);
    assert_eq!(view.len(), 2);
    assert!(std::ptr::eq(view[0], &c[0]));
    assert!(std::ptr::eq(view[1], &c[4]));
}

#[test]
fn predicate_clone_keeps_field_and_value() {
    let p = predicate(FilterField::FrameRate, "30");
    let q = p.clone();
    assert_eq!(q.field, FilterField::FrameRate);
    assert_eq!(q.value, "30");
}

#[test]
fn offered_values() {
    let o = FilterOptions::default();
    assert_eq!(o.containers, vec!["mp4", "mov", "avi", "mkv", "jpg", "png"]);
    assert_eq!(o.codecs, vec!["H.264", "H.265", "VP9", "AV1", "Hap", "DXV3"]);
    assert_eq!(o.resolutions, vec!["1920x1080", "1280x720", "3840x2160", "2560x1440"]);
    assert_eq!(o.frame_rates, vec!["24", "25", "30", "50", "60"]);
    assert_eq!(o.bitrates, vec!["1", "5", "10", "15", "20"]);
}
