use orbital_report::analyze::analyze_world;
use orbital_report::render::{
    classification_label, left_aligned, render_line, render_report, report_header, right_aligned,
    score_string, u64_string,
};
use orbital_report::scan::{scan_system, RootEntry, WorldStatus};
use orbital_report::stability::{Classification, Stability, DECAY_PERIOD_SECS};

const NOW: u64 = 1_700_000_000;

fn dir(name: &str, entries: Vec<Option<u64>>) -> RootEntry {
    RootEntry { name: String::from(name), is_dir: true, entries }
}

fn file(name: &str) -> RootEntry {
    RootEntry { name: String::from(name), is_dir: false, entries: Vec::new() }
}

#[test]
fn empty_root_gives_empty_report() {
    let worlds = scan_system(NOW, &Vec::new());
    assert_eq!(worlds.len(), 0);
}

#[test]
fn files_only_root_gives_empty_report() {
    let root = vec![file("notes.txt"), file("main.rs")];
    let worlds = scan_system(NOW, &root);
    assert_eq!(worlds.len(), 0);
}

#[test]
fn files_among_directories_are_excluded() {
    let root = vec![file("a.txt"), dir("a", vec![]), file("b.txt"), dir("b", vec![])];
    let worlds = scan_system(NOW, &root);
    assert_eq!(worlds.len(), 2);
    assert_eq!(worlds[0].name, "a");
    assert_eq!(worlds[1].name, "b");
}

#[test]
fn mass_counts_entries_of_every_kind() {
    let (mass, latest) = analyze_world(&vec![Some(10), None, Some(5), None]);
    assert_eq!(mass, 4);
    assert_eq!(latest, 10);
}

#[test]
fn latest_is_epoch_without_readable_times() {
    let (mass, latest) = analyze_world(&vec![None, None]);
    assert_eq!(mass, 2);
    assert_eq!(latest, 0);

    let (mass, latest) = analyze_world(&Vec::new());
    assert_eq!(mass, 0);
    assert_eq!(latest, 0);
}

#[test]
fn fresh_directory_is_fully_stable() {
    let s = Stability::from_times(NOW, NOW);
    assert_eq!(s.remaining(), DECAY_PERIOD_SECS);
    assert_eq!(s.hundredths(), 100);
    assert_eq!(s.classification(), Classification::Stable);
    assert_eq!(score_string(&s), "1.00");
}

#[test]
fn decay_period_old_directory_scores_zero() {
    let s = Stability::from_times(NOW, NOW - DECAY_PERIOD_SECS);
    assert_eq!(s.remaining(), 0);
    assert_eq!(s.hundredths(), 0);
    assert_eq!(s.classification(), Classification::CollisionWarning);
    assert_eq!(score_string(&s), "0.00");
}

#[test]
fn older_than_decay_period_is_clamped_to_zero() {
    let s = Stability::from_times(NOW, NOW - 2 * DECAY_PERIOD_SECS);
    assert_eq!(s.remaining(), 0);
    assert_eq!(s.hundredths(), 0);
    assert_eq!(score_string(&s), "0.00");
}

#[test]
fn future_modification_is_clamped_to_full_stability() {
    let s = Stability::from_times(NOW, NOW + 12345);
    assert_eq!(s.remaining(), DECAY_PERIOD_SECS);
    assert_eq!(s.hundredths(), 100);
}

#[test]
fn classification_boundaries_are_strict() {
    // Exactly 0.70 remaining (423360 of 604800 seconds): falling, not stable.
    let s = Stability::from_times(NOW, NOW - 181440);
    assert_eq!(s.remaining(), 423360);
    assert_eq!(s.hundredths(), 70);
    assert_eq!(s.classification(), Classification::Falling);
    assert_eq!(classification_label(s.classification()), "FALLING");

    // One second above the boundary: stable.
    let s = Stability::from_times(NOW, NOW - 181439);
    assert_eq!(s.remaining(), 423361);
    assert_eq!(s.classification(), Classification::Stable);
    assert_eq!(classification_label(s.classification()), "STABLE");

    // Exactly 0.30 remaining (181440 seconds): collision warning, not falling.
    let s = Stability::from_times(NOW, NOW - 423360);
    assert_eq!(s.remaining(), 181440);
    assert_eq!(s.hundredths(), 30);
    assert_eq!(s.classification(), Classification::CollisionWarning);
    assert_eq!(classification_label(s.classification()), "COLLISION WARNING");

    // One second above that boundary: falling.
    let s = Stability::from_times(NOW, NOW - 423359);
    assert_eq!(s.remaining(), 181441);
    assert_eq!(s.classification(), Classification::Falling);
}

#[test]
fn score_rounds_to_nearest_hundredth() {
    // Half the decay period remaining is a score of exactly 0.50.
    let s = Stability::from_times(NOW, NOW - 302400);
    assert_eq!(s.hundredths(), 50);
    assert_eq!(score_string(&s), "0.50");

    // 601776 seconds remaining is a score of 0.99500: it rounds up to 1.00.
    let s = Stability::from_times(NOW, NOW - (DECAY_PERIOD_SECS - 601776));
    assert_eq!(s.hundredths(), 100);
    assert_eq!(score_string(&s), "1.00");

    // One second less rounds down to 0.99.
    let s = Stability::from_times(NOW, NOW - (DECAY_PERIOD_SECS - 601775));
    assert_eq!(s.hundredths(), 99);
    assert_eq!(score_string(&s), "0.99");
}

#[test]
fn u64_rendering_is_plain_decimal() {
    assert_eq!(u64_string(0), "0");
    assert_eq!(u64_string(7), "7");
    assert_eq!(u64_string(10), "10");
    assert_eq!(u64_string(120), "120");
    assert_eq!(u64_string(604800), "604800");
    assert_eq!(u64_string(u64::MAX), "18446744073709551615");
}

#[test]
fn padding_pads_and_never_truncates() {
    assert_eq!(left_aligned(String::from("abc"), 5), "abc  ");
    assert_eq!(left_aligned(String::from("abcdef"), 5), "abcdef");
    assert_eq!(left_aligned(String::from(""), 3), "   ");
    assert_eq!(right_aligned(String::from("42"), 3), " 42");
    assert_eq!(right_aligned(String::from("4233"), 3), "4233");
}

#[test]
fn header_line_is_fixed() {
    assert_eq!(report_header(), "--- ORBITAL STABILITY REPORT ---");
}

#[test]
fn report_lines_have_fixed_layout() {
    let worlds = scan_system(NOW, &vec![dir("luna", vec![Some(NOW), Some(NOW - 10)])]);
    assert_eq!(worlds.len(), 1);
    let line = render_line(&worlds[0]);
    assert_eq!(line, "luna                      | Mass:   2 | Health: 1.00 [STABLE]");
}

#[test]
fn scenario_alpha_and_beta() {
    // `alpha` holds three files modified just now; `beta` is empty, so its
    // latest modification is the epoch, far more than eight days ago.
    let root = vec![
        dir("alpha", vec![Some(NOW), Some(NOW), Some(NOW)]),
        dir("beta", vec![]),
    ];
    let worlds = scan_system(NOW, &root);
    assert_eq!(worlds.len(), 2);

    assert_eq!(worlds[0].name, "alpha");
    assert_eq!(worlds[0].mass, 3);
    assert_eq!(worlds[0].stability.hundredths(), 100);
    assert_eq!(worlds[0].stability.classification(), Classification::Stable);

    assert_eq!(worlds[1].name, "beta");
    assert_eq!(worlds[1].mass, 0);
    assert_eq!(worlds[1].stability.hundredths(), 0);
    assert_eq!(worlds[1].stability.classification(), Classification::CollisionWarning);

    let lines = render_report(&worlds);
    assert_eq!(lines.len(), 3);
    assert_eq!(lines[0], "--- ORBITAL STABILITY REPORT ---");
    assert_eq!(lines[1], "alpha                     | Mass:   3 | Health: 1.00 [STABLE]");
    assert_eq!(lines[2], "beta                      | Mass:   0 | Health: 0.00 [COLLISION WARNING]");
}

#[test]
fn report_preserves_enumeration_order() {
    let root = vec![dir("c", vec![]), dir("a", vec![]), dir("b", vec![])];
    let worlds: Vec<WorldStatus> = scan_system(NOW, &root);
    let names: Vec<&str> = worlds.iter().map(|w| w.name.as_str()).collect();
    assert_eq!(names, vec!["c", "a", "b"]);
}
