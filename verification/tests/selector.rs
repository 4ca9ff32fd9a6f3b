use omni_camera::format::{CamFormat, Encoding};
use omni_camera::selector::{
    candidates, greatest_rate, pick_format, prefer_format, select_format, ResolutionRates,
};

fn mode(width: u32, height: u32, frame_rate: u32) -> CamFormat {
    CamFormat::new(width, height, frame_rate, Encoding::Mjpeg)
}

fn fallback() -> CamFormat {
    CamFormat::new(320, 240, 15, Encoding::Yuyv)
}

#[test]
fn faster_mode_wins_when_one_misses_the_suggested_rate() {
    let found = vec![mode(640, 480, 30), mode(1280, 720, 10)];
    assert_eq!(pick_format(&found, 20, fallback()), mode(640, 480, 30));
}

#[test]
fn wider_mode_wins_when_both_reach_the_suggested_rate() {
    let found = vec![mode(640, 480, 30), mode(1280, 720, 30)];
    assert_eq!(pick_format(&found, 20, fallback()), mode(1280, 720, 30));
}

#[test]
fn no_candidate_gives_the_active_mode() {
    let found: Vec<CamFormat> = Vec::new();
    assert_eq!(pick_format(&found, 20, fallback()), fallback());
}

#[test]
fn single_candidate_is_picked_whatever_its_rate() {
    assert_eq!(pick_format(&vec![mode(640, 480, 5)], 60, fallback()), mode(640, 480, 5));
}

#[test]
fn equal_widths_keep_the_earlier_candidate() {
    let found = vec![mode(640, 480, 30), mode(640, 360, 60)];
    assert_eq!(pick_format(&found, 20, fallback()), mode(640, 480, 30));
}

#[test]
fn equal_rates_below_the_bar_keep_the_earlier_candidate() {
    let found = vec![mode(640, 480, 10), mode(1280, 720, 10)];
    assert_eq!(pick_format(&found, 20, fallback()), mode(640, 480, 10));
}

#[test]
fn rate_equal_to_the_suggestion_reaches_it() {
    let found = vec![mode(640, 480, 20), mode(1280, 720, 20)];
    assert_eq!(pick_format(&found, 20, fallback()), mode(1280, 720, 20));
}

#[test]
fn reduction_is_greedy_and_never_looks_back() {
    // 1280 wide loses to 640 on rate, then 1920 wide beats 640 on width.
    let found = vec![mode(640, 480, 30), mode(1280, 720, 10), mode(1920, 1080, 25)];
    assert_eq!(pick_format(&found, 20, fallback()), mode(1920, 1080, 25));
    // A candidate below the suggestion that comes last loses on rate.
    let found = vec![mode(640, 480, 30), mode(1920, 1080, 25), mode(1280, 720, 10)];
    assert_eq!(pick_format(&found, 20, fallback()), mode(1920, 1080, 25));
    // Below the suggestion only the rate counts, whatever the width.
    let found = vec![mode(1280, 720, 10), mode(640, 480, 12), mode(1920, 1080, 11)];
    assert_eq!(pick_format(&found, 20, fallback()), mode(640, 480, 12));
}

#[test]
fn all_fast_enough_picks_first_of_the_widest() {
    let found = vec![mode(640, 480, 30), mode(1920, 1080, 24), mode(1280, 720, 60), mode(1920, 1200, 30)];
    assert_eq!(pick_format(&found, 24, fallback()), mode(1920, 1080, 24));
}

#[test]
fn none_fast_enough_picks_first_of_the_fastest() {
    let found = vec![mode(640, 480, 10), mode(1920, 1080, 15), mode(1280, 720, 15)];
    assert_eq!(pick_format(&found, 30, fallback()), mode(1920, 1080, 15));
}

#[test]
fn prefer_compares_two_candidates() {
    assert_eq!(prefer_format(mode(640, 480, 30), mode(1280, 720, 10), 20), mode(640, 480, 30));
    assert_eq!(prefer_format(mode(1280, 720, 10), mode(640, 480, 30), 20), mode(640, 480, 30));
    assert_eq!(prefer_format(mode(640, 480, 30), mode(1280, 720, 30), 20), mode(1280, 720, 30));
    assert_eq!(prefer_format(mode(1280, 720, 30), mode(640, 480, 30), 20), mode(1280, 720, 30));
    assert_eq!(prefer_format(mode(640, 480, 30), mode(1280, 720, 30), 0), mode(1280, 720, 30));
}

#[test]
fn greatest_rate_of_a_resolution() {
    assert_eq!(greatest_rate(&vec![15, 60, 30]), 60);
    assert_eq!(greatest_rate(&vec![7]), 7);
    assert_eq!(greatest_rate(&vec![u32::MAX, 1]), u32::MAX);
    assert_eq!(greatest_rate(&Vec::new()), 0);
}

#[test]
fn one_candidate_per_resolution_at_its_greatest_rate() {
    let entries = vec![
        ResolutionRates { width: 640, height: 480, rates: vec![15, 30] },
        ResolutionRates { width: 800, height: 600, rates: vec![] },
        ResolutionRates { width: 1280, height: 720, rates: vec![10, 5] },
    ];
    assert_eq!(
        candidates(&entries, Encoding::Yuyv),
        vec![
            CamFormat::new(640, 480, 30, Encoding::Yuyv),
            CamFormat::new(1280, 720, 10, Encoding::Yuyv),
        ]
    );
    assert_eq!(candidates(&Vec::new(), Encoding::Yuyv), Vec::new());
}

#[test]
fn select_format_reduces_the_candidates_of_the_list() {
    let entries = vec![
        ResolutionRates { width: 640, height: 480, rates: vec![15, 30] },
        ResolutionRates { width: 1280, height: 720, rates: vec![10, 5] },
    ];
    assert_eq!(
        select_format(&entries, Encoding::Mjpeg, 20, fallback()),
        CamFormat::new(640, 480, 30, Encoding::Mjpeg)
    );
    assert_eq!(
        select_format(&entries, Encoding::Mjpeg, 10, fallback()),
        CamFormat::new(1280, 720, 10, Encoding::Mjpeg)
    );
}

#[test]
fn select_format_without_rates_falls_back() {
    let entries = vec![ResolutionRates { width: 640, height: 480, rates: vec![] }];
    assert_eq!(select_format(&entries, Encoding::Mjpeg, 20, fallback()), fallback());
    assert_eq!(select_format(&Vec::new(), Encoding::Mjpeg, 20, fallback()), fallback());
}
