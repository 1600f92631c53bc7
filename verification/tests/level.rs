use spdlog_telegram::{Level, LevelFilter};

#[test]
fn more_verbose_equal_matches_the_verbose_side() {
    let f = LevelFilter::MoreVerboseEqual(Level::Warn);
    assert!(f.test(Level::Warn));
    assert!(f.test(Level::Info));
    assert!(f.test(Level::Debug));
    assert!(f.test(Level::Trace));
    assert!(!f.test(Level::Error));
    assert!(!f.test(Level::Critical));
}

#[test]
fn filter_variants_follow_severity_order() {
    assert!(!LevelFilter::Off.test(Level::Critical));
    assert!(LevelFilter::All.test(Level::Trace));
    assert!(LevelFilter::Equal(Level::Info).test(Level::Info));
    assert!(!LevelFilter::Equal(Level::Info).test(Level::Warn));
    assert!(LevelFilter::NotEqual(Level::Info).test(Level::Warn));
    assert!(LevelFilter::MoreSevere(Level::Info).test(Level::Warn));
    assert!(!LevelFilter::MoreSevere(Level::Info).test(Level::Info));
    assert!(LevelFilter::MoreSevereEqual(Level::Info).test(Level::Info));
    assert!(!LevelFilter::MoreSevereEqual(Level::Info).test(Level::Debug));
    assert!(LevelFilter::MoreVerbose(Level::Info).test(Level::Debug));
    assert!(!LevelFilter::MoreVerbose(Level::Info).test(Level::Info));
}

#[test]
fn filter_codes_round_trip() {
    let filters = vec![
        LevelFilter::Off,
        LevelFilter::All,
        LevelFilter::Equal(Level::Critical),
        LevelFilter::NotEqual(Level::Error),
        LevelFilter::MoreSevere(Level::Warn),
        LevelFilter::MoreSevereEqual(Level::Info),
        LevelFilter::MoreVerbose(Level::Debug),
        LevelFilter::MoreVerboseEqual(Level::Trace),
    ];
    for f in filters {
        assert_eq!(LevelFilter::from_code(f.to_code()), f);
    }
}
