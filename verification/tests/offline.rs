use skylode_tui::config::NumberFormat;
use skylode_tui::overlay::offline::{away, gain, rate, summary, OfflineReport};

fn a_report() -> OfflineReport {
    OfflineReport {
        elapsed: 6 * 3_600 + 12 * 60,
        counted: 6 * 3_600 + 12 * 60,
        capped: false,
        blocks: 4_910,
        gained: vec![
            ("Iron".to_owned(), 12_480),
            ("Coal".to_owned(), 372),
            ("Gold".to_owned(), 31),
        ],
    }
}

fn drawn(report: &OfflineReport) -> String {
    summary(report, NumberFormat::default()).join("\n")
}

#[test]
fn it_shows_the_span_the_gains_and_the_multiplication() {
    let frame = drawn(&a_report());
    assert!(frame.contains("You were away for  6h 12m"), "{frame}");
    assert!(frame.contains("+12 480  Iron"), "{frame}");
    assert!(frame.contains("+   372  Coal"), "{frame}");
    assert!(frame.contains("+    31  Gold"), "{frame}");
    assert!(frame.contains("Rate  0.22 blocks/s  ×  6h 12m  =  4 910 blocks"), "{frame}");
}

#[test]
fn a_total_worth_compressing_is_shown_both_ways() {
    let frame = drawn(&a_report());
    assert!(frame.contains("(124 Compressed + 80)"), "{frame}");
    assert!(!frame.contains("(31)"), "{frame}");
}

#[test]
fn a_capped_absence_says_how_much_of_it_was_paid_for() {
    let mut report = a_report();
    report.elapsed = 9 * 86_400 + 4 * 3_600;
    report.counted = 7 * 86_400;
    report.capped = true;
    let frame = drawn(&report);
    assert!(frame.contains("away for  9d 4h  —  counted 7d"), "the cap was applied in silence: {frame}");
    assert!(frame.contains("×  7d "), "{frame}");
}

#[test]
fn a_gain_pads_its_name_before_the_split() {
    assert_eq!(gain("Iron", 12_480, 6, NumberFormat::default()), " +12 480  Iron            (124 Compressed + 80)");
    assert_eq!(gain("Coal", 80, 6, NumberFormat::default()), " +    80  Coal");
    assert_eq!(away(60, 60, false), " You were away for  1m");
    assert_eq!(rate(), "0.22");
}

#[test]
fn a_comma_player_reads_commas_in_the_summary() {
    let frame = summary(&a_report(), NumberFormat::Comma).join("\n");
    assert!(frame.contains("+12,480  Iron"), "{frame}");
    assert!(frame.contains("(124 Compressed + 80)"), "{frame}");
    assert!(frame.contains("=  4,910 blocks"), "{frame}");
    let plain = summary(&a_report(), NumberFormat::Plain).join("\n");
    assert!(plain.contains("+12480  Iron"), "{plain}");
}
