use skylode_tui::format::denominations;
use skylode_tui::overlay::prestige::{
    closing_lines, confirm, confirm_title, preview, PrestigeLock, PrestigeView, Verdict, CONFIRM_WORD,
};

/// The fixture the frame was drawn from: rank II, mid-climb, holding nothing.
fn locked() -> PrestigeView {
    PrestigeView {
        material: "Amethyst".to_owned(),
        rank: 2,
        multiplier_permille: 1_200,
        next_multiplier_permille: 1_300,
        cost: 6_540,
        held: 0,
        held_compressed: 0,
        held_raw: 0,
        tier: "Diamond".to_owned(),
        efficiency: 5,
        fortune: 3,
        other_enchants: 4,
        level: 23,
        lock: PrestigeLock {
            missing_level: Some(50),
            missing_tier: Some("Netherite".to_owned()),
        },
        verdict: Verdict::Insufficient,
    }
}

/// The same trade with both gates open and the price met.
fn ready() -> PrestigeView {
    PrestigeView {
        lock: PrestigeLock {
            missing_level: None,
            missing_tier: None,
        },
        tier: "Netherite".to_owned(),
        level: 50,
        held: 6_540,
        held_compressed: 65,
        held_raw: 40,
        verdict: Verdict::Affordable,
        ..locked()
    }
}

fn drawn(view: &PrestigeView) -> String {
    preview(view).join("\n")
}

fn confirmed(view: &PrestigeView, typed: &str) -> String {
    let mut lines = vec![confirm_title(view)];
    lines.extend(confirm(view, typed));
    lines.join("\n")
}

#[test]
fn the_preview_is_a_two_column_trade_drawn_unaffordable() {
    let frame = drawn(&locked());
    assert!(frame.contains("You lose") && frame.contains("You keep"), "{frame}");
    assert!(frame.contains("Diamond Pickaxe → Wooden"), "{frame}");
    assert!(frame.contains("The global multiplier"), "{frame}");
    assert!(frame.contains("Mining level 23 → 1"), "{frame}");
    assert!(frame.contains("short of Netherite"), "{frame}");
    assert!(frame.contains("Lv 23 of 50"), "{frame}");
}

#[test]
fn a_purse_of_raw_ore_is_not_reported_as_compressed_units() {
    let view = PrestigeView {
        held: 20_000,
        held_compressed: 0,
        held_raw: 20_000,
        verdict: Verdict::CompressFirst,
        ..ready()
    };
    let frame = drawn(&view);
    assert!(frame.contains("Held  0 Compressed + 20 000"), "{frame}");
    assert!(!frame.contains("200 Compressed"), "{frame}");
    assert!(frame.contains("wrong denomination"), "{frame}");
}

#[test]
fn the_price_is_quoted_in_both_denominations() {
    let frame = drawn(&locked());
    assert!(frame.contains("65 Compressed + 40 Amethyst"), "{frame}");
    assert!(!frame.contains("6 540 Amethyst"), "{frame}");
}

#[test]
fn a_run_that_has_never_prestiged_reads_rank_zero() {
    let view = PrestigeView {
        rank: 0,
        multiplier_permille: 1_000,
        next_multiplier_permille: 1_100,
        efficiency: 0,
        fortune: 0,
        other_enchants: 0,
        tier: "Wooden".to_owned(),
        level: 1,
        ..locked()
    };
    let frame = drawn(&view);
    assert!(frame.contains("Rank  0  →  I"), "{frame}");
    assert!(frame.contains("×1.00  →  ×1.10"), "{frame}");
    assert!(!frame.contains("Efficiency"), "{frame}");
    assert!(!frame.contains("enchants → 0"), "{frame}");
}

#[test]
fn an_open_lock_hands_the_closing_line_to_the_price() {
    let short = PrestigeView {
        held: 0,
        verdict: Verdict::Insufficient,
        ..ready()
    };
    let frame = drawn(&short);
    assert!(frame.contains("65 Compressed + 40 Amethyst short"), "{frame}");
    assert!(!frame.contains("short of Netherite"), "{frame}");
    let misshaped = PrestigeView {
        verdict: Verdict::CompressFirst,
        ..ready()
    };
    assert!(drawn(&misshaped).contains("wrong denomination"));
}

#[test]
fn an_affordable_preview_is_marked_and_says_so() {
    let frame = drawn(&ready());
    assert!(frame.contains("✓"), "{frame}");
    assert!(frame.contains("This cannot be undone."), "{frame}");
}

#[test]
fn the_confirm_asks_for_the_typed_word() {
    let frame = confirmed(&ready(), "");
    assert!(frame.contains("This cannot be undone."), "{frame}");
    assert!(frame.contains("Type  PRESTIGE  to confirm:"), "{frame}");
    assert!(frame.contains("> ____________"), "{frame}");
    assert!(frame.contains("Prestige III"), "{frame}");
}

#[test]
fn the_field_shows_the_letters_as_they_are_typed() {
    let view = ready();
    assert!(confirmed(&view, "PREZ").contains("> PREZ________"));
    assert!(confirmed(&view, CONFIRM_WORD).contains("> PRESTIGE____"));
}

#[test]
fn the_confirm_quotes_the_same_price_as_the_preview() {
    let view = ready();
    let price = format!("{} {}", denominations(view.cost), "Amethyst");
    assert!(drawn(&view).contains(&price) && confirmed(&view, "").contains(&price));
}

#[test]
fn one_gate_shut_names_only_that_gate() {
    let view = PrestigeView {
        lock: PrestigeLock {
            missing_level: Some(50),
            missing_tier: None,
        },
        ..locked()
    };
    let lines = closing_lines(&view);
    assert_eq!(lines[0], " You are Lv 23 of 50 —");
    assert_eq!(lines[1], " and Amethyst only drops past the level.");
}

#[test]
fn the_mark_sits_flush_against_the_body_width() {
    let lines = preview(&ready());
    assert_eq!(lines[2].chars().count(), 64, "{:?}", lines[2]);
    assert!(lines[2].ends_with('✓'));
    assert_eq!(lines.len(), 16);
}
