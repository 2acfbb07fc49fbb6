use skylode_tui::overlay::dip::{buying, choices, purchases, ticks, NOTHING};

#[test]
fn it_states_the_trade_in_ticks_and_offers_the_deal() {
    let chain = vec!["Diamond Efficiency V".to_owned(), "Netherite Pickaxe".to_owned()];
    assert_eq!(buying(&chain), " Buying Diamond Efficiency V, then the tier jump.");
    assert_eq!(format!("{}  →  {} per block", ticks(Some(27)), ticks(Some(100))), "27 ticks  →  100 ticks per block");
    assert_eq!(format!("{} later.", purchases(5)), "5 purchases later.");
}

#[test]
fn the_caret_opens_on_the_safe_option_and_moves_to_the_other() {
    assert!(choices(false).contains("▸ n  Not yet"));
    assert!(choices(true).contains("▸  Buy it"));
    assert_eq!(choices(false).matches('▸').count(), 1);
    assert_eq!(choices(true).matches('▸').count(), 1);
}

#[test]
fn a_dip_repaid_on_the_very_next_rung_says_purchase_in_the_singular() {
    assert_eq!(purchases(1), "1 purchase");
}

#[test]
fn a_longer_chain_counts_its_rungs_instead_of_naming_them() {
    let chain = vec!["a".to_owned(), "b".to_owned(), "c".to_owned()];
    assert_eq!(buying(&chain), " Buying 3 rungs, ending in the tier jump.");
}

#[test]
fn a_chain_of_one_is_the_jump_itself() {
    assert_eq!(buying(&["Netherite Pickaxe".to_owned()]), " Buying the tier jump.");
}

#[test]
fn a_dip_with_nothing_past_it_says_so() {
    assert_eq!(format!("{}  →  {} per block", ticks(None), ticks(None)), "—  →  — per block");
    assert_eq!(NOTHING, "—");
}
