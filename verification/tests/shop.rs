use game_the_curse_of_the_headless_goose::machine::shop::Purchase;

#[test]
fn test_purchase_price() {
    assert_eq!(Purchase::move_one().price(), 50);
    assert_eq!(Purchase::move_four().price(), 100);
    for purchase in Purchase::all().iter() {
        assert!(purchase.price() < u16::MAX);
    }
}

#[test]
fn test_purchase_label() {
    assert_eq!(Purchase::move_one().label(), "New move: One (Special)");
    assert_eq!(Purchase::move_four().label(), "New move: Four (Strong attack)");
    for purchase in Purchase::all().iter() {
        assert!(!purchase.label().is_empty());
    }
}

#[test]
fn purchase_sets_price_only_single_items() {
    assert_eq!(Purchase::empty().price(), u16::MAX);
    assert_eq!(Purchase::all().price(), u16::MAX);
    assert_eq!(Purchase::move_nine().price(), 600);
    assert_eq!(Purchase::empty().label(), "");
}

#[test]
fn purchase_all_lists_seven_items_in_order() {
    let items = Purchase::all().iter();
    assert_eq!(items.len(), 7);
    let prices: Vec<u16> = items.iter().map(|p| p.price()).collect();
    assert_eq!(prices, vec![50, 100, 200, 300, 400, 500, 600]);
}

#[test]
fn purchase_from_bits_drops_unknown_bits() {
    let p = Purchase::from(0xFFu128);
    assert_eq!(p, Purchase::all());
    assert_eq!(Purchase::from(0x102u128), Purchase::move_four());
    assert_eq!(Purchase::from_unlock_level(0), Purchase::empty());
    assert_eq!(Purchase::from_unlock_level(3), Purchase::move_four());
}
