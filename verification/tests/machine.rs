use game_the_curse_of_the_headless_goose::input::Event;
use game_the_curse_of_the_headless_goose::machine::shop::Purchase;
use game_the_curse_of_the_headless_goose::fighter::Stats;
use game_the_curse_of_the_headless_goose::machine::{
    key_down, take_render, Campaign, FlashAction, Render, SaveSlot, Scene,
};
use game_the_curse_of_the_headless_goose::random::FastRandom;

#[test]
fn test_sort_render() {
    assert!(Render::Clear > Render::Redraw);
}

#[test]
fn test_purchase_success() {
    let mut campaign = Campaign::new();
    campaign.money = u16::MAX;

    assert!(campaign.add_purchase(Purchase::move_four()));
    assert_eq!(campaign.purchased, Purchase::move_four());

    assert!(campaign.add_purchase(Purchase::move_one()));
    assert_eq!(campaign.purchased, Purchase::move_four().union(Purchase::move_one()));
}

#[test]
fn test_purchase_fail() {
    let mut campaign = Campaign::new();
    assert!(!campaign.add_purchase(Purchase::move_one()));
    assert_eq!(campaign.purchased, Purchase::empty());
}

#[test]
fn purchase_takes_the_price() {
    let mut campaign = Campaign::new();
    campaign.money = 120;
    assert!(campaign.add_purchase(Purchase::move_four()));
    assert_eq!(campaign.money, 20);
    assert_eq!(campaign.money(), 20);
    assert!(!campaign.add_purchase(Purchase::move_one()));
    assert_eq!(campaign.money, 20);
}

#[test]
fn take_render_uses_up_the_request() {
    let mut render = Some(Render::Clear);
    assert_eq!(take_render(&mut render), (true, true));
    assert_eq!(render, None);
    let mut render = Some(Render::Redraw);
    assert_eq!(take_render(&mut render), (false, true));
    assert_eq!(take_render(&mut render), (false, false));
}

#[test]
fn key_down_counts_a_held_key_once() {
    let mut current = None;
    assert_eq!(key_down(&mut current, Some(Event::Five)), Some(Event::Five));
    assert_eq!(key_down(&mut current, Some(Event::Five)), None);
    assert_eq!(key_down(&mut current, Some(Event::Hash)), Some(Event::Hash));
    assert_eq!(key_down(&mut current, None), None);
    assert_eq!(current, None);
    assert_eq!(key_down(&mut current, Some(Event::Hash)), Some(Event::Hash));
}

#[test]
fn saved_game_resumes_where_it_was_saved() {

    let mut rng = FastRandom::new();
    let mut campaign = Campaign::new();
    campaign.progress = 4;
    campaign.money = 1234;
    campaign.stats = Stats { health: 12, energy: 9, recharge: 2, cooldown: 3, abilities: 0b1011 };
    campaign.purchased = Purchase::move_four().union(Purchase::move_nine());
    campaign.progress_next(&mut rng);
    assert_eq!(campaign.progress, 5);

    let saved = match campaign.flash_actions.last() {
        Some(FlashAction::Append(bytes)) => bytes.clone(),
        _ => panic!("the progress was not saved"),
    };
    assert_eq!(saved.len(), 29);
    assert_eq!(&saved[..4], &[0, 5, 0x04, 0xD2]);

    let mut resumed = Campaign::new();
    resumed.save_slot = Some(SaveSlot { summary: String::from("slot"), data: Some(saved) });
    resumed.start_game(&mut rng);
    assert_eq!(resumed.progress, 5);
    assert_eq!(resumed.money, 1234);
    assert_eq!(resumed.stats, campaign.stats);
    assert_eq!(resumed.purchased, campaign.purchased);
    // Loading queues nothing to write.
    assert!(resumed.flash_actions.is_empty());
}

#[test]
fn new_game_without_savegame_starts_from_defaults() {

    let mut rng = FastRandom::new();
    let mut campaign = Campaign::new();
    campaign.start_game(&mut rng);
    assert_eq!(campaign.progress, 0);
    assert_eq!(campaign.money, 0);
    assert_eq!(campaign.stats, Stats { health: 10, energy: 10, recharge: 1, cooldown: 4, abilities: 0b1101 });
    assert!(matches!(campaign.flash_actions.as_slice(), [FlashAction::Append(bytes)] if bytes == &vec![0, 0]));
    match &campaign.pending_scene {
        Some(Scene::Dialogue(d)) => {
            assert_eq!(d.text.len(), 8);
            assert_eq!(d.text[0].1, "... (Press # to continue)");
        }
        _ => panic!("the story starts with a dialogue"),
    }
}
