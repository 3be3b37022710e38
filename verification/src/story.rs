use crate::cooldown::bit;
use crate::fighter::Stats;
use vstd::prelude::*;

verus! {

/// One scene of the story.
#[derive(Clone, Copy)]
pub enum Story {
    Moon(&'static [&'static str]),
    Dialogue(&'static [(Decoration, &'static str)]),
    Battle { enemy: Stats, reward: u16 },
    Home { shop_unlocks: u8 },
}

/// What is drawn beside a line of dialogue.
#[derive(Debug, Copy, Clone, PartialEq, Eq, Structural)]
pub enum Decoration {
    Blank,
    Chapter,
    Sloth,
    Goose,
    Phone,
}

/// A scene as a mathematical value: the lines of cut scenes and dialogues
/// as character sequences.
pub enum Shape {
    Moon(Seq<Seq<char>>),
    Dialogue(Seq<(Decoration, Seq<char>)>),
    Battle(Stats, u16),
    Home(u8),
}

/// The characters of each line.
pub open spec fn line_views(lines: Seq<&'static str>) -> Seq<Seq<char>> {
    lines.map_values(|s: &'static str| s@)
}

/// The decoration and characters of each line.
pub open spec fn text_views(text: Seq<(Decoration, &'static str)>) -> Seq<(Decoration, Seq<char>)> {
    text.map_values(|e: (Decoration, &'static str)| (e.0, e.1@))
}

/// `story` as a value.
pub open spec fn shape_of(story: Story) -> Shape {
    match story {
        Story::Moon(lines) => Shape::Moon(line_views(lines@)),
        Story::Dialogue(text) => Shape::Dialogue(text_views(text@)),
        Story::Battle { enemy, reward } => Shape::Battle(enemy, reward),
        Story::Home { shop_unlocks } => Shape::Home(shop_unlocks),
    }
}

/// The lines of the prologue.
pub open spec fn prologue_text() -> Seq<(Decoration, Seq<char>)> {
    seq![
        (Decoration::Blank, "... (Press # to continue)"@),
        (Decoration::Blank, "* POW *"@),
        (Decoration::Blank, "Get up, get up!"@),
        (Decoration::Blank, "..."@),
        (Decoration::Blank, "3.."@),
        (Decoration::Blank, "2.."@),
        (Decoration::Blank, "1.."@),
        (Decoration::Blank, "Knockout!"@),
    ]
}

/// The lines of the chapter one.
pub open spec fn chapter_one_text() -> Seq<(Decoration, Seq<char>)> {
    seq![
        (Decoration::Chapter, "Chapter 1"@),
        (Decoration::Sloth, "Oh hey, you're awake."@),
        (Decoration::Sloth, "They got you pretty good huh?"@),
        (Decoration::Sloth, "Well, welcome to Silly Con Valley downtown!"@),
        (Decoration::Sloth, "Name's Sloth, I'll be driving you home, you should recover there."@),
        (Decoration::Sloth, "You know ever since I was a small sloth, I always knew I wanted to move something in this world."@),
        (Decoration::Sloth, "Like from A to B."@),
        (Decoration::Sloth, "I used to drive for sushi delivery. But too many people complained about stale food."@),
        (Decoration::Sloth, "Now I work as a driver for underground kickboxing clubs."@),
        (Decoration::Sloth, "Less complaints, and to my surprise, this job even turned out to be less"@),
        (Decoration::Sloth, "fishy."@),
        (Decoration::Sloth, "heh."@),
        (Decoration::Sloth, "Anyway, I digress. We're almost there."@),
    ]
}

/// The lines of the training call.
pub open spec fn training_call_text() -> Seq<(Decoration, Seq<char>)> {
    seq![
        (Decoration::Chapter, "Same day, later that night"@),
        (Decoration::Phone, "..."@),
        (Decoration::Phone, "*RING RING*"@),
        (Decoration::Phone, "That fight didn't go so well."@),
        (Decoration::Phone, "Maybe I should've actually trained you."@),
        (Decoration::Phone, "*sigh*"@),
        (Decoration::Phone, "Okay look, there's 3 different moves you can pick from. Well technically 4, but.."@),
        (Decoration::Phone, "Actually, for you.. there's 2 moves to pick from. You can either attack, or you can block."@),
        (Decoration::Phone, "You pick a number above zero to attack. You do this amount of damage, but it also costs the same amount of energy."@),
        (Decoration::Phone, "You can block attacks with zero, which costs no energy, but also deals no damage. And your opponent can obviously do the same."@),
        (Decoration::Phone, "But there's also cooldown, so picking the same number repeatedly won't work out so well. You can still try, but the more cooldown it has, the higher chance it fails."@),
        (Decoration::Phone, "Anyway, I hope that makes sense. I arranged a sparring match. Just try not to get knocked out again, okay?"@),
        (Decoration::Phone, "*BEEP*"@),
        (Decoration::Chapter, "Different place, different time"@),
        (Decoration::Blank, "Okay, here goes nothing."@),
    ]
}

/// The lines of the next match.
pub open spec fn next_match_text() -> Seq<(Decoration, Seq<char>)> {
    seq![
        (Decoration::Phone, "Excellent! Next is a tougher one, this may take you a few tries."@),
    ]
}

/// The lines of the epilogue.
pub open spec fn epilogue_text() -> Seq<(Decoration, Seq<char>)> {
    seq![
        (Decoration::Chapter, "Epilogue"@),
    ]
}


/// The story: three dialogues, a sparring match, a dialogue, a harder
/// match, the home scene, and the epilogue.
pub open spec fn story_shape(idx: int) -> Option<Shape> {
    if idx == 0 {
        Some(Shape::Dialogue(prologue_text()))
    } else if idx == 1 {
        Some(Shape::Dialogue(chapter_one_text()))
    } else if idx == 2 {
        Some(Shape::Dialogue(training_call_text()))
    } else if idx == 3 {
        Some(Shape::Battle(first_enemy(), 0))
    } else if idx == 4 {
        Some(Shape::Dialogue(next_match_text()))
    } else if idx == 5 {
        Some(Shape::Battle(second_enemy(), 10))
    } else if idx == 6 {
        Some(Shape::Home(1))
    } else if idx == 7 {
        Some(Shape::Dialogue(epilogue_text()))
    } else {
        None
    }
}

/// The number of scenes in the story.
pub const SCENE_COUNT: usize = 8;

/// An enemy that always has a move it can afford: Zero or One (which cost
/// nothing) is unlocked.
pub open spec fn has_free_move(stats: Stats) -> bool {
    bit(stats.abilities as int, 0) || bit(stats.abilities as int, 1)
}

/// A scene the game can enter: dialogues have lines, moon scenes have
/// lines, and battle enemies always have a move they can afford.
pub open spec fn playable(story: Story) -> bool {
    match story {
        Story::Moon(lines) => lines@.len() > 0,
        Story::Dialogue(text) => text@.len() > 0,
        Story::Battle { enemy, reward: _ } => has_free_move(enemy),
        Story::Home { shop_unlocks: _ } => true,
    }
}

/// The enemy of the first sparring match.
pub open spec fn first_enemy() -> Stats {
    Stats { health: 10, energy: 10, recharge: 1, cooldown: 4, abilities: 0b1101 }
}

/// The enemy of the second match: like the first, with faster cooldowns.
pub open spec fn second_enemy() -> Stats {
    Stats { health: 10, energy: 10, recharge: 1, cooldown: 2, abilities: 0b1101 }
}

/// The scene at position `idx` of the story, if the story is that long.
pub fn scene(idx: usize) -> (s: Option<Story>)
    ensures
        s is Some <==> idx < SCENE_COUNT,
        s matches Some(story) ==> playable(story) && Some(shape_of(story)) == story_shape(
            idx as int,
        ),
{
    assert(bit(0b1101, 0));
    if idx == 0 {
        let text: &'static [(Decoration, &'static str)] = &[
            (Decoration::Blank, "... (Press # to continue)"),
            (Decoration::Blank, "* POW *"),
            (Decoration::Blank, "Get up, get up!"),
            (Decoration::Blank, "..."),
            (Decoration::Blank, "3.."),
            (Decoration::Blank, "2.."),
            (Decoration::Blank, "1.."),
            (Decoration::Blank, "Knockout!"),
        ];
        assert(text_views(text@) =~= prologue_text());
        Some(Story::Dialogue(text))
    } else if idx == 1 {
        let text: &'static [(Decoration, &'static str)] = &[
            (Decoration::Chapter, "Chapter 1"),
            (Decoration::Sloth, "Oh hey, you're awake."),
            (Decoration::Sloth, "They got you pretty good huh?"),
            (Decoration::Sloth, "Well, welcome to Silly Con Valley downtown!"),
            (Decoration::Sloth, "Name's Sloth, I'll be driving you home, you should recover there."),
            (Decoration::Sloth, "You know ever since I was a small sloth, I always knew I wanted to move something in this world."),
            (Decoration::Sloth, "Like from A to B."),
            (Decoration::Sloth, "I used to drive for sushi delivery. But too many people complained about stale food."),
            (Decoration::Sloth, "Now I work as a driver for underground kickboxing clubs."),
            (Decoration::Sloth, "Less complaints, and to my surprise, this job even turned out to be less"),
            (Decoration::Sloth, "fishy."),
            (Decoration::Sloth, "heh."),
            (Decoration::Sloth, "Anyway, I digress. We're almost there."),
        ];
        assert(text_views(text@) =~= chapter_one_text());
        Some(Story::Dialogue(text))
    } else if idx == 2 {
        let text: &'static [(Decoration, &'static str)] = &[
            (Decoration::Chapter, "Same day, later that night"),
            (Decoration::Phone, "..."),
            (Decoration::Phone, "*RING RING*"),
            (Decoration::Phone, "That fight didn't go so well."),
            (Decoration::Phone, "Maybe I should've actually trained you."),
            (Decoration::Phone, "*sigh*"),
            (Decoration::Phone, "Okay look, there's 3 different moves you can pick from. Well technically 4, but.."),
            (Decoration::Phone, "Actually, for you.. there's 2 moves to pick from. You can either attack, or you can block."),
            (Decoration::Phone, "You pick a number above zero to attack. You do this amount of damage, but it also costs the same amount of energy."),
            (Decoration::Phone, "You can block attacks with zero, which costs no energy, but also deals no damage. And your opponent can obviously do the same."),
            (Decoration::Phone, "But there's also cooldown, so picking the same number repeatedly won't work out so well. You can still try, but the more cooldown it has, the higher chance it fails."),
            (Decoration::Phone, "Anyway, I hope that makes sense. I arranged a sparring match. Just try not to get knocked out again, okay?"),
            (Decoration::Phone, "*BEEP*"),
            (Decoration::Chapter, "Different place, different time"),
            (Decoration::Blank, "Okay, here goes nothing."),
        ];
        assert(text_views(text@) =~= training_call_text());
        Some(Story::Dialogue(text))
    } else if idx == 3 {
        Some(
            Story::Battle {
                enemy: Stats { health: 10, energy: 10, recharge: 1, cooldown: 4, abilities: 0b1101 },
                reward: 0,
            },
        )
    } else if idx == 4 {
        let text: &'static [(Decoration, &'static str)] = &[
            (Decoration::Phone, "Excellent! Next is a tougher one, this may take you a few tries."),
        ];
        assert(text_views(text@) =~= next_match_text());
        Some(Story::Dialogue(text))
    } else if idx == 5 {
        Some(
            Story::Battle {
                enemy: Stats { health: 10, energy: 10, recharge: 1, cooldown: 2, abilities: 0b1101 },
                reward: 10,
            },
        )
    } else if idx == 6 {
        Some(Story::Home { shop_unlocks: 1 })
    } else if idx == 7 {
        let text: &'static [(Decoration, &'static str)] = &[
            (Decoration::Chapter, "Epilogue"),
        ];
        assert(text_views(text@) =~= epilogue_text());
        Some(Story::Dialogue(text))
    } else {
        None
    }
}

} // verus!
