use flavortext::generator::{
    compose_title, generate_random_title, generate_title_with, generate_true_color,
    select_branch, Branch, PreBuiltChoice, TitleDraws, TitlePolicy,
};
use flavortext::words::{GenError, WordBank};

fn list(words: &[&str]) -> Vec<String> {
    words.iter().map(|w| w.to_string()).collect()
}

fn bank() -> WordBank {
    WordBank::new(
        list(&["Mill", "Barn", "Keep"]),
        list(&["Old", "Grim"]),
        list(&["the Lake", "Ur"]),
        list(&["Doom", "Ash"]),
        list(&["Baron", "Sage"]),
    )
}

fn single() -> WordBank {
    WordBank::new(
        list(&["Mill"]),
        list(&["Old"]),
        list(&["the Lake"]),
        list(&["Doom"]),
        list(&["Baron"]),
    )
}

fn draws(branch: u8) -> TitleDraws {
    TitleDraws {
        prefix_chance: 0,
        adjective: 1,
        noun: 2,
        branch,
        title_chance: 0,
        title: 1,
        suffix: 0,
    }
}

fn policy(prefix: PreBuiltChoice, title: PreBuiltChoice) -> TitlePolicy {
    TitlePolicy { prefix, title }
}

#[test]
fn a_byte_selects_the_four_endings_in_turn() {
    assert_eq!(select_branch(0), Branch::OfTheNoun);
    assert_eq!(select_branch(1), Branch::OfPlace);
    assert_eq!(select_branch(2), Branch::OfSuffix);
    assert_eq!(select_branch(3), Branch::Epithet);
    assert_eq!(select_branch(4), Branch::OfTheNoun);
    assert_eq!(select_branch(254), Branch::OfSuffix);
    assert_eq!(select_branch(255), Branch::Epithet);
    let mut counts = [0; 4];
    for draw in 0..=255u8 {
        match select_branch(draw) {
            Branch::OfTheNoun => counts[0] += 1,
            Branch::OfPlace => counts[1] += 1,
            Branch::OfSuffix => counts[2] += 1,
            Branch::Epithet => counts[3] += 1,
        }
    }
    assert_eq!(counts, [64, 64, 64, 64]);
}

#[test]
fn a_choice_decides_by_its_draw() {
    assert!(PreBuiltChoice::AlwaysChoose.decide(0));
    assert!(PreBuiltChoice::AlwaysChoose.decide(u32::MAX));
    assert!(!PreBuiltChoice::NeverChoose.decide(0));
    assert!(!PreBuiltChoice::NeverChoose.decide(u32::MAX));
    assert!(PreBuiltChoice::ChanceChoose(100).decide(99));
    assert!(!PreBuiltChoice::ChanceChoose(100).decide(100));
    assert!(!PreBuiltChoice::ChanceChoose(0).decide(0));
    assert!(PreBuiltChoice::ChanceChoose(u32::MAX).decide(u32::MAX - 1));
}

#[test]
fn the_canonical_policy_takes_every_clause() {
    let p = TitlePolicy::canonical();
    assert_eq!(p.prefix, PreBuiltChoice::AlwaysChoose);
    assert_eq!(p.title, PreBuiltChoice::AlwaysChoose);
}

#[test]
fn title_of_the_noun() {
    let out = compose_title(&bank(), &TitlePolicy::canonical(), &draws(0));
    assert_eq!(out, Ok("Grim Keep, Sage of the Mill".to_string()));
}

#[test]
fn title_of_a_place() {
    let out = compose_title(&bank(), &TitlePolicy::canonical(), &draws(1));
    assert_eq!(out, Ok("Grim Keep, Sage of the Lake".to_string()));
    let mut d = draws(5);
    d.suffix = 1;
    let out = compose_title(&bank(), &TitlePolicy::canonical(), &d);
    assert_eq!(out, Ok("Grim Keep, Sage of Ur".to_string()));
}

#[test]
fn title_of_a_suffix() {
    let out = compose_title(&bank(), &TitlePolicy::canonical(), &draws(2));
    assert_eq!(out, Ok("Grim Keep, Sage of Doom".to_string()));
}

#[test]
fn title_with_an_epithet() {
    let out = compose_title(&bank(), &TitlePolicy::canonical(), &draws(3));
    assert_eq!(out, Ok("Grim Keep, \"The Mill\"".to_string()));
}

#[test]
fn an_epithet_takes_no_title() {
    let with = compose_title(&bank(), &TitlePolicy::canonical(), &draws(3));
    let never = policy(PreBuiltChoice::AlwaysChoose, PreBuiltChoice::NeverChoose);
    let mut d = draws(7);
    d.title = 0;
    d.title_chance = 77;
    assert_eq!(compose_title(&bank(), &never, &d), with);
    let no_titles = WordBank::new(
        list(&["Mill", "Barn", "Keep"]),
        list(&["Old", "Grim"]),
        list(&[]),
        list(&[]),
        list(&[]),
    );
    assert_eq!(compose_title(&no_titles, &TitlePolicy::canonical(), &draws(3)), with);
}

#[test]
fn clauses_that_are_never_taken_are_left_out() {
    let never = PreBuiltChoice::NeverChoose;
    let always = PreBuiltChoice::AlwaysChoose;
    let b = bank();
    assert_eq!(
        compose_title(&b, &policy(never, always), &draws(0)),
        Ok("Keep, Sage of the Mill".to_string())
    );
    assert_eq!(
        compose_title(&b, &policy(always, never), &draws(0)),
        Ok("Grim Keep of the Mill".to_string())
    );
    assert_eq!(compose_title(&b, &policy(never, never), &draws(1)), Ok("Keep of the Lake".to_string()));
    assert_eq!(compose_title(&b, &policy(never, never), &draws(2)), Ok("Keep of Doom".to_string()));
    assert_eq!(
        compose_title(&b, &policy(never, never), &draws(3)),
        Ok("Keep, \"The Mill\"".to_string())
    );
}

#[test]
fn a_chance_is_taken_below_its_bound() {
    let half = PreBuiltChoice::ChanceChoose(1 << 31);
    let p = policy(half, half);
    let mut d = draws(0);
    d.prefix_chance = (1 << 31) - 1;
    d.title_chance = 1 << 31;
    assert_eq!(compose_title(&bank(), &p, &d), Ok("Grim Keep of the Mill".to_string()));
    d.prefix_chance = 1 << 31;
    d.title_chance = 0;
    assert_eq!(compose_title(&bank(), &p, &d), Ok("Keep, Sage of the Mill".to_string()));
}

#[test]
fn draws_select_modulo_the_length() {
    let d = TitleDraws {
        prefix_chance: 9,
        adjective: 4,
        noun: 4,
        branch: 9,
        title_chance: 9,
        title: 3,
        suffix: 3,
    };
    let out = compose_title(&bank(), &TitlePolicy::canonical(), &d);
    assert_eq!(out, Ok("Old Barn, Sage of Ur".to_string()));
}

#[test]
fn words_in_other_alphabets_are_kept() {
    let b = WordBank::new(
        list(&["Mühle"]),
        list(&["Старый"]),
        list(&["湖"]),
        list(&["ñandú"]),
        list(&["Ærl"]),
    );
    let c = TitlePolicy::canonical();
    assert_eq!(compose_title(&b, &c, &draws(0)), Ok("Старый Mühle, Ærl of the Mühle".to_string()));
    assert_eq!(compose_title(&b, &c, &draws(1)), Ok("Старый Mühle, Ærl of 湖".to_string()));
    assert_eq!(compose_title(&b, &c, &draws(2)), Ok("Старый Mühle, Ærl of ñandú".to_string()));
    assert_eq!(compose_title(&b, &c, &draws(3)), Ok("Старый Mühle, \"The Mühle\"".to_string()));
}

#[test]
fn a_clause_that_is_taken_needs_a_word() {
    let c = TitlePolicy::canonical();
    let no_nouns = WordBank::new(list(&[]), list(&["Old"]), list(&["Ur"]), list(&["Ash"]), list(&["Sage"]));
    for branch in 0..4 {
        assert_eq!(compose_title(&no_nouns, &c, &draws(branch)), Err(GenError::EmptyCategory));
    }
    let no_adjectives =
        WordBank::new(list(&["Mill"]), list(&[]), list(&["Ur"]), list(&["Ash"]), list(&["Sage"]));
    assert_eq!(compose_title(&no_adjectives, &c, &draws(1)), Err(GenError::EmptyCategory));
    let no_titles =
        WordBank::new(list(&["Mill"]), list(&["Old"]), list(&["Ur"]), list(&["Ash"]), list(&[]));
    assert_eq!(compose_title(&no_titles, &c, &draws(0)), Err(GenError::EmptyCategory));
    assert_eq!(compose_title(&no_titles, &c, &draws(1)), Err(GenError::EmptyCategory));
    assert_eq!(compose_title(&no_titles, &c, &draws(2)), Err(GenError::EmptyCategory));
    let no_places =
        WordBank::new(list(&["Mill"]), list(&["Old"]), list(&[]), list(&["Ash"]), list(&["Sage"]));
    assert_eq!(compose_title(&no_places, &c, &draws(1)), Err(GenError::EmptyCategory));
    assert_eq!(compose_title(&no_places, &c, &draws(0)), Ok("Old Mill, Sage of the Mill".to_string()));
    let no_suffixes =
        WordBank::new(list(&["Mill"]), list(&["Old"]), list(&["Ur"]), list(&[]), list(&["Sage"]));
    assert_eq!(compose_title(&no_suffixes, &c, &draws(2)), Err(GenError::EmptyCategory));
    assert_eq!(compose_title(&no_suffixes, &c, &draws(1)), Ok("Old Mill, Sage of Ur".to_string()));
}

#[test]
fn a_clause_that_is_not_taken_needs_no_word() {
    let never = policy(PreBuiltChoice::NeverChoose, PreBuiltChoice::NeverChoose);
    let only_nouns = WordBank::new(list(&["Mill"]), list(&[]), list(&[]), list(&[]), list(&[]));
    assert_eq!(compose_title(&only_nouns, &never, &draws(0)), Ok("Mill of the Mill".to_string()));
    assert_eq!(compose_title(&only_nouns, &never, &draws(3)), Ok("Mill, \"The Mill\"".to_string()));
    assert_eq!(compose_title(&only_nouns, &never, &draws(1)), Err(GenError::EmptyCategory));
}

#[test]
fn a_random_title_has_one_of_the_four_shapes() {
    let b = single();
    let shapes = [
        "Old Mill, Baron of the Mill",
        "Old Mill, Baron of the Lake",
        "Old Mill, Baron of Doom",
        "Old Mill, \"The Mill\"",
    ];
    let mut seen = [false; 4];
    for _ in 0..400 {
        let title = generate_random_title(&b).unwrap();
        let at = shapes.iter().position(|s| *s == title);
        assert!(at.is_some(), "unexpected title {title}");
        seen[at.unwrap()] = true;
    }
    assert_eq!(seen, [true, true, true, true]);
}

#[test]
fn a_random_title_under_a_policy() {
    let b = single();
    let never = policy(PreBuiltChoice::NeverChoose, PreBuiltChoice::NeverChoose);
    let shapes =
        ["Mill of the Mill", "Mill of the Lake", "Mill of Doom", "Mill, \"The Mill\""];
    for _ in 0..100 {
        let title = generate_title_with(&b, &never).unwrap();
        assert!(shapes.contains(&title.as_str()), "unexpected title {title}");
    }
    let sometimes = policy(PreBuiltChoice::ChanceChoose(1 << 31), PreBuiltChoice::NeverChoose);
    let mut with = 0;
    let mut without = 0;
    for _ in 0..400 {
        let title = generate_title_with(&b, &sometimes).unwrap();
        if title.starts_with("Old Mill") {
            with += 1;
        } else {
            assert!(title.starts_with("Mill"));
            without += 1;
        }
    }
    assert!(with > 0 && without > 0);
}

#[test]
fn a_random_title_without_nouns_fails() {
    let b = WordBank::new(list(&[]), list(&["Old"]), list(&["Ur"]), list(&["Ash"]), list(&["Sage"]));
    assert_eq!(generate_random_title(&b), Err(GenError::EmptyCategory));
}

#[test]
fn fresh_draws_differ() {
    let mut branches = std::collections::BTreeSet::new();
    for _ in 0..200 {
        branches.insert(TitleDraws::random().branch % 4);
    }
    assert_eq!(branches.len(), 4);
}

#[test]
fn a_random_colour_has_three_parts() {
    let mut reds = std::collections::BTreeSet::new();
    for _ in 0..100 {
        let c = generate_true_color();
        reds.insert(c.r);
        assert_eq!(c, c.clone());
    }
    assert!(reds.len() > 1);
}

#[test]
fn each_ending_has_its_one_connector() {
    let b = WordBank::new(
        list(&["Mill", "Barn", "Keep"]),
        list(&["Old", "Grim"]),
        list(&["Ur", "Akkad"]),
        list(&["Doom", "Ash"]),
        list(&["Baron", "Sage"]),
    );
    let c = TitlePolicy::canonical();
    for branch in 0..=255u8 {
        let mut d = draws(branch);
        d.suffix = branch as usize;
        d.noun = branch as usize / 3;
        let title = compose_title(&b, &c, &d).unwrap();
        let of = title.matches(" of ").count();
        let of_the = title.matches(" of the ").count();
        let quotes = title.matches('"').count();
        match select_branch(branch) {
            Branch::OfTheNoun => assert_eq!((of, of_the, quotes), (1, 1, 0), "{title}"),
            Branch::OfPlace => assert_eq!((of, of_the, quotes), (1, 0, 0), "{title}"),
            Branch::OfSuffix => assert_eq!((of, of_the, quotes), (1, 0, 0), "{title}"),
            Branch::Epithet => {
                assert_eq!((of, of_the, quotes), (0, 0, 2), "{title}");
                assert!(title.contains(", \"The "));
                assert!(title.ends_with('"'));
                assert!(!title.contains("Baron") && !title.contains("Sage"));
            }
        }
    }
}
