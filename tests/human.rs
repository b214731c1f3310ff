use necromanzer::human::{Character, Gender, MainHand, SkinTone, TextColor};
use necromanzer::item::GraveData;

#[test]
fn pronouns_follow_gender() {
    assert_eq!(("He", "him", "his"), Gender::Male.pronounce());
    assert_eq!(("She", "her", "her"), Gender::Female.pronounce());
    assert_eq!(("They", "them", "their"), Gender::Custom("x".to_string()).pronounce());
}

#[test]
fn genders_read_from_and_written_to_names() {
    assert_eq!(Gender::Male, Gender::from("Male".to_string()));
    assert_eq!(Gender::Female, Gender::from("Female".to_string()));
    assert_eq!(Gender::Custom("male".to_string()), Gender::from("male".to_string()));
    assert_eq!("Female", Gender::Female.name());
    assert_eq!("Bigender", Gender::Custom("Bigender".to_string()).name());
    assert_eq!(Gender::Male, Gender::from_roll(51));
    assert_eq!(Gender::Female, Gender::from_roll(50));
    let g = Gender::random();
    assert!(g == Gender::Male || g == Gender::Female);
}

#[test]
fn skin_tones_cycle_both_ways() {
    assert_eq!(SkinTone::WarmIvory, SkinTone::PaleIvory.next());
    assert_eq!(SkinTone::PaleIvory, SkinTone::Chocolate.next());
    assert_eq!(SkinTone::Chocolate, SkinTone::PaleIvory.prev());
    assert_eq!(SkinTone::Amber, SkinTone::Honey.prev());
    let mut t = SkinTone::Sienna;
    for _ in 0..16 {
        t = t.next();
        assert_eq!(t.prev().next(), t);
    }
    assert_eq!(SkinTone::Sienna, t);
    assert_eq!(16, SkinTone::COUNT);
}

#[test]
fn skin_tones_have_names_and_indices() {
    assert_eq!("Pale Ivory", SkinTone::PaleIvory.name());
    assert_eq!("Sandy", SkinTone::Sand.name());
    assert_eq!("Chocolate", SkinTone::Chocolate.name());
    assert_eq!(Some(SkinTone::Amber), SkinTone::from_index(7));
    assert_eq!(None, SkinTone::from_index(16));
    assert_eq!(15, SkinTone::Chocolate.index());
    assert!(SkinTone::Almond.light_text());
    assert!(!SkinTone::Band.light_text());
    let t = SkinTone::random();
    assert!(t.index() < 16);
}

#[test]
fn inscriptions_give_birth_and_death_years() {
    let c = Character::new("test", Gender::Male, 25, MainHand::Right, SkinTone::Amber);
    assert_eq!("test. 230 — 255", GraveData { character: c, death_year: 255 }.inscription());
    let c = Character::new("Old", Gender::Female, 200, MainHand::Left, SkinTone::Amber);
    assert_eq!("Old. -150 — 50", GraveData { character: c, death_year: 50 }.inscription());
    let c = Character::new("Zero", Gender::Female, 0, MainHand::Left, SkinTone::Amber);
    assert_eq!("Zero. 0 — 0", GraveData { character: c, death_year: 0 }.inscription());
}

#[test]
fn characters_clone_their_identity() {
    let c = Character::new("Ida", Gender::Custom("fluid".to_string()), 33, MainHand::Ambidexter, SkinTone::Bronze);
    let d = c.clone();
    assert_eq!(c.name, d.name);
    assert_eq!(c.gender, d.gender);
    assert_eq!(33, d.age);
    assert_eq!(MainHand::Ambidexter, d.main_hand);
    assert_eq!(SkinTone::Bronze, d.skin_tone);
}

#[test]
fn text_over_dark_tones_is_light() {
    assert_eq!(TextColor::LightYellow, SkinTone::Chocolate.text_color());
    assert_eq!(TextColor::LightYellow, SkinTone::Almond.text_color());
    assert_eq!(TextColor::DarkBrown, SkinTone::Band.text_color());
    assert_eq!(TextColor::DarkBrown, SkinTone::PaleIvory.text_color());
}
