//! Identity data of a character: gender, skin tone, handedness, body.
use vstd::prelude::*;

verus! {

#[derive(Debug)]
pub enum Gender {
    Male,
    Female,
    Custom(String),
}

/// What a gender is, with a custom gender as its characters.
pub enum GenderView {
    Male,
    Female,
    Custom(Seq<char>),
}

impl View for Gender {
    type V = GenderView;

    open spec fn view(&self) -> GenderView {
        match self {
            Gender::Male => GenderView::Male,
            Gender::Female => GenderView::Female,
            Gender::Custom(s) => GenderView::Custom(s@),
        }
    }
}

impl Clone for Gender {
    fn clone(&self) -> (r: Self)
        ensures
            r@ == self@,
    {
        match self {
            Gender::Male => Gender::Male,
            Gender::Female => Gender::Female,
            Gender::Custom(s) => Gender::Custom(s.clone()),
        }
    }
}

/// Subject, object and possessive pronouns of a gender.
pub open spec fn pronouns(g: GenderView) -> (Seq<char>, Seq<char>, Seq<char>) {
    match g {
        GenderView::Male => ("He"@, "him"@, "his"@),
        GenderView::Female => ("She"@, "her"@, "her"@),
        GenderView::Custom(_) => ("They"@, "them"@, "their"@),
    }
}

/// The name of a gender: a custom gender is named by its own text.
pub open spec fn gender_name(g: GenderView) -> Seq<char> {
    match g {
        GenderView::Male => "Male"@,
        GenderView::Female => "Female"@,
        GenderView::Custom(s) => s,
    }
}

/// The gender that a name stands for.
pub open spec fn gender_of_name(s: Seq<char>) -> GenderView {
    if s == "Male"@ {
        GenderView::Male
    } else if s == "Female"@ {
        GenderView::Female
    } else {
        GenderView::Custom(s)
    }
}

fn str_eq(a: &str, b: &str) -> (r: bool)
    ensures
        r == (a@ == b@),
{
    let n = a.unicode_len();
    if n != b.unicode_len() {
        return false;
    }
    let mut i: usize = 0;
    while i < n
        invariant
            n == a@.len(),
            n == b@.len(),
            i <= n,
            forall|j: int| 0 <= j < i ==> a@[j] == b@[j],
        decreases n - i,
    {
        if a.get_char(i) != b.get_char(i) {
            return false;
        }
        i = i + 1;
    }
    assert(a@ =~= b@);
    true
}

impl PartialEq for Gender {
    fn eq(&self, other: &Gender) -> (r: bool) {
        match (self, other) {
            (Gender::Male, Gender::Male) => true,
            (Gender::Female, Gender::Female) => true,
            (Gender::Custom(a), Gender::Custom(b)) => str_eq(a.as_str(), b.as_str()),
            _ => false,
        }
    }
}

impl vstd::std_specs::cmp::PartialEqSpecImpl for Gender {
    open spec fn obeys_eq_spec() -> bool {
        true
    }

    open spec fn eq_spec(&self, other: &Gender) -> bool {
        self@ == other@
    }
}

impl Gender {
    pub fn pronounce(&self) -> (r: (&str, &str, &str))
        ensures
            (r.0@, r.1@, r.2@) == pronouns(self@),
    {
        match self {
            Gender::Male => ("He", "him", "his"),
            Gender::Female => ("She", "her", "her"),
            Gender::Custom(_) => ("They", "them", "their"),
        }
    }

    /// The name of the gender, as it is written in save records.
    pub fn name(&self) -> (r: String)
        ensures
            r@ == gender_name(self@),
    {
        match self {
            Gender::Male => String::from_str("Male"),
            Gender::Female => String::from_str("Female"),
            Gender::Custom(s) => s.clone(),
        }
    }

    /// The gender of a random character: female on draws below 51 of 100.
    pub fn from_roll(roll: u32) -> (r: Gender)
        ensures
            r@ == (if roll < 51 {
                GenderView::Female
            } else {
                GenderView::Male
            }),
    {
        if roll < 51 {
            Gender::Female
        } else {
            Gender::Male
        }
    }

    /// A random gender, female with probability 0.51.
    pub fn random() -> (r: Gender)
        ensures
            r@ == GenderView::Male || r@ == GenderView::Female,
    {
        Gender::from_roll(crate::dice::roll_below(100))
    }
}

impl From<String> for Gender {
    fn from(value: String) -> (r: Gender) {
        if str_eq(value.as_str(), "Male") {
            Gender::Male
        } else if str_eq(value.as_str(), "Female") {
            Gender::Female
        } else {
            Gender::Custom(value)
        }
    }
}

impl vstd::std_specs::convert::FromSpecImpl<String> for Gender {
    open spec fn obeys_from_spec() -> bool {
        true
    }

    open spec fn from_spec(v: String) -> Gender {
        if v@ == "Male"@ {
            Gender::Male
        } else if v@ == "Female"@ {
            Gender::Female
        } else {
            Gender::Custom(v)
        }
    }
}

/// Skin tones, in the order in which a character editor cycles them.
#[derive(Debug, Clone, Copy, PartialEq, Eq, Structural)]
pub enum SkinTone {
    PaleIvory,
    WarmIvory,
    Sand,
    RoseBeige,
    Sienna,
    Limestone,
    Beige,
    Amber,
    Honey,
    Band,
    Almond,
    Umber,
    Bronze,
    Golden,
    Espresso,
    Chocolate,
}

/// Position of a tone in the cycle.
pub open spec fn tone_index(t: SkinTone) -> int {
    match t {
        SkinTone::PaleIvory => 0,
        SkinTone::WarmIvory => 1,
        SkinTone::Sand => 2,
        SkinTone::RoseBeige => 3,
        SkinTone::Sienna => 4,
        SkinTone::Limestone => 5,
        SkinTone::Beige => 6,
        SkinTone::Amber => 7,
        SkinTone::Honey => 8,
        SkinTone::Band => 9,
        SkinTone::Almond => 10,
        SkinTone::Umber => 11,
        SkinTone::Bronze => 12,
        SkinTone::Golden => 13,
        SkinTone::Espresso => 14,
        SkinTone::Chocolate => 15,
    }
}

/// The tone at position `i` of the cycle.
pub open spec fn tone_at(i: int) -> Option<SkinTone> {
    if i == 0 {
        Some(SkinTone::PaleIvory)
    } else if i == 1 {
        Some(SkinTone::WarmIvory)
    } else if i == 2 {
        Some(SkinTone::Sand)
    } else if i == 3 {
        Some(SkinTone::RoseBeige)
    } else if i == 4 {
        Some(SkinTone::Sienna)
    } else if i == 5 {
        Some(SkinTone::Limestone)
    } else if i == 6 {
        Some(SkinTone::Beige)
    } else if i == 7 {
        Some(SkinTone::Amber)
    } else if i == 8 {
        Some(SkinTone::Honey)
    } else if i == 9 {
        Some(SkinTone::Band)
    } else if i == 10 {
        Some(SkinTone::Almond)
    } else if i == 11 {
        Some(SkinTone::Umber)
    } else if i == 12 {
        Some(SkinTone::Bronze)
    } else if i == 13 {
        Some(SkinTone::Golden)
    } else if i == 14 {
        Some(SkinTone::Espresso)
    } else if i == 15 {
        Some(SkinTone::Chocolate)
    } else {
        None
    }
}

/// The displayed name of a tone.
pub open spec fn tone_name(t: SkinTone) -> Seq<char> {
    match t {
        SkinTone::PaleIvory => "Pale Ivory"@,
        SkinTone::WarmIvory => "Warm Ivory"@,
        SkinTone::Sand => "Sandy"@,
        SkinTone::RoseBeige => "Rose Beige"@,
        SkinTone::Sienna => "Sienna"@,
        SkinTone::Limestone => "Limestone"@,
        SkinTone::Beige => "Beige"@,
        SkinTone::Amber => "Amber"@,
        SkinTone::Honey => "Honey"@,
        SkinTone::Band => "Band"@,
        SkinTone::Almond => "Almond"@,
        SkinTone::Umber => "Umber"@,
        SkinTone::Bronze => "Bronze"@,
        SkinTone::Golden => "Golden"@,
        SkinTone::Espresso => "Espresso"@,
        SkinTone::Chocolate => "Chocolate"@,
    }
}

/// The two colours that text over a skin tone is drawn in.
#[derive(Debug, Clone, Copy, PartialEq, Eq, Structural)]
pub enum TextColor {
    LightYellow,
    DarkBrown,
}

/// Whether text drawn over a tone should be light rather than dark.
pub open spec fn tone_wants_light_text(t: SkinTone) -> bool {
    tone_index(t) >= 10
}

impl SkinTone {
    /// Number of skin tones.
    pub const COUNT: u8 = 16;

    pub fn index(&self) -> (r: u8)
        ensures
            r == tone_index(*self),
    {
        match self {
            SkinTone::PaleIvory => 0,
            SkinTone::WarmIvory => 1,
            SkinTone::Sand => 2,
            SkinTone::RoseBeige => 3,
            SkinTone::Sienna => 4,
            SkinTone::Limestone => 5,
            SkinTone::Beige => 6,
            SkinTone::Amber => 7,
            SkinTone::Honey => 8,
            SkinTone::Band => 9,
            SkinTone::Almond => 10,
            SkinTone::Umber => 11,
            SkinTone::Bronze => 12,
            SkinTone::Golden => 13,
            SkinTone::Espresso => 14,
            SkinTone::Chocolate => 15,
        }
    }

    /// The tone at position `i` of the cycle, if there is one.
    pub fn from_index(i: u8) -> (r: Option<SkinTone>)
        ensures
            r == tone_at(i as int),
    {
        if i == 0 {
            Some(SkinTone::PaleIvory)
        } else if i == 1 {
            Some(SkinTone::WarmIvory)
        } else if i == 2 {
            Some(SkinTone::Sand)
        } else if i == 3 {
            Some(SkinTone::RoseBeige)
        } else if i == 4 {
            Some(SkinTone::Sienna)
        } else if i == 5 {
            Some(SkinTone::Limestone)
        } else if i == 6 {
            Some(SkinTone::Beige)
        } else if i == 7 {
            Some(SkinTone::Amber)
        } else if i == 8 {
            Some(SkinTone::Honey)
        } else if i == 9 {
            Some(SkinTone::Band)
        } else if i == 10 {
            Some(SkinTone::Almond)
        } else if i == 11 {
            Some(SkinTone::Umber)
        } else if i == 12 {
            Some(SkinTone::Bronze)
        } else if i == 13 {
            Some(SkinTone::Golden)
        } else if i == 14 {
            Some(SkinTone::Espresso)
        } else if i == 15 {
            Some(SkinTone::Chocolate)
        } else {
            None
        }
    }

    pub fn name(&self) -> (r: &str)
        ensures
            r@ == tone_name(*self),
    {
        match self {
            SkinTone::PaleIvory => "Pale Ivory",
            SkinTone::WarmIvory => "Warm Ivory",
            SkinTone::Sand => "Sandy",
            SkinTone::RoseBeige => "Rose Beige",
            SkinTone::Sienna => "Sienna",
            SkinTone::Limestone => "Limestone",
            SkinTone::Beige => "Beige",
            SkinTone::Amber => "Amber",
            SkinTone::Honey => "Honey",
            SkinTone::Band => "Band",
            SkinTone::Almond => "Almond",
            SkinTone::Umber => "Umber",
            SkinTone::Bronze => "Bronze",
            SkinTone::Golden => "Golden",
            SkinTone::Espresso => "Espresso",
            SkinTone::Chocolate => "Chocolate",
        }
    }

    /// The following tone, wrapping from the last to the first.
    pub fn next(&self) -> (r: SkinTone)
        ensures
            Some(r) == tone_at((tone_index(*self) + 1) % 16),
    {
        let mut i: u8 = self.index();
        if i < Self::COUNT - 1 {
            i += 1;
        } else {
            i = 0;
        }
        let r = Self::from_index(i);
        r.unwrap()
    }

    /// The preceding tone, wrapping from the first to the last.
    pub fn prev(&self) -> (r: SkinTone)
        ensures
            Some(r) == tone_at((tone_index(*self) + 15) % 16),
    {
        let mut i: u8 = self.index();
        if i > 0 {
            i -= 1;
        } else {
            i = Self::COUNT - 1;
        }
        let r = Self::from_index(i);
        r.unwrap()
    }

    /// Whether text over this tone is drawn light (light yellow) rather than
    /// dark (dark brown).
    pub fn light_text(&self) -> (r: bool)
        ensures
            r == tone_wants_light_text(*self),
    {
        self.index() >= 10
    }

    /// The colour of text drawn over this tone.
    pub fn text_color(&self) -> (r: TextColor)
        ensures
            r == (if tone_wants_light_text(*self) {
                TextColor::LightYellow
            } else {
                TextColor::DarkBrown
            }),
    {
        if self.light_text() {
            TextColor::LightYellow
        } else {
            TextColor::DarkBrown
        }
    }

    /// A uniformly drawn skin tone; any of them may come.
    pub fn random() -> (r: SkinTone) {
        let i = crate::dice::roll_below(16);
        let t = Self::from_index(i as u8);
        t.unwrap()
    }
}

#[derive(Debug, Clone, Copy, PartialEq, Eq, Structural)]
pub enum MainHand {
    Left,
    Right,
    Ambidexter,
}

/// Decay stage of organic remains, from fresh to the most decayed.
#[derive(Debug, Clone, Copy, PartialEq, Eq, Structural)]
pub enum Freshness {
    Fresh,
    Rotten,
    Skeletal,
}

/// Who a person is.
#[derive(Debug)]
pub struct Character {
    pub name: String,
    pub gender: Gender,
    pub age: u8,
    pub main_hand: MainHand,
    pub skin_tone: SkinTone,
}

/// The identity fields of a character, with strings as their characters.
pub struct CharacterView {
    pub name: Seq<char>,
    pub gender: GenderView,
    pub age: u8,
    pub main_hand: MainHand,
    pub skin_tone: SkinTone,
}

impl View for Character {
    type V = CharacterView;

    open spec fn view(&self) -> CharacterView {
        CharacterView {
            name: self.name@,
            gender: self.gender@,
            age: self.age,
            main_hand: self.main_hand,
            skin_tone: self.skin_tone,
        }
    }
}

impl Clone for Character {
    fn clone(&self) -> (r: Self)
        ensures
            r@ == self@,
    {
        Character {
            name: self.name.clone(),
            gender: self.gender.clone(),
            age: self.age,
            main_hand: self.main_hand,
            skin_tone: self.skin_tone,
        }
    }
}

impl Character {
    pub fn new(name: &str, gender: Gender, age: u8, main_hand: MainHand, skin_tone: SkinTone) -> (r: Character)
        ensures
            r.name@ == name@,
            r.gender == gender,
            r.age == age,
            r.main_hand == main_hand,
            r.skin_tone == skin_tone,
    {
        Character { name: String::from_str(name), gender, age, main_hand, skin_tone }
    }
}

/// What an actor has on its body: the decay stage and what it wears.
#[derive(Debug)]
pub struct Body {
    pub freshness: Freshness,
    pub wear: Vec<crate::item::Item>,
}

impl Body {
    /// A body with nothing worn.
    pub fn human(freshness: Freshness) -> (r: Body)
        ensures
            r.freshness == freshness,
            r.wear@.len() == 0,
    {
        Body { freshness, wear: Vec::new() }
    }
}

} // verus!
