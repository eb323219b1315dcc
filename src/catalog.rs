//! The fixed, ordered list of named colours an embed can take.

use vstd::prelude::*;

use crate::text::same_text;

verus! {

/// How many colours the catalogue holds.
pub const CATALOG_LEN: usize = 28;

/// A named colour of the catalogue, in catalogue order.
#[derive(Clone, Copy, Debug, PartialEq, Eq, Hash, Structural)]
pub enum ColorKey {
    BlitzBlue,
    Blue,
    Blurple,
    DarkBlue,
    DarkGold,
    DarkGreen,
    DarkGrey,
    DarkMagenta,
    DarkOrange,
    DarkPurple,
    DarkRed,
    DarkTeal,
    DarkerGrey,
    FabledPink,
    FadedPurple,
    Fooyoo,
    Gold,
    Kerbal,
    LightGrey,
    LighterGrey,
    Magenta,
    MeibePink,
    Orange,
    Purple,
    Red,
    RohrkatzeBlue,
    Rosewater,
    Teal,
}

impl ColorKey {
    /// Position of the colour in the catalogue.
    pub open spec fn rank(self) -> nat {
        match self {
            ColorKey::BlitzBlue => 0,
            ColorKey::Blue => 1,
            ColorKey::Blurple => 2,
            ColorKey::DarkBlue => 3,
            ColorKey::DarkGold => 4,
            ColorKey::DarkGreen => 5,
            ColorKey::DarkGrey => 6,
            ColorKey::DarkMagenta => 7,
            ColorKey::DarkOrange => 8,
            ColorKey::DarkPurple => 9,
            ColorKey::DarkRed => 10,
            ColorKey::DarkTeal => 11,
            ColorKey::DarkerGrey => 12,
            ColorKey::FabledPink => 13,
            ColorKey::FadedPurple => 14,
            ColorKey::Fooyoo => 15,
            ColorKey::Gold => 16,
            ColorKey::Kerbal => 17,
            ColorKey::LightGrey => 18,
            ColorKey::LighterGrey => 19,
            ColorKey::Magenta => 20,
            ColorKey::MeibePink => 21,
            ColorKey::Orange => 22,
            ColorKey::Purple => 23,
            ColorKey::Red => 24,
            ColorKey::RohrkatzeBlue => 25,
            ColorKey::Rosewater => 26,
            ColorKey::Teal => 27,
        }
    }

    /// The symbolic key of the colour, as menus and options carry it.
    pub open spec fn key_text(self) -> Seq<char> {
        match self {
            ColorKey::BlitzBlue => "BLITZ_BLUE"@,
            ColorKey::Blue => "BLUE"@,
            ColorKey::Blurple => "BLURPLE"@,
            ColorKey::DarkBlue => "DARK_BLUE"@,
            ColorKey::DarkGold => "DARK_GOLD"@,
            ColorKey::DarkGreen => "DARK_GREEN"@,
            ColorKey::DarkGrey => "DARK_GREY"@,
            ColorKey::DarkMagenta => "DARK_MAGENTA"@,
            ColorKey::DarkOrange => "DARK_ORANGE"@,
            ColorKey::DarkPurple => "DARK_PURPLE"@,
            ColorKey::DarkRed => "DARK_RED"@,
            ColorKey::DarkTeal => "DARK_TEAL"@,
            ColorKey::DarkerGrey => "DARKER_GREY"@,
            ColorKey::FabledPink => "FABLED_PINK"@,
            ColorKey::FadedPurple => "FADED_PURPLE"@,
            ColorKey::Fooyoo => "FOOYOO"@,
            ColorKey::Gold => "GOLD"@,
            ColorKey::Kerbal => "KERBAL"@,
            ColorKey::LightGrey => "LIGHT_GREY"@,
            ColorKey::LighterGrey => "LIGHTER_GREY"@,
            ColorKey::Magenta => "MAGENTA"@,
            ColorKey::MeibePink => "MEIBE_PINK"@,
            ColorKey::Orange => "ORANGE"@,
            ColorKey::Purple => "PURPLE"@,
            ColorKey::Red => "RED"@,
            ColorKey::RohrkatzeBlue => "ROHRKATZE_BLUE"@,
            ColorKey::Rosewater => "ROSEWATER"@,
            ColorKey::Teal => "TEAL"@,
        }
    }

    /// The name of the colour as it is shown to users.
    pub open spec fn name_text(self) -> Seq<char> {
        match self {
            ColorKey::BlitzBlue => "Blitz Blue"@,
            ColorKey::Blue => "Blue"@,
            ColorKey::Blurple => "Blurple"@,
            ColorKey::DarkBlue => "Dark Blue"@,
            ColorKey::DarkGold => "Dark Gold"@,
            ColorKey::DarkGreen => "Dark Green"@,
            ColorKey::DarkGrey => "Dark Grey"@,
            ColorKey::DarkMagenta => "Dark Magenta"@,
            ColorKey::DarkOrange => "Dark Orange"@,
            ColorKey::DarkPurple => "Dark Purple"@,
            ColorKey::DarkRed => "Dark Red"@,
            ColorKey::DarkTeal => "Dark Teal"@,
            ColorKey::DarkerGrey => "Darker Grey"@,
            ColorKey::FabledPink => "Fabled Pink"@,
            ColorKey::FadedPurple => "Faded Purple"@,
            ColorKey::Fooyoo => "Fooyoo"@,
            ColorKey::Gold => "Gold"@,
            ColorKey::Kerbal => "Kerbal"@,
            ColorKey::LightGrey => "Light Grey"@,
            ColorKey::LighterGrey => "Lighter Grey"@,
            ColorKey::Magenta => "Magenta"@,
            ColorKey::MeibePink => "Meibe Pink"@,
            ColorKey::Orange => "Orange"@,
            ColorKey::Purple => "Purple"@,
            ColorKey::Red => "Red"@,
            ColorKey::RohrkatzeBlue => "Rohrkatze Blue"@,
            ColorKey::Rosewater => "Rosewater"@,
            ColorKey::Teal => "Teal"@,
        }
    }

    /// Whether `v` is the symbolic key or the shown name of the colour.
    pub open spec fn called(self, v: Seq<char>) -> bool {
        self.key_text() == v || self.name_text() == v
    }

    /// The colour at position `i` of the catalogue.
    pub fn from_rank(i: usize) -> (r: ColorKey)
        requires
            i < CATALOG_LEN,
        ensures
            r.rank() == i,
            r == color_at(i as int),
    {
        let r = if i == 0 {
            ColorKey::BlitzBlue
        } else if i == 1 {
            ColorKey::Blue
        } else if i == 2 {
            ColorKey::Blurple
        } else if i == 3 {
            ColorKey::DarkBlue
        } else if i == 4 {
            ColorKey::DarkGold
        } else if i == 5 {
            ColorKey::DarkGreen
        } else if i == 6 {
            ColorKey::DarkGrey
        } else if i == 7 {
            ColorKey::DarkMagenta
        } else if i == 8 {
            ColorKey::DarkOrange
        } else if i == 9 {
            ColorKey::DarkPurple
        } else if i == 10 {
            ColorKey::DarkRed
        } else if i == 11 {
            ColorKey::DarkTeal
        } else if i == 12 {
            ColorKey::DarkerGrey
        } else if i == 13 {
            ColorKey::FabledPink
        } else if i == 14 {
            ColorKey::FadedPurple
        } else if i == 15 {
            ColorKey::Fooyoo
        } else if i == 16 {
            ColorKey::Gold
        } else if i == 17 {
            ColorKey::Kerbal
        } else if i == 18 {
            ColorKey::LightGrey
        } else if i == 19 {
            ColorKey::LighterGrey
        } else if i == 20 {
            ColorKey::Magenta
        } else if i == 21 {
            ColorKey::MeibePink
        } else if i == 22 {
            ColorKey::Orange
        } else if i == 23 {
            ColorKey::Purple
        } else if i == 24 {
            ColorKey::Red
        } else if i == 25 {
            ColorKey::RohrkatzeBlue
        } else if i == 26 {
            ColorKey::Rosewater
        } else {
            ColorKey::Teal
        };
        proof {
            lemma_rank_injective(r, color_at(i as int));
        }
        r
    }

    /// Position of the colour in the catalogue.
    pub fn index(self) -> (r: usize)
        ensures
            r == self.rank(),
            r < CATALOG_LEN,
    {
        match self {
            ColorKey::BlitzBlue => 0,
            ColorKey::Blue => 1,
            ColorKey::Blurple => 2,
            ColorKey::DarkBlue => 3,
            ColorKey::DarkGold => 4,
            ColorKey::DarkGreen => 5,
            ColorKey::DarkGrey => 6,
            ColorKey::DarkMagenta => 7,
            ColorKey::DarkOrange => 8,
            ColorKey::DarkPurple => 9,
            ColorKey::DarkRed => 10,
            ColorKey::DarkTeal => 11,
            ColorKey::DarkerGrey => 12,
            ColorKey::FabledPink => 13,
            ColorKey::FadedPurple => 14,
            ColorKey::Fooyoo => 15,
            ColorKey::Gold => 16,
            ColorKey::Kerbal => 17,
            ColorKey::LightGrey => 18,
            ColorKey::LighterGrey => 19,
            ColorKey::Magenta => 20,
            ColorKey::MeibePink => 21,
            ColorKey::Orange => 22,
            ColorKey::Purple => 23,
            ColorKey::Red => 24,
            ColorKey::RohrkatzeBlue => 25,
            ColorKey::Rosewater => 26,
            ColorKey::Teal => 27,
        }
    }

    /// The symbolic key of the colour.
    pub fn key(self) -> (r: &'static str)
        ensures
            r@ == self.key_text(),
    {
        match self {
            ColorKey::BlitzBlue => "BLITZ_BLUE",
            ColorKey::Blue => "BLUE",
            ColorKey::Blurple => "BLURPLE",
            ColorKey::DarkBlue => "DARK_BLUE",
            ColorKey::DarkGold => "DARK_GOLD",
            ColorKey::DarkGreen => "DARK_GREEN",
            ColorKey::DarkGrey => "DARK_GREY",
            ColorKey::DarkMagenta => "DARK_MAGENTA",
            ColorKey::DarkOrange => "DARK_ORANGE",
            ColorKey::DarkPurple => "DARK_PURPLE",
            ColorKey::DarkRed => "DARK_RED",
            ColorKey::DarkTeal => "DARK_TEAL",
            ColorKey::DarkerGrey => "DARKER_GREY",
            ColorKey::FabledPink => "FABLED_PINK",
            ColorKey::FadedPurple => "FADED_PURPLE",
            ColorKey::Fooyoo => "FOOYOO",
            ColorKey::Gold => "GOLD",
            ColorKey::Kerbal => "KERBAL",
            ColorKey::LightGrey => "LIGHT_GREY",
            ColorKey::LighterGrey => "LIGHTER_GREY",
            ColorKey::Magenta => "MAGENTA",
            ColorKey::MeibePink => "MEIBE_PINK",
            ColorKey::Orange => "ORANGE",
            ColorKey::Purple => "PURPLE",
            ColorKey::Red => "RED",
            ColorKey::RohrkatzeBlue => "ROHRKATZE_BLUE",
            ColorKey::Rosewater => "ROSEWATER",
            ColorKey::Teal => "TEAL",
        }
    }

    /// The name of the colour as it is shown to users.
    pub fn name(self) -> (r: &'static str)
        ensures
            r@ == self.name_text(),
    {
        match self {
            ColorKey::BlitzBlue => "Blitz Blue",
            ColorKey::Blue => "Blue",
            ColorKey::Blurple => "Blurple",
            ColorKey::DarkBlue => "Dark Blue",
            ColorKey::DarkGold => "Dark Gold",
            ColorKey::DarkGreen => "Dark Green",
            ColorKey::DarkGrey => "Dark Grey",
            ColorKey::DarkMagenta => "Dark Magenta",
            ColorKey::DarkOrange => "Dark Orange",
            ColorKey::DarkPurple => "Dark Purple",
            ColorKey::DarkRed => "Dark Red",
            ColorKey::DarkTeal => "Dark Teal",
            ColorKey::DarkerGrey => "Darker Grey",
            ColorKey::FabledPink => "Fabled Pink",
            ColorKey::FadedPurple => "Faded Purple",
            ColorKey::Fooyoo => "Fooyoo",
            ColorKey::Gold => "Gold",
            ColorKey::Kerbal => "Kerbal",
            ColorKey::LightGrey => "Light Grey",
            ColorKey::LighterGrey => "Lighter Grey",
            ColorKey::Magenta => "Magenta",
            ColorKey::MeibePink => "Meibe Pink",
            ColorKey::Orange => "Orange",
            ColorKey::Purple => "Purple",
            ColorKey::Red => "Red",
            ColorKey::RohrkatzeBlue => "Rohrkatze Blue",
            ColorKey::Rosewater => "Rosewater",
            ColorKey::Teal => "Teal",
        }
    }
}

/// The colour whose symbolic key is `v`, if there is one.
pub open spec fn color_with_key(v: Seq<char>) -> Option<ColorKey> {
    if exists|k: ColorKey| #[trigger] k.key_text() == v {
        Some(choose|k: ColorKey| #[trigger] k.key_text() == v)
    } else {
        None
    }
}

/// Two colours at the same position are the same colour.
pub proof fn lemma_rank_injective(a: ColorKey, b: ColorKey)
    ensures
        a.rank() == b.rank() ==> a == b,
{
}

/// No two colours share a symbolic key.
pub proof fn lemma_keys_distinct(a: ColorKey, b: ColorKey)
    ensures
        a.key_text() == b.key_text() ==> a == b,
{
    if a.key_text() == b.key_text() {
        reveal_strlit("BLITZ_BLUE");
        reveal_strlit("BLUE");
        reveal_strlit("BLURPLE");
        reveal_strlit("DARK_BLUE");
        reveal_strlit("DARK_GOLD");
        reveal_strlit("DARK_GREEN");
        reveal_strlit("DARK_GREY");
        reveal_strlit("DARK_MAGENTA");
        reveal_strlit("DARK_ORANGE");
        reveal_strlit("DARK_PURPLE");
        reveal_strlit("DARK_RED");
        reveal_strlit("DARK_TEAL");
        reveal_strlit("DARKER_GREY");
        reveal_strlit("FABLED_PINK");
        reveal_strlit("FADED_PURPLE");
        reveal_strlit("FOOYOO");
        reveal_strlit("GOLD");
        reveal_strlit("KERBAL");
        reveal_strlit("LIGHT_GREY");
        reveal_strlit("LIGHTER_GREY");
        reveal_strlit("MAGENTA");
        reveal_strlit("MEIBE_PINK");
        reveal_strlit("ORANGE");
        reveal_strlit("PURPLE");
        reveal_strlit("RED");
        reveal_strlit("ROHRKATZE_BLUE");
        reveal_strlit("ROSEWATER");
        reveal_strlit("TEAL");
        // Position by position, the texts tell every two colours apart.
        assert(a.key_text().len() == b.key_text().len());
        if 0 < a.key_text().len() {
            assert(a.key_text()[0] == b.key_text()[0]);
        }
        if 1 < a.key_text().len() {
            assert(a.key_text()[1] == b.key_text()[1]);
        }
        if 2 < a.key_text().len() {
            assert(a.key_text()[2] == b.key_text()[2]);
        }
        if 3 < a.key_text().len() {
            assert(a.key_text()[3] == b.key_text()[3]);
        }
        if 4 < a.key_text().len() {
            assert(a.key_text()[4] == b.key_text()[4]);
        }
        if 5 < a.key_text().len() {
            assert(a.key_text()[5] == b.key_text()[5]);
        }
        if 6 < a.key_text().len() {
            assert(a.key_text()[6] == b.key_text()[6]);
        }
        if 7 < a.key_text().len() {
            assert(a.key_text()[7] == b.key_text()[7]);
        }
        if 8 < a.key_text().len() {
            assert(a.key_text()[8] == b.key_text()[8]);
        }
        if 9 < a.key_text().len() {
            assert(a.key_text()[9] == b.key_text()[9]);
        }
        if 10 < a.key_text().len() {
            assert(a.key_text()[10] == b.key_text()[10]);
        }
        if 11 < a.key_text().len() {
            assert(a.key_text()[11] == b.key_text()[11]);
        }
        if 12 < a.key_text().len() {
            assert(a.key_text()[12] == b.key_text()[12]);
        }
        if 13 < a.key_text().len() {
            assert(a.key_text()[13] == b.key_text()[13]);
        }
    }
}

/// No two colours share a shown name.
pub proof fn lemma_names_distinct(a: ColorKey, b: ColorKey)
    ensures
        a.name_text() == b.name_text() ==> a == b,
{
    if a.name_text() == b.name_text() {
        reveal_strlit("Blitz Blue");
        reveal_strlit("Blue");
        reveal_strlit("Blurple");
        reveal_strlit("Dark Blue");
        reveal_strlit("Dark Gold");
        reveal_strlit("Dark Green");
        reveal_strlit("Dark Grey");
        reveal_strlit("Dark Magenta");
        reveal_strlit("Dark Orange");
        reveal_strlit("Dark Purple");
        reveal_strlit("Dark Red");
        reveal_strlit("Dark Teal");
        reveal_strlit("Darker Grey");
        reveal_strlit("Fabled Pink");
        reveal_strlit("Faded Purple");
        reveal_strlit("Fooyoo");
        reveal_strlit("Gold");
        reveal_strlit("Kerbal");
        reveal_strlit("Light Grey");
        reveal_strlit("Lighter Grey");
        reveal_strlit("Magenta");
        reveal_strlit("Meibe Pink");
        reveal_strlit("Orange");
        reveal_strlit("Purple");
        reveal_strlit("Red");
        reveal_strlit("Rohrkatze Blue");
        reveal_strlit("Rosewater");
        reveal_strlit("Teal");
        // Position by position, the texts tell every two colours apart.
        assert(a.name_text().len() == b.name_text().len());
        if 0 < a.name_text().len() {
            assert(a.name_text()[0] == b.name_text()[0]);
        }
        if 1 < a.name_text().len() {
            assert(a.name_text()[1] == b.name_text()[1]);
        }
        if 2 < a.name_text().len() {
            assert(a.name_text()[2] == b.name_text()[2]);
        }
        if 3 < a.name_text().len() {
            assert(a.name_text()[3] == b.name_text()[3]);
        }
        if 4 < a.name_text().len() {
            assert(a.name_text()[4] == b.name_text()[4]);
        }
        if 5 < a.name_text().len() {
            assert(a.name_text()[5] == b.name_text()[5]);
        }
        if 6 < a.name_text().len() {
            assert(a.name_text()[6] == b.name_text()[6]);
        }
        if 7 < a.name_text().len() {
            assert(a.name_text()[7] == b.name_text()[7]);
        }
        if 8 < a.name_text().len() {
            assert(a.name_text()[8] == b.name_text()[8]);
        }
        if 9 < a.name_text().len() {
            assert(a.name_text()[9] == b.name_text()[9]);
        }
        if 10 < a.name_text().len() {
            assert(a.name_text()[10] == b.name_text()[10]);
        }
        if 11 < a.name_text().len() {
            assert(a.name_text()[11] == b.name_text()[11]);
        }
        if 12 < a.name_text().len() {
            assert(a.name_text()[12] == b.name_text()[12]);
        }
        if 13 < a.name_text().len() {
            assert(a.name_text()[13] == b.name_text()[13]);
        }
    }
}

/// No symbolic key is also a shown name.
pub proof fn lemma_keys_are_not_names(a: ColorKey, b: ColorKey)
    ensures
        a.key_text() != b.name_text(),
{
        reveal_strlit("Blitz Blue");
        reveal_strlit("Blue");
        reveal_strlit("Blurple");
        reveal_strlit("Dark Blue");
        reveal_strlit("Dark Gold");
        reveal_strlit("Dark Green");
        reveal_strlit("Dark Grey");
        reveal_strlit("Dark Magenta");
        reveal_strlit("Dark Orange");
        reveal_strlit("Dark Purple");
        reveal_strlit("Dark Red");
        reveal_strlit("Dark Teal");
        reveal_strlit("Darker Grey");
        reveal_strlit("Fabled Pink");
        reveal_strlit("Faded Purple");
        reveal_strlit("Fooyoo");
        reveal_strlit("Gold");
        reveal_strlit("Kerbal");
        reveal_strlit("Light Grey");
        reveal_strlit("Lighter Grey");
        reveal_strlit("Magenta");
        reveal_strlit("Meibe Pink");
        reveal_strlit("Orange");
        reveal_strlit("Purple");
        reveal_strlit("Red");
        reveal_strlit("Rohrkatze Blue");
        reveal_strlit("Rosewater");
        reveal_strlit("Teal");
        reveal_strlit("BLITZ_BLUE");
        reveal_strlit("BLUE");
        reveal_strlit("BLURPLE");
        reveal_strlit("DARK_BLUE");
        reveal_strlit("DARK_GOLD");
        reveal_strlit("DARK_GREEN");
        reveal_strlit("DARK_GREY");
        reveal_strlit("DARK_MAGENTA");
        reveal_strlit("DARK_ORANGE");
        reveal_strlit("DARK_PURPLE");
        reveal_strlit("DARK_RED");
        reveal_strlit("DARK_TEAL");
        reveal_strlit("DARKER_GREY");
        reveal_strlit("FABLED_PINK");
        reveal_strlit("FADED_PURPLE");
        reveal_strlit("FOOYOO");
        reveal_strlit("GOLD");
        reveal_strlit("KERBAL");
        reveal_strlit("LIGHT_GREY");
        reveal_strlit("LIGHTER_GREY");
        reveal_strlit("MAGENTA");
        reveal_strlit("MEIBE_PINK");
        reveal_strlit("ORANGE");
        reveal_strlit("PURPLE");
        reveal_strlit("RED");
        reveal_strlit("ROHRKATZE_BLUE");
        reveal_strlit("ROSEWATER");
        reveal_strlit("TEAL");
    // A key is upper case from its second character on; a name is not.
    assert(a.key_text()[1] != b.name_text()[1]);
}

/// No two colours answer to the same text.
pub proof fn lemma_called_unique(a: ColorKey, b: ColorKey, v: Seq<char>)
    ensures
        a.called(v) && b.called(v) ==> a == b,
{
    lemma_keys_distinct(a, b);
    lemma_names_distinct(a, b);
    lemma_keys_are_not_names(a, b);
    lemma_keys_are_not_names(b, a);
}

/// The colour at position `i` of the catalogue.
pub open spec fn color_at(i: int) -> ColorKey {
    choose|k: ColorKey| k.rank() == i
}

/// The colour whose symbolic key or shown name is `v`, if there is one.
pub open spec fn color_named(v: Seq<char>) -> Option<ColorKey> {
    if exists|k: ColorKey| #[trigger] k.called(v) {
        Some(choose|k: ColorKey| #[trigger] k.called(v))
    } else {
        None
    }
}

/// The colour whose position lies in `start..end` and whose symbolic key is
/// `value`, if there is one.
pub fn find_key(value: &str, start: usize, end: usize) -> (r: Option<ColorKey>)
    requires
        end <= CATALOG_LEN,
    ensures
        r matches Some(k) ==> start <= k.rank() < end && k.key_text() == value@,
        r is None ==> forall|k: ColorKey|
            start <= k.rank() < end ==> #[trigger] k.key_text() != value@,
{
    let mut i: usize = start;
    while i < end
        invariant
            start <= i,
            end <= CATALOG_LEN,
            forall|k: ColorKey| start <= k.rank() < i ==> #[trigger] k.key_text() != value@,
        decreases end - i,
    {
        let c = ColorKey::from_rank(i);
        if same_text(c.key(), value) {
            return Some(c);
        }
        proof {
            assert forall|k: ColorKey| k.rank() == i implies #[trigger] k.key_text() != value@ by {
                lemma_rank_injective(k, c);
            }
        }
        i += 1;
    }
    None
}

/// The colour whose symbolic key or shown name is `value`, if there is one.
pub fn find_key_or_name(value: &str) -> (r: Option<ColorKey>)
    ensures
        r == color_named(value@),
{
    let mut i: usize = 0;
    while i < CATALOG_LEN
        invariant
            forall|k: ColorKey|
                k.rank() < i ==> #[trigger] k.key_text() != value@ && k.name_text() != value@,
        decreases CATALOG_LEN - i,
    {
        let c = ColorKey::from_rank(i);
        if same_text(c.key(), value) || same_text(c.name(), value) {
            proof {
                assert(c.called(value@));
                lemma_called_unique(c, choose|k: ColorKey| #[trigger] k.called(value@), value@);
            }
            return Some(c);
        }
        proof {
            assert forall|k: ColorKey| k.rank() == i implies #[trigger] k.key_text() != value@
                && k.name_text() != value@ by {
                lemma_rank_injective(k, c);
            }
        }
        i += 1;
    }
    None
}

} // verus!
