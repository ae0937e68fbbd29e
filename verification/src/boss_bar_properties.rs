//! The properties of a boss bar: its color, its overlay and its flags.
use crate::team_color::FormatColor;
use crate::text::str_eq;
use vstd::prelude::*;

verus! {

/// Represents the color of a boss bar.
#[derive(Debug, Copy, Clone, PartialEq, Eq, Structural)]
pub enum BossBarColor {
    /// Represents the pink boss bar color.
    Pink,
    /// Represents the blue boss bar color.
    Blue,
    /// Represents the red boss bar color.
    Red,
    /// Represents the green boss bar color.
    Green,
    /// Represents the yellow boss bar color.
    Yellow,
    /// Represents the purple boss bar color.
    Purple,
    /// Represents the white boss bar color.
    White,
}

impl BossBarColor {
    /// The name of a color.
    pub open spec fn spec_name(self) -> Seq<char> {
        match self {
            BossBarColor::Pink => "pink"@,
            BossBarColor::Blue => "blue"@,
            BossBarColor::Red => "red"@,
            BossBarColor::Green => "green"@,
            BossBarColor::Yellow => "yellow"@,
            BossBarColor::Purple => "purple"@,
            BossBarColor::White => "white"@,
        }
    }

    /// The number that identifies a color on the wire.
    pub open spec fn spec_id(self) -> int {
        match self {
            BossBarColor::Pink => 0,
            BossBarColor::Blue => 1,
            BossBarColor::Red => 2,
            BossBarColor::Green => 3,
            BossBarColor::Yellow => 4,
            BossBarColor::Purple => 5,
            BossBarColor::White => 6,
        }
    }

    /// The formatting color of a color.
    pub open spec fn spec_color(self) -> FormatColor {
        match self {
            BossBarColor::Pink => FormatColor::Red,
            BossBarColor::Blue => FormatColor::Blue,
            BossBarColor::Red => FormatColor::DarkRed,
            BossBarColor::Green => FormatColor::Green,
            BossBarColor::Yellow => FormatColor::Yellow,
            BossBarColor::Purple => FormatColor::DarkBlue,
            BossBarColor::White => FormatColor::White,
        }
    }

    /// All the possible colors of a boss bar, in order of ID.
    pub fn values() -> (r: Vec<BossBarColor>)
        ensures
            r@.len() == 7,
            forall|i: int| 0 <= i < 7 ==> (#[trigger] r@[i]).spec_id() == i,
    {
        vec![
            BossBarColor::Pink,
            BossBarColor::Blue,
            BossBarColor::Red,
            BossBarColor::Green,
            BossBarColor::Yellow,
            BossBarColor::Purple,
            BossBarColor::White,
        ]
    }

    /// Gets the name of this color.
    pub fn name(self) -> (r: &'static str)
        ensures
            r@ == self.spec_name(),
    {
        match self {
            BossBarColor::Pink => "pink",
            BossBarColor::Blue => "blue",
            BossBarColor::Red => "red",
            BossBarColor::Green => "green",
            BossBarColor::Yellow => "yellow",
            BossBarColor::Purple => "purple",
            BossBarColor::White => "white",
        }
    }

    /// Gets the formatting color of this color.
    pub fn color(self) -> (r: FormatColor)
        ensures
            r == self.spec_color(),
    {
        match self {
            BossBarColor::Pink => FormatColor::Red,
            BossBarColor::Blue => FormatColor::Blue,
            BossBarColor::Red => FormatColor::DarkRed,
            BossBarColor::Green => FormatColor::Green,
            BossBarColor::Yellow => FormatColor::Yellow,
            BossBarColor::Purple => FormatColor::DarkBlue,
            BossBarColor::White => FormatColor::White,
        }
    }

    /// The number that identifies this color on the wire.
    pub fn id(self) -> (r: i32)
        ensures
            r == self.spec_id(),
    {
        match self {
            BossBarColor::Pink => 0,
            BossBarColor::Blue => 1,
            BossBarColor::Red => 2,
            BossBarColor::Green => 3,
            BossBarColor::Yellow => 4,
            BossBarColor::Purple => 5,
            BossBarColor::White => 6,
        }
    }
}

/// Different colors have different names and IDs.
pub proof fn lemma_boss_bar_color_names_distinct(a: BossBarColor, b: BossBarColor)
    ensures
        a != b ==> a.spec_name() != b.spec_name(),
        a != b ==> a.spec_id() != b.spec_id(),
{
    reveal_strlit("pink");
    reveal_strlit("blue");
    reveal_strlit("red");
    reveal_strlit("green");
    reveal_strlit("yellow");
    reveal_strlit("purple");
    reveal_strlit("white");
    match (a, b) {
        (BossBarColor::Pink, BossBarColor::Blue) => {
            assert(a.spec_name()[0] != b.spec_name()[0]);
        },
        (BossBarColor::Pink, BossBarColor::Red) => {
            assert(a.spec_name().len() != b.spec_name().len());
        },
        (BossBarColor::Pink, BossBarColor::Green) => {
            assert(a.spec_name().len() != b.spec_name().len());
        },
        (BossBarColor::Pink, BossBarColor::Yellow) => {
            assert(a.spec_name().len() != b.spec_name().len());
        },
        (BossBarColor::Pink, BossBarColor::Purple) => {
            assert(a.spec_name().len() != b.spec_name().len());
        },
        (BossBarColor::Pink, BossBarColor::White) => {
            assert(a.spec_name().len() != b.spec_name().len());
        },
        (BossBarColor::Blue, BossBarColor::Pink) => {
            assert(a.spec_name()[0] != b.spec_name()[0]);
        },
        (BossBarColor::Blue, BossBarColor::Red) => {
            assert(a.spec_name().len() != b.spec_name().len());
        },
        (BossBarColor::Blue, BossBarColor::Green) => {
            assert(a.spec_name().len() != b.spec_name().len());
        },
        (BossBarColor::Blue, BossBarColor::Yellow) => {
            assert(a.spec_name().len() != b.spec_name().len());
        },
        (BossBarColor::Blue, BossBarColor::Purple) => {
            assert(a.spec_name().len() != b.spec_name().len());
        },
        (BossBarColor::Blue, BossBarColor::White) => {
            assert(a.spec_name().len() != b.spec_name().len());
        },
        (BossBarColor::Red, BossBarColor::Pink) => {
            assert(a.spec_name().len() != b.spec_name().len());
        },
        (BossBarColor::Red, BossBarColor::Blue) => {
            assert(a.spec_name().len() != b.spec_name().len());
        },
        (BossBarColor::Red, BossBarColor::Green) => {
            assert(a.spec_name().len() != b.spec_name().len());
        },
        (BossBarColor::Red, BossBarColor::Yellow) => {
            assert(a.spec_name().len() != b.spec_name().len());
        },
        (BossBarColor::Red, BossBarColor::Purple) => {
            assert(a.spec_name().len() != b.spec_name().len());
        },
        (BossBarColor::Red, BossBarColor::White) => {
            assert(a.spec_name().len() != b.spec_name().len());
        },
        (BossBarColor::Green, BossBarColor::Pink) => {
            assert(a.spec_name().len() != b.spec_name().len());
        },
        (BossBarColor::Green, BossBarColor::Blue) => {
            assert(a.spec_name().len() != b.spec_name().len());
        },
        (BossBarColor::Green, BossBarColor::Red) => {
            assert(a.spec_name().len() != b.spec_name().len());
        },
        (BossBarColor::Green, BossBarColor::Yellow) => {
            assert(a.spec_name().len() != b.spec_name().len());
        },
        (BossBarColor::Green, BossBarColor::Purple) => {
            assert(a.spec_name().len() != b.spec_name().len());
        },
        (BossBarColor::Green, BossBarColor::White) => {
            assert(a.spec_name()[0] != b.spec_name()[0]);
        },
        (BossBarColor::Yellow, BossBarColor::Pink) => {
            assert(a.spec_name().len() != b.spec_name().len());
        },
        (BossBarColor::Yellow, BossBarColor::Blue) => {
            assert(a.spec_name().len() != b.spec_name().len());
        },
        (BossBarColor::Yellow, BossBarColor::Red) => {
            assert(a.spec_name().len() != b.spec_name().len());
        },
        (BossBarColor::Yellow, BossBarColor::Green) => {
            assert(a.spec_name().len() != b.spec_name().len());
        },
        (BossBarColor::Yellow, BossBarColor::Purple) => {
            assert(a.spec_name()[0] != b.spec_name()[0]);
        },
        (BossBarColor::Yellow, BossBarColor::White) => {
            assert(a.spec_name().len() != b.spec_name().len());
        },
        (BossBarColor::Purple, BossBarColor::Pink) => {
            assert(a.spec_name().len() != b.spec_name().len());
        },
        (BossBarColor::Purple, BossBarColor::Blue) => {
            assert(a.spec_name().len() != b.spec_name().len());
        },
        (BossBarColor::Purple, BossBarColor::Red) => {
            assert(a.spec_name().len() != b.spec_name().len());
        },
        (BossBarColor::Purple, BossBarColor::Green) => {
            assert(a.spec_name().len() != b.spec_name().len());
        },
        (BossBarColor::Purple, BossBarColor::Yellow) => {
            assert(a.spec_name()[0] != b.spec_name()[0]);
        },
        (BossBarColor::Purple, BossBarColor::White) => {
            assert(a.spec_name().len() != b.spec_name().len());
        },
        (BossBarColor::White, BossBarColor::Pink) => {
            assert(a.spec_name().len() != b.spec_name().len());
        },
        (BossBarColor::White, BossBarColor::Blue) => {
            assert(a.spec_name().len() != b.spec_name().len());
        },
        (BossBarColor::White, BossBarColor::Red) => {
            assert(a.spec_name().len() != b.spec_name().len());
        },
        (BossBarColor::White, BossBarColor::Green) => {
            assert(a.spec_name()[0] != b.spec_name()[0]);
        },
        (BossBarColor::White, BossBarColor::Yellow) => {
            assert(a.spec_name().len() != b.spec_name().len());
        },
        (BossBarColor::White, BossBarColor::Purple) => {
            assert(a.spec_name().len() != b.spec_name().len());
        },
        _ => {},
    }
}

/// The name and wire number of each boss bar color, as the game knows
/// them: pink 0, blue 1, red 2, green 3, yellow 4, purple 5, white 6.
pub proof fn lemma_boss_bar_color_table(c: BossBarColor)
    ensures
        c == BossBarColor::Pink ==> c.spec_name() == "pink"@ && c.spec_id() == 0,
        c == BossBarColor::Blue ==> c.spec_name() == "blue"@ && c.spec_id() == 1,
        c == BossBarColor::Red ==> c.spec_name() == "red"@ && c.spec_id() == 2,
        c == BossBarColor::Green ==> c.spec_name() == "green"@ && c.spec_id() == 3,
        c == BossBarColor::Yellow ==> c.spec_name() == "yellow"@ && c.spec_id() == 4,
        c == BossBarColor::Purple ==> c.spec_name() == "purple"@ && c.spec_id() == 5,
        c == BossBarColor::White ==> c.spec_name() == "white"@ && c.spec_id() == 6,
{
}

/// The formatting color of each boss bar color, as the game renders it:
/// pink as red, blue as blue, red as dark red, green as green, yellow as
/// yellow, purple as dark blue and white as white.
pub proof fn lemma_boss_bar_format_colors(c: BossBarColor)
    ensures
        c == BossBarColor::Pink ==> c.spec_color() == FormatColor::Red,
        c == BossBarColor::Blue ==> c.spec_color() == FormatColor::Blue,
        c == BossBarColor::Red ==> c.spec_color() == FormatColor::DarkRed,
        c == BossBarColor::Green ==> c.spec_color() == FormatColor::Green,
        c == BossBarColor::Yellow ==> c.spec_color() == FormatColor::Yellow,
        c == BossBarColor::Purple ==> c.spec_color() == FormatColor::DarkBlue,
        c == BossBarColor::White ==> c.spec_color() == FormatColor::White,
{
}

/// Different boss bar colors format text in different colors, and the
/// colors named in both sets (blue, green, yellow, white) keep their name.
pub proof fn lemma_boss_bar_colors_format_distinctly(a: BossBarColor, b: BossBarColor)
    ensures
        a != b ==> a.spec_color() != b.spec_color(),
        a == BossBarColor::Blue || a == BossBarColor::Green || a == BossBarColor::Yellow || a
            == BossBarColor::White ==> a.spec_color().spec_name() == a.spec_name(),
{
}

/// Represents the overlay of a boss bar.
#[derive(Debug, Copy, Clone, PartialEq, Eq, Structural)]
pub enum BossBarOverlay {
    /// Represents an overlay without any notches.
    Progress,
    /// Represents an overlay with 6 notches.
    Notched6,
    /// Represents an overlay with 10 notches.
    Notched10,
    /// Represents an overlay with 12 notches.
    Notched12,
    /// Represents an overlay with 20 notches.
    Notched20,
}

impl BossBarOverlay {
    /// The name of an overlay.
    pub open spec fn spec_name(self) -> Seq<char> {
        match self {
            BossBarOverlay::Progress => "progress"@,
            BossBarOverlay::Notched6 => "notched_6"@,
            BossBarOverlay::Notched10 => "notched_10"@,
            BossBarOverlay::Notched12 => "notched_12"@,
            BossBarOverlay::Notched20 => "notched_20"@,
        }
    }

    /// The number that identifies an overlay on the wire.
    pub open spec fn spec_id(self) -> int {
        match self {
            BossBarOverlay::Progress => 0,
            BossBarOverlay::Notched6 => 1,
            BossBarOverlay::Notched10 => 2,
            BossBarOverlay::Notched12 => 3,
            BossBarOverlay::Notched20 => 4,
        }
    }

    /// All the possible overlays of a boss bar, in order of ID.
    pub fn values() -> (r: Vec<BossBarOverlay>)
        ensures
            r@.len() == 5,
            forall|i: int| 0 <= i < 5 ==> (#[trigger] r@[i]).spec_id() == i,
    {
        vec![
            BossBarOverlay::Progress,
            BossBarOverlay::Notched6,
            BossBarOverlay::Notched10,
            BossBarOverlay::Notched12,
            BossBarOverlay::Notched20,
        ]
    }

    /// Gets the name of this overlay.
    pub fn name(self) -> (r: &'static str)
        ensures
            r@ == self.spec_name(),
    {
        match self {
            BossBarOverlay::Progress => "progress",
            BossBarOverlay::Notched6 => "notched_6",
            BossBarOverlay::Notched10 => "notched_10",
            BossBarOverlay::Notched12 => "notched_12",
            BossBarOverlay::Notched20 => "notched_20",
        }
    }

    /// The number that identifies this overlay on the wire.
    pub fn id(self) -> (r: i32)
        ensures
            r == self.spec_id(),
    {
        match self {
            BossBarOverlay::Progress => 0,
            BossBarOverlay::Notched6 => 1,
            BossBarOverlay::Notched10 => 2,
            BossBarOverlay::Notched12 => 3,
            BossBarOverlay::Notched20 => 4,
        }
    }
}

/// The name and wire number of each overlay, as the game knows them: a
/// plain bar is "progress" (0), and a bar cut into N segments is
/// "notched_N" (6, 10, 12 and 20 segments are 1 to 4).
pub proof fn lemma_boss_bar_overlay_table(o: BossBarOverlay)
    ensures
        o == BossBarOverlay::Progress ==> o.spec_name() == "progress"@ && o.spec_id() == 0,
        o == BossBarOverlay::Notched6 ==> o.spec_name() == "notched_6"@ && o.spec_id() == 1,
        o == BossBarOverlay::Notched10 ==> o.spec_name() == "notched_10"@ && o.spec_id() == 2,
        o == BossBarOverlay::Notched12 ==> o.spec_name() == "notched_12"@ && o.spec_id() == 3,
        o == BossBarOverlay::Notched20 ==> o.spec_name() == "notched_20"@ && o.spec_id() == 4,
{
}

/// Different overlays have different names and IDs.
pub proof fn lemma_boss_bar_overlay_names_distinct(a: BossBarOverlay, b: BossBarOverlay)
    ensures
        a != b ==> a.spec_name() != b.spec_name(),
        a != b ==> a.spec_id() != b.spec_id(),
{
    reveal_strlit("progress");
    reveal_strlit("notched_6");
    reveal_strlit("notched_10");
    reveal_strlit("notched_12");
    reveal_strlit("notched_20");
    match (a, b) {
        (BossBarOverlay::Progress, BossBarOverlay::Notched6) => {
            assert(a.spec_name().len() != b.spec_name().len());
        },
        (BossBarOverlay::Progress, BossBarOverlay::Notched10) => {
            assert(a.spec_name().len() != b.spec_name().len());
        },
        (BossBarOverlay::Progress, BossBarOverlay::Notched12) => {
            assert(a.spec_name().len() != b.spec_name().len());
        },
        (BossBarOverlay::Progress, BossBarOverlay::Notched20) => {
            assert(a.spec_name().len() != b.spec_name().len());
        },
        (BossBarOverlay::Notched6, BossBarOverlay::Progress) => {
            assert(a.spec_name().len() != b.spec_name().len());
        },
        (BossBarOverlay::Notched6, BossBarOverlay::Notched10) => {
            assert(a.spec_name().len() != b.spec_name().len());
        },
        (BossBarOverlay::Notched6, BossBarOverlay::Notched12) => {
            assert(a.spec_name().len() != b.spec_name().len());
        },
        (BossBarOverlay::Notched6, BossBarOverlay::Notched20) => {
            assert(a.spec_name().len() != b.spec_name().len());
        },
        (BossBarOverlay::Notched10, BossBarOverlay::Progress) => {
            assert(a.spec_name().len() != b.spec_name().len());
        },
        (BossBarOverlay::Notched10, BossBarOverlay::Notched6) => {
            assert(a.spec_name().len() != b.spec_name().len());
        },
        (BossBarOverlay::Notched10, BossBarOverlay::Notched12) => {
            assert(a.spec_name()[9] != b.spec_name()[9]);
        },
        (BossBarOverlay::Notched10, BossBarOverlay::Notched20) => {
            assert(a.spec_name()[8] != b.spec_name()[8]);
        },
        (BossBarOverlay::Notched12, BossBarOverlay::Progress) => {
            assert(a.spec_name().len() != b.spec_name().len());
        },
        (BossBarOverlay::Notched12, BossBarOverlay::Notched6) => {
            assert(a.spec_name().len() != b.spec_name().len());
        },
        (BossBarOverlay::Notched12, BossBarOverlay::Notched10) => {
            assert(a.spec_name()[9] != b.spec_name()[9]);
        },
        (BossBarOverlay::Notched12, BossBarOverlay::Notched20) => {
            assert(a.spec_name()[8] != b.spec_name()[8]);
        },
        (BossBarOverlay::Notched20, BossBarOverlay::Progress) => {
            assert(a.spec_name().len() != b.spec_name().len());
        },
        (BossBarOverlay::Notched20, BossBarOverlay::Notched6) => {
            assert(a.spec_name().len() != b.spec_name().len());
        },
        (BossBarOverlay::Notched20, BossBarOverlay::Notched10) => {
            assert(a.spec_name()[8] != b.spec_name()[8]);
        },
        (BossBarOverlay::Notched20, BossBarOverlay::Notched12) => {
            assert(a.spec_name()[8] != b.spec_name()[8]);
        },
        _ => {},
    }
}

/// The bit of the flag that darkens the player's screen.
pub const DARKEN_SCREEN_BIT: u8 = 1u8;

/// The bit of the flag that plays boss music.
pub const PLAY_BOSS_MUSIC_BIT: u8 = 2u8;

/// The bit of the flag that creates world fog.
pub const CREATE_WORLD_FOG_BIT: u8 = 4u8;

/// Represents the flags of a boss bar, as a set of bits.
#[derive(Debug, Clone, Copy, PartialEq, Eq, Structural)]
pub struct BossBarFlags {
    bits: u8,
}

impl View for BossBarFlags {
    type V = u8;

    closed spec fn view(&self) -> u8 {
        self.bits
    }
}

/// The name of the flag with a given bit, if the bit is one of the three.
pub open spec fn flag_name_of_bit(bit: u8) -> Option<Seq<char>> {
    if bit == DARKEN_SCREEN_BIT {
        Some("darken_screen"@)
    } else if bit == PLAY_BOSS_MUSIC_BIT {
        Some("play_boss_music"@)
    } else if bit == CREATE_WORLD_FOG_BIT {
        Some("create_world_fog"@)
    } else {
        None
    }
}

impl BossBarFlags {
    /// No flags.
    pub fn empty() -> (r: Self)
        ensures
            r@ == 0,
    {
        BossBarFlags { bits: 0 }
    }

    /// Whether this boss bar should darken the player's screen, when visible.
    pub fn darken_screen() -> (r: Self)
        ensures
            r@ == DARKEN_SCREEN_BIT,
    {
        BossBarFlags { bits: DARKEN_SCREEN_BIT }
    }

    /// Whether this boss bar should play boss music, when visible.
    pub fn play_boss_music() -> (r: Self)
        ensures
            r@ == PLAY_BOSS_MUSIC_BIT,
    {
        BossBarFlags { bits: PLAY_BOSS_MUSIC_BIT }
    }

    /// Whether this boss bar should create world fog, when visible.
    pub fn create_world_fog() -> (r: Self)
        ensures
            r@ == CREATE_WORLD_FOG_BIT,
    {
        BossBarFlags { bits: CREATE_WORLD_FOG_BIT }
    }

    /// The flags with exactly the given bits, known or not.
    pub fn from_bits_retain(bits: u8) -> (r: Self)
        ensures
            r@ == bits,
    {
        BossBarFlags { bits }
    }

    /// The raw bits.
    pub fn bits(&self) -> (r: u8)
        ensures
            r == self@,
    {
        self.bits
    }

    /// Whether every flag of `other` is set here.
    pub fn contains(&self, other: Self) -> (r: bool)
        ensures
            r == (self@ & other@ == other@),
    {
        self.bits & other.bits == other.bits
    }

    /// The flags set in either.
    pub fn union(self, other: Self) -> (r: Self)
        ensures
            r@ == self@ | other@,
    {
        BossBarFlags { bits: self.bits | other.bits }
    }

    /// Sets the flags of `other`.
    pub fn insert(&mut self, other: Self)
        ensures
            final(self)@ == old(self)@ | other@,
    {
        self.bits = self.bits | other.bits;
    }

    /// Clears the flags of `other`.
    pub fn remove(&mut self, other: Self)
        ensures
            final(self)@ == old(self)@ & !other@,
    {
        self.bits = self.bits & !other.bits;
    }

    /// The flag with the given name.
    pub fn from_name(name: &str) -> (r: Option<Self>)
        ensures
            match r {
                Some(f) => flag_name_of_bit(f@) == Some(name@),
                None => forall|b: u8| #[trigger] flag_name_of_bit(b) != Some(name@),
            },
    {
        if str_eq(name, "darken_screen") {
            Some(Self::darken_screen())
        } else if str_eq(name, "play_boss_music") {
            Some(Self::play_boss_music())
        } else if str_eq(name, "create_world_fog") {
            Some(Self::create_world_fog())
        } else {
            None
        }
    }

    /// The names of the set flags, lowest bit first.
    pub fn names(&self) -> (r: Vec<&'static str>)
        ensures
            r@.map_values(|s: &'static str| s@) == set_flag_names(self@),
    {
        let mut r: Vec<&'static str> = Vec::new();
        if self.bits & DARKEN_SCREEN_BIT != 0 {
            r.push("darken_screen");
        }
        if self.bits & PLAY_BOSS_MUSIC_BIT != 0 {
            r.push("play_boss_music");
        }
        if self.bits & CREATE_WORLD_FOG_BIT != 0 {
            r.push("create_world_fog");
        }
        assert(r@.map_values(|s: &'static str| s@) =~= set_flag_names(self@));
        r
    }
}

/// The names of the known flags set in `bits`, lowest bit first.
pub open spec fn set_flag_names(bits: u8) -> Seq<Seq<char>> {
    let a = if bits & DARKEN_SCREEN_BIT != 0 {
        seq!["darken_screen"@]
    } else {
        Seq::empty()
    };
    let b = if bits & PLAY_BOSS_MUSIC_BIT != 0 {
        seq!["play_boss_music"@]
    } else {
        Seq::empty()
    };
    let c = if bits & CREATE_WORLD_FOG_BIT != 0 {
        seq!["create_world_fog"@]
    } else {
        Seq::empty()
    };
    a + b + c
}

impl Default for BossBarFlags {
    fn default() -> (r: Self)
        ensures
            r@ == 0,
    {
        Self::empty()
    }
}

/// Setting flags then testing them finds them set; clearing them finds them
/// clear; setting is idempotent and order-free.
pub proof fn lemma_flags_set_and_clear(a: u8, b: u8)
    ensures
        (a | b) & b == b,
        (a & !b) & b == 0,
        (a | b) | b == a | b,
        a | b == b | a,
        (a & !b) | b == a | b,
{
    assert((a | b) & b == b) by (bit_vector);
    assert((a & !b) & b == 0) by (bit_vector);
    assert((a | b) | b == a | b) by (bit_vector);
    assert(a | b == b | a) by (bit_vector);
    assert((a & !b) | b == a | b) by (bit_vector);
}

} // verus!
