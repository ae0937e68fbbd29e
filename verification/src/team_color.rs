//! The colors that a team can use.
use crate::text::str_eq;
use vstd::prelude::*;

verus! {

/// A named text formatting color.
#[derive(Debug, Copy, Clone, PartialEq, Eq, Structural)]
pub enum FormatColor {
    Black,
    DarkBlue,
    DarkGreen,
    DarkAqua,
    DarkRed,
    DarkPurple,
    Gold,
    Gray,
    DarkGray,
    Blue,
    Green,
    Aqua,
    Red,
    LightPurple,
    Yellow,
    White,
}

impl FormatColor {
    /// The name that text formatting gives a color.
    pub open spec fn spec_name(self) -> Seq<char> {
        match self {
            FormatColor::Black => "black"@,
            FormatColor::DarkBlue => "dark_blue"@,
            FormatColor::DarkGreen => "dark_green"@,
            FormatColor::DarkAqua => "dark_aqua"@,
            FormatColor::DarkRed => "dark_red"@,
            FormatColor::DarkPurple => "dark_purple"@,
            FormatColor::Gold => "gold"@,
            FormatColor::Gray => "gray"@,
            FormatColor::DarkGray => "dark_gray"@,
            FormatColor::Blue => "blue"@,
            FormatColor::Green => "green"@,
            FormatColor::Aqua => "aqua"@,
            FormatColor::Red => "red"@,
            FormatColor::LightPurple => "light_purple"@,
            FormatColor::Yellow => "yellow"@,
            FormatColor::White => "white"@,
        }
    }
}

/// The name and ID of each team color, as the game knows them: the sixteen
/// text colors from black (0) to white (15).
pub proof fn lemma_team_color_table(c: TeamColor)
    ensures
        c == TeamColor::Black ==> c.spec_name() == "black"@ && c.spec_id() == 0,
        c == TeamColor::DarkBlue ==> c.spec_name() == "dark_blue"@ && c.spec_id() == 1,
        c == TeamColor::DarkGreen ==> c.spec_name() == "dark_green"@ && c.spec_id() == 2,
        c == TeamColor::DarkAqua ==> c.spec_name() == "dark_aqua"@ && c.spec_id() == 3,
        c == TeamColor::DarkRed ==> c.spec_name() == "dark_red"@ && c.spec_id() == 4,
        c == TeamColor::DarkPurple ==> c.spec_name() == "dark_purple"@ && c.spec_id() == 5,
        c == TeamColor::Gold ==> c.spec_name() == "gold"@ && c.spec_id() == 6,
        c == TeamColor::Gray ==> c.spec_name() == "gray"@ && c.spec_id() == 7,
        c == TeamColor::DarkGray ==> c.spec_name() == "dark_gray"@ && c.spec_id() == 8,
        c == TeamColor::Blue ==> c.spec_name() == "blue"@ && c.spec_id() == 9,
        c == TeamColor::Green ==> c.spec_name() == "green"@ && c.spec_id() == 10,
        c == TeamColor::Aqua ==> c.spec_name() == "aqua"@ && c.spec_id() == 11,
        c == TeamColor::Red ==> c.spec_name() == "red"@ && c.spec_id() == 12,
        c == TeamColor::LightPurple ==> c.spec_name() == "light_purple"@ && c.spec_id() == 13,
        c == TeamColor::Yellow ==> c.spec_name() == "yellow"@ && c.spec_id() == 14,
        c == TeamColor::White ==> c.spec_name() == "white"@ && c.spec_id() == 15,
{
}

/// A team color formats text in the formatting color of the same name.
pub proof fn lemma_team_color_formats_by_name(c: TeamColor)
    ensures
        c.spec_color().spec_name() == c.spec_name(),
{
}

/// Different team colors format text in different colors.
pub proof fn lemma_team_colors_format_distinctly(a: TeamColor, b: TeamColor)
    ensures
        a != b ==> a.spec_color() != b.spec_color(),
{
}

/// Represents a color that a team can use.
#[derive(Debug, Copy, Clone, PartialEq, Eq, PartialOrd, Ord, Structural)]
pub enum TeamColor {
    Black,
    DarkBlue,
    DarkGreen,
    DarkAqua,
    DarkRed,
    DarkPurple,
    Gold,
    Gray,
    DarkGray,
    Blue,
    Green,
    Aqua,
    Red,
    LightPurple,
    Yellow,
    White,
}

impl TeamColor {
    /// The name of a team color.
    pub open spec fn spec_name(self) -> Seq<char> {
        match self {
            TeamColor::Black => "black"@,
            TeamColor::DarkBlue => "dark_blue"@,
            TeamColor::DarkGreen => "dark_green"@,
            TeamColor::DarkAqua => "dark_aqua"@,
            TeamColor::DarkRed => "dark_red"@,
            TeamColor::DarkPurple => "dark_purple"@,
            TeamColor::Gold => "gold"@,
            TeamColor::Gray => "gray"@,
            TeamColor::DarkGray => "dark_gray"@,
            TeamColor::Blue => "blue"@,
            TeamColor::Green => "green"@,
            TeamColor::Aqua => "aqua"@,
            TeamColor::Red => "red"@,
            TeamColor::LightPurple => "light_purple"@,
            TeamColor::Yellow => "yellow"@,
            TeamColor::White => "white"@,
        }
    }

    /// The integral ID of a team color.
    pub open spec fn spec_id(self) -> int {
        match self {
            TeamColor::Black => 0,
            TeamColor::DarkBlue => 1,
            TeamColor::DarkGreen => 2,
            TeamColor::DarkAqua => 3,
            TeamColor::DarkRed => 4,
            TeamColor::DarkPurple => 5,
            TeamColor::Gold => 6,
            TeamColor::Gray => 7,
            TeamColor::DarkGray => 8,
            TeamColor::Blue => 9,
            TeamColor::Green => 10,
            TeamColor::Aqua => 11,
            TeamColor::Red => 12,
            TeamColor::LightPurple => 13,
            TeamColor::Yellow => 14,
            TeamColor::White => 15,
        }
    }

    /// The formatting color of a team color.
    pub open spec fn spec_color(self) -> FormatColor {
        match self {
            TeamColor::Black => FormatColor::Black,
            TeamColor::DarkBlue => FormatColor::DarkBlue,
            TeamColor::DarkGreen => FormatColor::DarkGreen,
            TeamColor::DarkAqua => FormatColor::DarkAqua,
            TeamColor::DarkRed => FormatColor::DarkRed,
            TeamColor::DarkPurple => FormatColor::DarkPurple,
            TeamColor::Gold => FormatColor::Gold,
            TeamColor::Gray => FormatColor::Gray,
            TeamColor::DarkGray => FormatColor::DarkGray,
            TeamColor::Blue => FormatColor::Blue,
            TeamColor::Green => FormatColor::Green,
            TeamColor::Aqua => FormatColor::Aqua,
            TeamColor::Red => FormatColor::Red,
            TeamColor::LightPurple => FormatColor::LightPurple,
            TeamColor::Yellow => FormatColor::Yellow,
            TeamColor::White => FormatColor::White,
        }
    }

    /// Every team color, in order of ID.
    pub fn values() -> (r: Vec<TeamColor>)
        ensures
            r@.len() == 16,
            forall|i: int| 0 <= i < 16 ==> (#[trigger] r@[i]).spec_id() == i,
    {
        vec![
        TeamColor::Black,
        TeamColor::DarkBlue,
        TeamColor::DarkGreen,
        TeamColor::DarkAqua,
        TeamColor::DarkRed,
        TeamColor::DarkPurple,
        TeamColor::Gold,
        TeamColor::Gray,
        TeamColor::DarkGray,
        TeamColor::Blue,
        TeamColor::Green,
        TeamColor::Aqua,
        TeamColor::Red,
        TeamColor::LightPurple,
        TeamColor::Yellow,
        TeamColor::White,
        ]
    }

    /// Returns the name of this team color.
    pub fn name(self) -> (r: &'static str)
        ensures
            r@ == self.spec_name(),
    {
        match self {
            TeamColor::Black => "black",
            TeamColor::DarkBlue => "dark_blue",
            TeamColor::DarkGreen => "dark_green",
            TeamColor::DarkAqua => "dark_aqua",
            TeamColor::DarkRed => "dark_red",
            TeamColor::DarkPurple => "dark_purple",
            TeamColor::Gold => "gold",
            TeamColor::Gray => "gray",
            TeamColor::DarkGray => "dark_gray",
            TeamColor::Blue => "blue",
            TeamColor::Green => "green",
            TeamColor::Aqua => "aqua",
            TeamColor::Red => "red",
            TeamColor::LightPurple => "light_purple",
            TeamColor::Yellow => "yellow",
            TeamColor::White => "white",
        }
    }

    /// Returns the team color identified by the given name.
    pub fn from_name(name: &str) -> (r: Option<Self>)
        ensures
            match r {
                Some(c) => c.spec_name() == name@,
                None => forall|c: TeamColor| #[trigger] c.spec_name() != name@,
            },
    {
        if str_eq(name, "black") {
            Some(TeamColor::Black)
        } else if str_eq(name, "dark_blue") {
            Some(TeamColor::DarkBlue)
        } else if str_eq(name, "dark_green") {
            Some(TeamColor::DarkGreen)
        } else if str_eq(name, "dark_aqua") {
            Some(TeamColor::DarkAqua)
        } else if str_eq(name, "dark_red") {
            Some(TeamColor::DarkRed)
        } else if str_eq(name, "dark_purple") {
            Some(TeamColor::DarkPurple)
        } else if str_eq(name, "gold") {
            Some(TeamColor::Gold)
        } else if str_eq(name, "gray") {
            Some(TeamColor::Gray)
        } else if str_eq(name, "dark_gray") {
            Some(TeamColor::DarkGray)
        } else if str_eq(name, "blue") {
            Some(TeamColor::Blue)
        } else if str_eq(name, "green") {
            Some(TeamColor::Green)
        } else if str_eq(name, "aqua") {
            Some(TeamColor::Aqua)
        } else if str_eq(name, "red") {
            Some(TeamColor::Red)
        } else if str_eq(name, "light_purple") {
            Some(TeamColor::LightPurple)
        } else if str_eq(name, "yellow") {
            Some(TeamColor::Yellow)
        } else if str_eq(name, "white") {
            Some(TeamColor::White)
        } else {
            None
        }
    }

    /// Returns the color used for formatting text from this team color.
    pub fn color(self) -> (r: FormatColor)
        ensures
            r == self.spec_color(),
    {
        match self {
            TeamColor::Black => FormatColor::Black,
            TeamColor::DarkBlue => FormatColor::DarkBlue,
            TeamColor::DarkGreen => FormatColor::DarkGreen,
            TeamColor::DarkAqua => FormatColor::DarkAqua,
            TeamColor::DarkRed => FormatColor::DarkRed,
            TeamColor::DarkPurple => FormatColor::DarkPurple,
            TeamColor::Gold => FormatColor::Gold,
            TeamColor::Gray => FormatColor::Gray,
            TeamColor::DarkGray => FormatColor::DarkGray,
            TeamColor::Blue => FormatColor::Blue,
            TeamColor::Green => FormatColor::Green,
            TeamColor::Aqua => FormatColor::Aqua,
            TeamColor::Red => FormatColor::Red,
            TeamColor::LightPurple => FormatColor::LightPurple,
            TeamColor::Yellow => FormatColor::Yellow,
            TeamColor::White => FormatColor::White,
        }
    }

    /// Returns the integral ID of this team color.
    pub fn id(self) -> (r: i32)
        ensures
            r == self.spec_id(),
    {
        match self {
            TeamColor::Black => 0,
            TeamColor::DarkBlue => 1,
            TeamColor::DarkGreen => 2,
            TeamColor::DarkAqua => 3,
            TeamColor::DarkRed => 4,
            TeamColor::DarkPurple => 5,
            TeamColor::Gold => 6,
            TeamColor::Gray => 7,
            TeamColor::DarkGray => 8,
            TeamColor::Blue => 9,
            TeamColor::Green => 10,
            TeamColor::Aqua => 11,
            TeamColor::Red => 12,
            TeamColor::LightPurple => 13,
            TeamColor::Yellow => 14,
            TeamColor::White => 15,
        }
    }

    /// Returns the team color from its given integral ID.
    pub fn from_id(id: i32) -> (r: Option<Self>)
        ensures
            match r {
                Some(c) => c.spec_id() == id,
                None => forall|c: TeamColor| #[trigger] c.spec_id() != id,
            },
    {
        match id {
            0 => Some(TeamColor::Black),
            1 => Some(TeamColor::DarkBlue),
            2 => Some(TeamColor::DarkGreen),
            3 => Some(TeamColor::DarkAqua),
            4 => Some(TeamColor::DarkRed),
            5 => Some(TeamColor::DarkPurple),
            6 => Some(TeamColor::Gold),
            7 => Some(TeamColor::Gray),
            8 => Some(TeamColor::DarkGray),
            9 => Some(TeamColor::Blue),
            10 => Some(TeamColor::Green),
            11 => Some(TeamColor::Aqua),
            12 => Some(TeamColor::Red),
            13 => Some(TeamColor::LightPurple),
            14 => Some(TeamColor::Yellow),
            15 => Some(TeamColor::White),
            _ => None,
        }
    }
}

/// Different team colors have different names and different IDs; IDs run
/// from 0 to 15.
pub proof fn lemma_team_color_names_ids_distinct(a: TeamColor, b: TeamColor)
    ensures
        a != b ==> a.spec_name() != b.spec_name(),
        a != b ==> a.spec_id() != b.spec_id(),
        0 <= a.spec_id() < 16,
{
    reveal_strlit("black");
    reveal_strlit("dark_blue");
    reveal_strlit("dark_green");
    reveal_strlit("dark_aqua");
    reveal_strlit("dark_red");
    reveal_strlit("dark_purple");
    reveal_strlit("gold");
    reveal_strlit("gray");
    reveal_strlit("dark_gray");
    reveal_strlit("blue");
    reveal_strlit("green");
    reveal_strlit("aqua");
    reveal_strlit("red");
    reveal_strlit("light_purple");
    reveal_strlit("yellow");
    reveal_strlit("white");
    match (a, b) {
        (TeamColor::Black, TeamColor::DarkBlue) => {
            assert(a.spec_name().len() != b.spec_name().len());
        },
        (TeamColor::Black, TeamColor::DarkGreen) => {
            assert(a.spec_name().len() != b.spec_name().len());
        },
        (TeamColor::Black, TeamColor::DarkAqua) => {
            assert(a.spec_name().len() != b.spec_name().len());
        },
        (TeamColor::Black, TeamColor::DarkRed) => {
            assert(a.spec_name().len() != b.spec_name().len());
        },
        (TeamColor::Black, TeamColor::DarkPurple) => {
            assert(a.spec_name().len() != b.spec_name().len());
        },
        (TeamColor::Black, TeamColor::Gold) => {
            assert(a.spec_name().len() != b.spec_name().len());
        },
        (TeamColor::Black, TeamColor::Gray) => {
            assert(a.spec_name().len() != b.spec_name().len());
        },
        (TeamColor::Black, TeamColor::DarkGray) => {
            assert(a.spec_name().len() != b.spec_name().len());
        },
        (TeamColor::Black, TeamColor::Blue) => {
            assert(a.spec_name().len() != b.spec_name().len());
        },
        (TeamColor::Black, TeamColor::Green) => {
            assert(a.spec_name()[0] != b.spec_name()[0]);
        },
        (TeamColor::Black, TeamColor::Aqua) => {
            assert(a.spec_name().len() != b.spec_name().len());
        },
        (TeamColor::Black, TeamColor::Red) => {
            assert(a.spec_name().len() != b.spec_name().len());
        },
        (TeamColor::Black, TeamColor::LightPurple) => {
            assert(a.spec_name().len() != b.spec_name().len());
        },
        (TeamColor::Black, TeamColor::Yellow) => {
            assert(a.spec_name().len() != b.spec_name().len());
        },
        (TeamColor::Black, TeamColor::White) => {
            assert(a.spec_name()[0] != b.spec_name()[0]);
        },
        (TeamColor::DarkBlue, TeamColor::Black) => {
            assert(a.spec_name().len() != b.spec_name().len());
        },
        (TeamColor::DarkBlue, TeamColor::DarkGreen) => {
            assert(a.spec_name().len() != b.spec_name().len());
        },
        (TeamColor::DarkBlue, TeamColor::DarkAqua) => {
            assert(a.spec_name()[5] != b.spec_name()[5]);
        },
        (TeamColor::DarkBlue, TeamColor::DarkRed) => {
            assert(a.spec_name().len() != b.spec_name().len());
        },
        (TeamColor::DarkBlue, TeamColor::DarkPurple) => {
            assert(a.spec_name().len() != b.spec_name().len());
        },
        (TeamColor::DarkBlue, TeamColor::Gold) => {
            assert(a.spec_name().len() != b.spec_name().len());
        },
        (TeamColor::DarkBlue, TeamColor::Gray) => {
            assert(a.spec_name().len() != b.spec_name().len());
        },
        (TeamColor::DarkBlue, TeamColor::DarkGray) => {
            assert(a.spec_name()[5] != b.spec_name()[5]);
        },
        (TeamColor::DarkBlue, TeamColor::Blue) => {
            assert(a.spec_name().len() != b.spec_name().len());
        },
        (TeamColor::DarkBlue, TeamColor::Green) => {
            assert(a.spec_name().len() != b.spec_name().len());
        },
        (TeamColor::DarkBlue, TeamColor::Aqua) => {
            assert(a.spec_name().len() != b.spec_name().len());
        },
        (TeamColor::DarkBlue, TeamColor::Red) => {
            assert(a.spec_name().len() != b.spec_name().len());
        },
        (TeamColor::DarkBlue, TeamColor::LightPurple) => {
            assert(a.spec_name().len() != b.spec_name().len());
        },
        (TeamColor::DarkBlue, TeamColor::Yellow) => {
            assert(a.spec_name().len() != b.spec_name().len());
        },
        (TeamColor::DarkBlue, TeamColor::White) => {
            assert(a.spec_name().len() != b.spec_name().len());
        },
        (TeamColor::DarkGreen, TeamColor::Black) => {
            assert(a.spec_name().len() != b.spec_name().len());
        },
        (TeamColor::DarkGreen, TeamColor::DarkBlue) => {
            assert(a.spec_name().len() != b.spec_name().len());
        },
        (TeamColor::DarkGreen, TeamColor::DarkAqua) => {
            assert(a.spec_name().len() != b.spec_name().len());
        },
        (TeamColor::DarkGreen, TeamColor::DarkRed) => {
            assert(a.spec_name().len() != b.spec_name().len());
        },
        (TeamColor::DarkGreen, TeamColor::DarkPurple) => {
            assert(a.spec_name().len() != b.spec_name().len());
        },
        (TeamColor::DarkGreen, TeamColor::Gold) => {
            assert(a.spec_name().len() != b.spec_name().len());
        },
        (TeamColor::DarkGreen, TeamColor::Gray) => {
            assert(a.spec_name().len() != b.spec_name().len());
        },
        (TeamColor::DarkGreen, TeamColor::DarkGray) => {
            assert(a.spec_name().len() != b.spec_name().len());
        },
        (TeamColor::DarkGreen, TeamColor::Blue) => {
            assert(a.spec_name().len() != b.spec_name().len());
        },
        (TeamColor::DarkGreen, TeamColor::Green) => {
            assert(a.spec_name().len() != b.spec_name().len());
        },
        (TeamColor::DarkGreen, TeamColor::Aqua) => {
            assert(a.spec_name().len() != b.spec_name().len());
        },
        (TeamColor::DarkGreen, TeamColor::Red) => {
            assert(a.spec_name().len() != b.spec_name().len());
        },
        (TeamColor::DarkGreen, TeamColor::LightPurple) => {
            assert(a.spec_name().len() != b.spec_name().len());
        },
        (TeamColor::DarkGreen, TeamColor::Yellow) => {
            assert(a.spec_name().len() != b.spec_name().len());
        },
        (TeamColor::DarkGreen, TeamColor::White) => {
            assert(a.spec_name().len() != b.spec_name().len());
        },
        (TeamColor::DarkAqua, TeamColor::Black) => {
            assert(a.spec_name().len() != b.spec_name().len());
        },
        (TeamColor::DarkAqua, TeamColor::DarkBlue) => {
            assert(a.spec_name()[5] != b.spec_name()[5]);
        },
        (TeamColor::DarkAqua, TeamColor::DarkGreen) => {
            assert(a.spec_name().len() != b.spec_name().len());
        },
        (TeamColor::DarkAqua, TeamColor::DarkRed) => {
            assert(a.spec_name().len() != b.spec_name().len());
        },
        (TeamColor::DarkAqua, TeamColor::DarkPurple) => {
            assert(a.spec_name().len() != b.spec_name().len());
        },
        (TeamColor::DarkAqua, TeamColor::Gold) => {
            assert(a.spec_name().len() != b.spec_name().len());
        },
        (TeamColor::DarkAqua, TeamColor::Gray) => {
            assert(a.spec_name().len() != b.spec_name().len());
        },
        (TeamColor::DarkAqua, TeamColor::DarkGray) => {
            assert(a.spec_name()[5] != b.spec_name()[5]);
        },
        (TeamColor::DarkAqua, TeamColor::Blue) => {
            assert(a.spec_name().len() != b.spec_name().len());
        },
        (TeamColor::DarkAqua, TeamColor::Green) => {
            assert(a.spec_name().len() != b.spec_name().len());
        },
        (TeamColor::DarkAqua, TeamColor::Aqua) => {
            assert(a.spec_name().len() != b.spec_name().len());
        },
        (TeamColor::DarkAqua, TeamColor::Red) => {
            assert(a.spec_name().len() != b.spec_name().len());
        },
        (TeamColor::DarkAqua, TeamColor::LightPurple) => {
            assert(a.spec_name().len() != b.spec_name().len());
        },
        (TeamColor::DarkAqua, TeamColor::Yellow) => {
            assert(a.spec_name().len() != b.spec_name().len());
        },
        (TeamColor::DarkAqua, TeamColor::White) => {
            assert(a.spec_name().len() != b.spec_name().len());
        },
        (TeamColor::DarkRed, TeamColor::Black) => {
            assert(a.spec_name().len() != b.spec_name().len());
        },
        (TeamColor::DarkRed, TeamColor::DarkBlue) => {
            assert(a.spec_name().len() != b.spec_name().len());
        },
        (TeamColor::DarkRed, TeamColor::DarkGreen) => {
            assert(a.spec_name().len() != b.spec_name().len());
        },
        (TeamColor::DarkRed, TeamColor::DarkAqua) => {
            assert(a.spec_name().len() != b.spec_name().len());
        },
        (TeamColor::DarkRed, TeamColor::DarkPurple) => {
            assert(a.spec_name().len() != b.spec_name().len());
        },
        (TeamColor::DarkRed, TeamColor::Gold) => {
            assert(a.spec_name().len() != b.spec_name().len());
        },
        (TeamColor::DarkRed, TeamColor::Gray) => {
            assert(a.spec_name().len() != b.spec_name().len());
        },
        (TeamColor::DarkRed, TeamColor::DarkGray) => {
            assert(a.spec_name().len() != b.spec_name().len());
        },
        (TeamColor::DarkRed, TeamColor::Blue) => {
            assert(a.spec_name().len() != b.spec_name().len());
        },
        (TeamColor::DarkRed, TeamColor::Green) => {
            assert(a.spec_name().len() != b.spec_name().len());
        },
        (TeamColor::DarkRed, TeamColor::Aqua) => {
            assert(a.spec_name().len() != b.spec_name().len());
        },
        (TeamColor::DarkRed, TeamColor::Red) => {
            assert(a.spec_name().len() != b.spec_name().len());
        },
        (TeamColor::DarkRed, TeamColor::LightPurple) => {
            assert(a.spec_name().len() != b.spec_name().len());
        },
        (TeamColor::DarkRed, TeamColor::Yellow) => {
            assert(a.spec_name().len() != b.spec_name().len());
        },
        (TeamColor::DarkRed, TeamColor::White) => {
            assert(a.spec_name().len() != b.spec_name().len());
        },
        (TeamColor::DarkPurple, TeamColor::Black) => {
            assert(a.spec_name().len() != b.spec_name().len());
        },
        (TeamColor::DarkPurple, TeamColor::DarkBlue) => {
            assert(a.spec_name().len() != b.spec_name().len());
        },
        (TeamColor::DarkPurple, TeamColor::DarkGreen) => {
            assert(a.spec_name().len() != b.spec_name().len());
        },
        (TeamColor::DarkPurple, TeamColor::DarkAqua) => {
            assert(a.spec_name().len() != b.spec_name().len());
        },
        (TeamColor::DarkPurple, TeamColor::DarkRed) => {
            assert(a.spec_name().len() != b.spec_name().len());
        },
        (TeamColor::DarkPurple, TeamColor::Gold) => {
            assert(a.spec_name().len() != b.spec_name().len());
        },
        (TeamColor::DarkPurple, TeamColor::Gray) => {
            assert(a.spec_name().len() != b.spec_name().len());
        },
        (TeamColor::DarkPurple, TeamColor::DarkGray) => {
            assert(a.spec_name().len() != b.spec_name().len());
        },
        (TeamColor::DarkPurple, TeamColor::Blue) => {
            assert(a.spec_name().len() != b.spec_name().len());
        },
        (TeamColor::DarkPurple, TeamColor::Green) => {
            assert(a.spec_name().len() != b.spec_name().len());
        },
        (TeamColor::DarkPurple, TeamColor::Aqua) => {
            assert(a.spec_name().len() != b.spec_name().len());
        },
        (TeamColor::DarkPurple, TeamColor::Red) => {
            assert(a.spec_name().len() != b.spec_name().len());
        },
        (TeamColor::DarkPurple, TeamColor::LightPurple) => {
            assert(a.spec_name().len() != b.spec_name().len());
        },
        (TeamColor::DarkPurple, TeamColor::Yellow) => {
            assert(a.spec_name().len() != b.spec_name().len());
        },
        (TeamColor::DarkPurple, TeamColor::White) => {
            assert(a.spec_name().len() != b.spec_name().len());
        },
        (TeamColor::Gold, TeamColor::Black) => {
            assert(a.spec_name().len() != b.spec_name().len());
        },
        (TeamColor::Gold, TeamColor::DarkBlue) => {
            assert(a.spec_name().len() != b.spec_name().len());
        },
        (TeamColor::Gold, TeamColor::DarkGreen) => {
            assert(a.spec_name().len() != b.spec_name().len());
        },
        (TeamColor::Gold, TeamColor::DarkAqua) => {
            assert(a.spec_name().len() != b.spec_name().len());
        },
        (TeamColor::Gold, TeamColor::DarkRed) => {
            assert(a.spec_name().len() != b.spec_name().len());
        },
        (TeamColor::Gold, TeamColor::DarkPurple) => {
            assert(a.spec_name().len() != b.spec_name().len());
        },
        (TeamColor::Gold, TeamColor::Gray) => {
            assert(a.spec_name()[1] != b.spec_name()[1]);
        },
        (TeamColor::Gold, TeamColor::DarkGray) => {
            assert(a.spec_name().len() != b.spec_name().len());
        },
        (TeamColor::Gold, TeamColor::Blue) => {
            assert(a.spec_name()[0] != b.spec_name()[0]);
        },
        (TeamColor::Gold, TeamColor::Green) => {
            assert(a.spec_name().len() != b.spec_name().len());
        },
        (TeamColor::Gold, TeamColor::Aqua) => {
            assert(a.spec_name()[0] != b.spec_name()[0]);
        },
        (TeamColor::Gold, TeamColor::Red) => {
            assert(a.spec_name().len() != b.spec_name().len());
        },
        (TeamColor::Gold, TeamColor::LightPurple) => {
            assert(a.spec_name().len() != b.spec_name().len());
        },
        (TeamColor::Gold, TeamColor::Yellow) => {
            assert(a.spec_name().len() != b.spec_name().len());
        },
        (TeamColor::Gold, TeamColor::White) => {
            assert(a.spec_name().len() != b.spec_name().len());
        },
        (TeamColor::Gray, TeamColor::Black) => {
            assert(a.spec_name().len() != b.spec_name().len());
        },
        (TeamColor::Gray, TeamColor::DarkBlue) => {
            assert(a.spec_name().len() != b.spec_name().len());
        },
        (TeamColor::Gray, TeamColor::DarkGreen) => {
            assert(a.spec_name().len() != b.spec_name().len());
        },
        (TeamColor::Gray, TeamColor::DarkAqua) => {
            assert(a.spec_name().len() != b.spec_name().len());
        },
        (TeamColor::Gray, TeamColor::DarkRed) => {
            assert(a.spec_name().len() != b.spec_name().len());
        },
        (TeamColor::Gray, TeamColor::DarkPurple) => {
            assert(a.spec_name().len() != b.spec_name().len());
        },
        (TeamColor::Gray, TeamColor::Gold) => {
            assert(a.spec_name()[1] != b.spec_name()[1]);
        },
        (TeamColor::Gray, TeamColor::DarkGray) => {
            assert(a.spec_name().len() != b.spec_name().len());
        },
        (TeamColor::Gray, TeamColor::Blue) => {
            assert(a.spec_name()[0] != b.spec_name()[0]);
        },
        (TeamColor::Gray, TeamColor::Green) => {
            assert(a.spec_name().len() != b.spec_name().len());
        },
        (TeamColor::Gray, TeamColor::Aqua) => {
            assert(a.spec_name()[0] != b.spec_name()[0]);
        },
        (TeamColor::Gray, TeamColor::Red) => {
            assert(a.spec_name().len() != b.spec_name().len());
        },
        (TeamColor::Gray, TeamColor::LightPurple) => {
            assert(a.spec_name().len() != b.spec_name().len());
        },
        (TeamColor::Gray, TeamColor::Yellow) => {
            assert(a.spec_name().len() != b.spec_name().len());
        },
        (TeamColor::Gray, TeamColor::White) => {
            assert(a.spec_name().len() != b.spec_name().len());
        },
        (TeamColor::DarkGray, TeamColor::Black) => {
            assert(a.spec_name().len() != b.spec_name().len());
        },
        (TeamColor::DarkGray, TeamColor::DarkBlue) => {
            assert(a.spec_name()[5] != b.spec_name()[5]);
        },
        (TeamColor::DarkGray, TeamColor::DarkGreen) => {
            assert(a.spec_name().len() != b.spec_name().len());
        },
        (TeamColor::DarkGray, TeamColor::DarkAqua) => {
            assert(a.spec_name()[5] != b.spec_name()[5]);
        },
        (TeamColor::DarkGray, TeamColor::DarkRed) => {
            assert(a.spec_name().len() != b.spec_name().len());
        },
        (TeamColor::DarkGray, TeamColor::DarkPurple) => {
            assert(a.spec_name().len() != b.spec_name().len());
        },
        (TeamColor::DarkGray, TeamColor::Gold) => {
            assert(a.spec_name().len() != b.spec_name().len());
        },
        (TeamColor::DarkGray, TeamColor::Gray) => {
            assert(a.spec_name().len() != b.spec_name().len());
        },
        (TeamColor::DarkGray, TeamColor::Blue) => {
            assert(a.spec_name().len() != b.spec_name().len());
        },
        (TeamColor::DarkGray, TeamColor::Green) => {
            assert(a.spec_name().len() != b.spec_name().len());
        },
        (TeamColor::DarkGray, TeamColor::Aqua) => {
            assert(a.spec_name().len() != b.spec_name().len());
        },
        (TeamColor::DarkGray, TeamColor::Red) => {
            assert(a.spec_name().len() != b.spec_name().len());
        },
        (TeamColor::DarkGray, TeamColor::LightPurple) => {
            assert(a.spec_name().len() != b.spec_name().len());
        },
        (TeamColor::DarkGray, TeamColor::Yellow) => {
            assert(a.spec_name().len() != b.spec_name().len());
        },
        (TeamColor::DarkGray, TeamColor::White) => {
            assert(a.spec_name().len() != b.spec_name().len());
        },
        (TeamColor::Blue, TeamColor::Black) => {
            assert(a.spec_name().len() != b.spec_name().len());
        },
        (TeamColor::Blue, TeamColor::DarkBlue) => {
            assert(a.spec_name().len() != b.spec_name().len());
        },
        (TeamColor::Blue, TeamColor::DarkGreen) => {
            assert(a.spec_name().len() != b.spec_name().len());
        },
        (TeamColor::Blue, TeamColor::DarkAqua) => {
            assert(a.spec_name().len() != b.spec_name().len());
        },
        (TeamColor::Blue, TeamColor::DarkRed) => {
            assert(a.spec_name().len() != b.spec_name().len());
        },
        (TeamColor::Blue, TeamColor::DarkPurple) => {
            assert(a.spec_name().len() != b.spec_name().len());
        },
        (TeamColor::Blue, TeamColor::Gold) => {
            assert(a.spec_name()[0] != b.spec_name()[0]);
        },
        (TeamColor::Blue, TeamColor::Gray) => {
            assert(a.spec_name()[0] != b.spec_name()[0]);
        },
        (TeamColor::Blue, TeamColor::DarkGray) => {
            assert(a.spec_name().len() != b.spec_name().len());
        },
        (TeamColor::Blue, TeamColor::Green) => {
            assert(a.spec_name().len() != b.spec_name().len());
        },
        (TeamColor::Blue, TeamColor::Aqua) => {
            assert(a.spec_name()[0] != b.spec_name()[0]);
        },
        (TeamColor::Blue, TeamColor::Red) => {
            assert(a.spec_name().len() != b.spec_name().len());
        },
        (TeamColor::Blue, TeamColor::LightPurple) => {
            assert(a.spec_name().len() != b.spec_name().len());
        },
        (TeamColor::Blue, TeamColor::Yellow) => {
            assert(a.spec_name().len() != b.spec_name().len());
        },
        (TeamColor::Blue, TeamColor::White) => {
            assert(a.spec_name().len() != b.spec_name().len());
        },
        (TeamColor::Green, TeamColor::Black) => {
            assert(a.spec_name()[0] != b.spec_name()[0]);
        },
        (TeamColor::Green, TeamColor::DarkBlue) => {
            assert(a.spec_name().len() != b.spec_name().len());
        },
        (TeamColor::Green, TeamColor::DarkGreen) => {
            assert(a.spec_name().len() != b.spec_name().len());
        },
        (TeamColor::Green, TeamColor::DarkAqua) => {
            assert(a.spec_name().len() != b.spec_name().len());
        },
        (TeamColor::Green, TeamColor::DarkRed) => {
            assert(a.spec_name().len() != b.spec_name().len());
        },
        (TeamColor::Green, TeamColor::DarkPurple) => {
            assert(a.spec_name().len() != b.spec_name().len());
        },
        (TeamColor::Green, TeamColor::Gold) => {
            assert(a.spec_name().len() != b.spec_name().len());
        },
        (TeamColor::Green, TeamColor::Gray) => {
            assert(a.spec_name().len() != b.spec_name().len());
        },
        (TeamColor::Green, TeamColor::DarkGray) => {
            assert(a.spec_name().len() != b.spec_name().len());
        },
        (TeamColor::Green, TeamColor::Blue) => {
            assert(a.spec_name().len() != b.spec_name().len());
        },
        (TeamColor::Green, TeamColor::Aqua) => {
            assert(a.spec_name().len() != b.spec_name().len());
        },
        (TeamColor::Green, TeamColor::Red) => {
            assert(a.spec_name().len() != b.spec_name().len());
        },
        (TeamColor::Green, TeamColor::LightPurple) => {
            assert(a.spec_name().len() != b.spec_name().len());
        },
        (TeamColor::Green, TeamColor::Yellow) => {
            assert(a.spec_name().len() != b.spec_name().len());
        },
        (TeamColor::Green, TeamColor::White) => {
            assert(a.spec_name()[0] != b.spec_name()[0]);
        },
        (TeamColor::Aqua, TeamColor::Black) => {
            assert(a.spec_name().len() != b.spec_name().len());
        },
        (TeamColor::Aqua, TeamColor::DarkBlue) => {
            assert(a.spec_name().len() != b.spec_name().len());
        },
        (TeamColor::Aqua, TeamColor::DarkGreen) => {
            assert(a.spec_name().len() != b.spec_name().len());
        },
        (TeamColor::Aqua, TeamColor::DarkAqua) => {
            assert(a.spec_name().len() != b.spec_name().len());
        },
        (TeamColor::Aqua, TeamColor::DarkRed) => {
            assert(a.spec_name().len() != b.spec_name().len());
        },
        (TeamColor::Aqua, TeamColor::DarkPurple) => {
            assert(a.spec_name().len() != b.spec_name().len());
        },
        (TeamColor::Aqua, TeamColor::Gold) => {
            assert(a.spec_name()[0] != b.spec_name()[0]);
        },
        (TeamColor::Aqua, TeamColor::Gray) => {
            assert(a.spec_name()[0] != b.spec_name()[0]);
        },
        (TeamColor::Aqua, TeamColor::DarkGray) => {
            assert(a.spec_name().len() != b.spec_name().len());
        },
        (TeamColor::Aqua, TeamColor::Blue) => {
            assert(a.spec_name()[0] != b.spec_name()[0]);
        },
        (TeamColor::Aqua, TeamColor::Green) => {
            assert(a.spec_name().len() != b.spec_name().len());
        },
        (TeamColor::Aqua, TeamColor::Red) => {
            assert(a.spec_name().len() != b.spec_name().len());
        },
        (TeamColor::Aqua, TeamColor::LightPurple) => {
            assert(a.spec_name().len() != b.spec_name().len());
        },
        (TeamColor::Aqua, TeamColor::Yellow) => {
            assert(a.spec_name().len() != b.spec_name().len());
        },
        (TeamColor::Aqua, TeamColor::White) => {
            assert(a.spec_name().len() != b.spec_name().len());
        },
        (TeamColor::Red, TeamColor::Black) => {
            assert(a.spec_name().len() != b.spec_name().len());
        },
        (TeamColor::Red, TeamColor::DarkBlue) => {
            assert(a.spec_name().len() != b.spec_name().len());
        },
        (TeamColor::Red, TeamColor::DarkGreen) => {
            assert(a.spec_name().len() != b.spec_name().len());
        },
        (TeamColor::Red, TeamColor::DarkAqua) => {
            assert(a.spec_name().len() != b.spec_name().len());
        },
        (TeamColor::Red, TeamColor::DarkRed) => {
            assert(a.spec_name().len() != b.spec_name().len());
        },
        (TeamColor::Red, TeamColor::DarkPurple) => {
            assert(a.spec_name().len() != b.spec_name().len());
        },
        (TeamColor::Red, TeamColor::Gold) => {
            assert(a.spec_name().len() != b.spec_name().len());
        },
        (TeamColor::Red, TeamColor::Gray) => {
            assert(a.spec_name().len() != b.spec_name().len());
        },
        (TeamColor::Red, TeamColor::DarkGray) => {
            assert(a.spec_name().len() != b.spec_name().len());
        },
        (TeamColor::Red, TeamColor::Blue) => {
            assert(a.spec_name().len() != b.spec_name().len());
        },
        (TeamColor::Red, TeamColor::Green) => {
            assert(a.spec_name().len() != b.spec_name().len());
        },
        (TeamColor::Red, TeamColor::Aqua) => {
            assert(a.spec_name().len() != b.spec_name().len());
        },
        (TeamColor::Red, TeamColor::LightPurple) => {
            assert(a.spec_name().len() != b.spec_name().len());
        },
        (TeamColor::Red, TeamColor::Yellow) => {
            assert(a.spec_name().len() != b.spec_name().len());
        },
        (TeamColor::Red, TeamColor::White) => {
            assert(a.spec_name().len() != b.spec_name().len());
        },
        (TeamColor::LightPurple, TeamColor::Black) => {
            assert(a.spec_name().len() != b.spec_name().len());
        },
        (TeamColor::LightPurple, TeamColor::DarkBlue) => {
            assert(a.spec_name().len() != b.spec_name().len());
        },
        (TeamColor::LightPurple, TeamColor::DarkGreen) => {
            assert(a.spec_name().len() != b.spec_name().len());
        },
        (TeamColor::LightPurple, TeamColor::DarkAqua) => {
            assert(a.spec_name().len() != b.spec_name().len());
        },
        (TeamColor::LightPurple, TeamColor::DarkRed) => {
            assert(a.spec_name().len() != b.spec_name().len());
        },
        (TeamColor::LightPurple, TeamColor::DarkPurple) => {
            assert(a.spec_name().len() != b.spec_name().len());
        },
        (TeamColor::LightPurple, TeamColor::Gold) => {
            assert(a.spec_name().len() != b.spec_name().len());
        },
        (TeamColor::LightPurple, TeamColor::Gray) => {
            assert(a.spec_name().len() != b.spec_name().len());
        },
        (TeamColor::LightPurple, TeamColor::DarkGray) => {
            assert(a.spec_name().len() != b.spec_name().len());
        },
        (TeamColor::LightPurple, TeamColor::Blue) => {
            assert(a.spec_name().len() != b.spec_name().len());
        },
        (TeamColor::LightPurple, TeamColor::Green) => {
            assert(a.spec_name().len() != b.spec_name().len());
        },
        (TeamColor::LightPurple, TeamColor::Aqua) => {
            assert(a.spec_name().len() != b.spec_name().len());
        },
        (TeamColor::LightPurple, TeamColor::Red) => {
            assert(a.spec_name().len() != b.spec_name().len());
        },
        (TeamColor::LightPurple, TeamColor::Yellow) => {
            assert(a.spec_name().len() != b.spec_name().len());
        },
        (TeamColor::LightPurple, TeamColor::White) => {
            assert(a.spec_name().len() != b.spec_name().len());
        },
        (TeamColor::Yellow, TeamColor::Black) => {
            assert(a.spec_name().len() != b.spec_name().len());
        },
        (TeamColor::Yellow, TeamColor::DarkBlue) => {
            assert(a.spec_name().len() != b.spec_name().len());
        },
        (TeamColor::Yellow, TeamColor::DarkGreen) => {
            assert(a.spec_name().len() != b.spec_name().len());
        },
        (TeamColor::Yellow, TeamColor::DarkAqua) => {
            assert(a.spec_name().len() != b.spec_name().len());
        },
        (TeamColor::Yellow, TeamColor::DarkRed) => {
            assert(a.spec_name().len() != b.spec_name().len());
        },
        (TeamColor::Yellow, TeamColor::DarkPurple) => {
            assert(a.spec_name().len() != b.spec_name().len());
        },
        (TeamColor::Yellow, TeamColor::Gold) => {
            assert(a.spec_name().len() != b.spec_name().len());
        },
        (TeamColor::Yellow, TeamColor::Gray) => {
            assert(a.spec_name().len() != b.spec_name().len());
        },
        (TeamColor::Yellow, TeamColor::DarkGray) => {
            assert(a.spec_name().len() != b.spec_name().len());
        },
        (TeamColor::Yellow, TeamColor::Blue) => {
            assert(a.spec_name().len() != b.spec_name().len());
        },
        (TeamColor::Yellow, TeamColor::Green) => {
            assert(a.spec_name().len() != b.spec_name().len());
        },
        (TeamColor::Yellow, TeamColor::Aqua) => {
            assert(a.spec_name().len() != b.spec_name().len());
        },
        (TeamColor::Yellow, TeamColor::Red) => {
            assert(a.spec_name().len() != b.spec_name().len());
        },
        (TeamColor::Yellow, TeamColor::LightPurple) => {
            assert(a.spec_name().len() != b.spec_name().len());
        },
        (TeamColor::Yellow, TeamColor::White) => {
            assert(a.spec_name().len() != b.spec_name().len());
        },
        (TeamColor::White, TeamColor::Black) => {
            assert(a.spec_name()[0] != b.spec_name()[0]);
        },
        (TeamColor::White, TeamColor::DarkBlue) => {
            assert(a.spec_name().len() != b.spec_name().len());
        },
        (TeamColor::White, TeamColor::DarkGreen) => {
            assert(a.spec_name().len() != b.spec_name().len());
        },
        (TeamColor::White, TeamColor::DarkAqua) => {
            assert(a.spec_name().len() != b.spec_name().len());
        },
        (TeamColor::White, TeamColor::DarkRed) => {
            assert(a.spec_name().len() != b.spec_name().len());
        },
        (TeamColor::White, TeamColor::DarkPurple) => {
            assert(a.spec_name().len() != b.spec_name().len());
        },
        (TeamColor::White, TeamColor::Gold) => {
            assert(a.spec_name().len() != b.spec_name().len());
        },
        (TeamColor::White, TeamColor::Gray) => {
            assert(a.spec_name().len() != b.spec_name().len());
        },
        (TeamColor::White, TeamColor::DarkGray) => {
            assert(a.spec_name().len() != b.spec_name().len());
        },
        (TeamColor::White, TeamColor::Blue) => {
            assert(a.spec_name().len() != b.spec_name().len());
        },
        (TeamColor::White, TeamColor::Green) => {
            assert(a.spec_name()[0] != b.spec_name()[0]);
        },
        (TeamColor::White, TeamColor::Aqua) => {
            assert(a.spec_name().len() != b.spec_name().len());
        },
        (TeamColor::White, TeamColor::Red) => {
            assert(a.spec_name().len() != b.spec_name().len());
        },
        (TeamColor::White, TeamColor::LightPurple) => {
            assert(a.spec_name().len() != b.spec_name().len());
        },
        (TeamColor::White, TeamColor::Yellow) => {
            assert(a.spec_name().len() != b.spec_name().len());
        },
        _ => {},
    }
}

/// A team color is found again by its name and by its ID.
pub proof fn lemma_team_color_round_trip(c: TeamColor, d: TeamColor)
    ensures
        d.spec_name() == c.spec_name() ==> d == c,
        d.spec_id() == c.spec_id() ==> d == c,
{
    lemma_team_color_names_ids_distinct(c, d);
}

} // verus!
