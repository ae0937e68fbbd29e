//! The places where an objective can be displayed.
use crate::team_color::{lemma_team_color_names_ids_distinct, TeamColor};
use crate::text::str_eq;
use vstd::prelude::*;

verus! {

/// Represents a way to display an objective.
#[derive(Debug, Copy, Clone, PartialEq, Eq, Structural)]
pub enum DisplaySlot {
    List,
    Sidebar,
    BelowName,
    Team(TeamColor),
}

impl DisplaySlot {
    /// The name of a display slot.
    pub open spec fn spec_name(self) -> Seq<char> {
        match self {
            DisplaySlot::List => "list"@,
            DisplaySlot::Sidebar => "sidebar"@,
            DisplaySlot::BelowName => "below_name"@,
            DisplaySlot::Team(TeamColor::Black) => "sidebar.team.black"@,
            DisplaySlot::Team(TeamColor::DarkBlue) => "sidebar.team.dark_blue"@,
            DisplaySlot::Team(TeamColor::DarkGreen) => "sidebar.team.dark_green"@,
            DisplaySlot::Team(TeamColor::DarkAqua) => "sidebar.team.dark_aqua"@,
            DisplaySlot::Team(TeamColor::DarkRed) => "sidebar.team.dark_red"@,
            DisplaySlot::Team(TeamColor::DarkPurple) => "sidebar.team.dark_purple"@,
            DisplaySlot::Team(TeamColor::Gold) => "sidebar.team.gold"@,
            DisplaySlot::Team(TeamColor::Gray) => "sidebar.team.gray"@,
            DisplaySlot::Team(TeamColor::DarkGray) => "sidebar.team.dark_gray"@,
            DisplaySlot::Team(TeamColor::Blue) => "sidebar.team.blue"@,
            DisplaySlot::Team(TeamColor::Green) => "sidebar.team.green"@,
            DisplaySlot::Team(TeamColor::Aqua) => "sidebar.team.aqua"@,
            DisplaySlot::Team(TeamColor::Red) => "sidebar.team.red"@,
            DisplaySlot::Team(TeamColor::LightPurple) => "sidebar.team.light_purple"@,
            DisplaySlot::Team(TeamColor::Yellow) => "sidebar.team.yellow"@,
            DisplaySlot::Team(TeamColor::White) => "sidebar.team.white"@,
        }
    }

    /// The integral ID of a display slot.
    pub open spec fn spec_id(self) -> int {
        match self {
            DisplaySlot::List => 0,
            DisplaySlot::Sidebar => 1,
            DisplaySlot::BelowName => 2,
            DisplaySlot::Team(color) => 3 + color.spec_id(),
        }
    }

    /// Returns the name used by this display slot.
    pub fn name(self) -> (r: &'static str)
        ensures
            r@ == self.spec_name(),
    {
        match self {
            DisplaySlot::List => "list",
            DisplaySlot::Sidebar => "sidebar",
            DisplaySlot::BelowName => "below_name",
            DisplaySlot::Team(TeamColor::Black) => "sidebar.team.black",
            DisplaySlot::Team(TeamColor::DarkBlue) => "sidebar.team.dark_blue",
            DisplaySlot::Team(TeamColor::DarkGreen) => "sidebar.team.dark_green",
            DisplaySlot::Team(TeamColor::DarkAqua) => "sidebar.team.dark_aqua",
            DisplaySlot::Team(TeamColor::DarkRed) => "sidebar.team.dark_red",
            DisplaySlot::Team(TeamColor::DarkPurple) => "sidebar.team.dark_purple",
            DisplaySlot::Team(TeamColor::Gold) => "sidebar.team.gold",
            DisplaySlot::Team(TeamColor::Gray) => "sidebar.team.gray",
            DisplaySlot::Team(TeamColor::DarkGray) => "sidebar.team.dark_gray",
            DisplaySlot::Team(TeamColor::Blue) => "sidebar.team.blue",
            DisplaySlot::Team(TeamColor::Green) => "sidebar.team.green",
            DisplaySlot::Team(TeamColor::Aqua) => "sidebar.team.aqua",
            DisplaySlot::Team(TeamColor::Red) => "sidebar.team.red",
            DisplaySlot::Team(TeamColor::LightPurple) => "sidebar.team.light_purple",
            DisplaySlot::Team(TeamColor::Yellow) => "sidebar.team.yellow",
            DisplaySlot::Team(TeamColor::White) => "sidebar.team.white",
        }
    }

    /// Returns the display slot identified by the given name.
    pub fn from_name(name: &str) -> (r: Option<Self>)
        ensures
            match r {
                Some(s) => s.spec_name() == name@,
                None => forall|s: DisplaySlot| #[trigger] s.spec_name() != name@,
            },
    {
        if str_eq(name, "list") {
            Some(DisplaySlot::List)
        } else if str_eq(name, "sidebar") {
            Some(DisplaySlot::Sidebar)
        } else if str_eq(name, "below_name") {
            Some(DisplaySlot::BelowName)
        } else if str_eq(name, "sidebar.team.black") {
            Some(DisplaySlot::Team(TeamColor::Black))
        } else if str_eq(name, "sidebar.team.dark_blue") {
            Some(DisplaySlot::Team(TeamColor::DarkBlue))
        } else if str_eq(name, "sidebar.team.dark_green") {
            Some(DisplaySlot::Team(TeamColor::DarkGreen))
        } else if str_eq(name, "sidebar.team.dark_aqua") {
            Some(DisplaySlot::Team(TeamColor::DarkAqua))
        } else if str_eq(name, "sidebar.team.dark_red") {
            Some(DisplaySlot::Team(TeamColor::DarkRed))
        } else if str_eq(name, "sidebar.team.dark_purple") {
            Some(DisplaySlot::Team(TeamColor::DarkPurple))
        } else if str_eq(name, "sidebar.team.gold") {
            Some(DisplaySlot::Team(TeamColor::Gold))
        } else if str_eq(name, "sidebar.team.gray") {
            Some(DisplaySlot::Team(TeamColor::Gray))
        } else if str_eq(name, "sidebar.team.dark_gray") {
            Some(DisplaySlot::Team(TeamColor::DarkGray))
        } else if str_eq(name, "sidebar.team.blue") {
            Some(DisplaySlot::Team(TeamColor::Blue))
        } else if str_eq(name, "sidebar.team.green") {
            Some(DisplaySlot::Team(TeamColor::Green))
        } else if str_eq(name, "sidebar.team.aqua") {
            Some(DisplaySlot::Team(TeamColor::Aqua))
        } else if str_eq(name, "sidebar.team.red") {
            Some(DisplaySlot::Team(TeamColor::Red))
        } else if str_eq(name, "sidebar.team.light_purple") {
            Some(DisplaySlot::Team(TeamColor::LightPurple))
        } else if str_eq(name, "sidebar.team.yellow") {
            Some(DisplaySlot::Team(TeamColor::Yellow))
        } else if str_eq(name, "sidebar.team.white") {
            Some(DisplaySlot::Team(TeamColor::White))
        } else {
            None
        }
    }

    /// Returns the integral ID of this display slot.
    pub fn id(self) -> (r: i32)
        ensures
            r == self.spec_id(),
    {
        match self {
            DisplaySlot::List => 0,
            DisplaySlot::Sidebar => 1,
            DisplaySlot::BelowName => 2,
            DisplaySlot::Team(color) => {
                proof {
                    lemma_team_color_names_ids_distinct(color, color);
                }
                3 + color.id()
            },
        }
    }

    /// Returns the display slot from its integral ID.
    pub fn from_id(id: i32) -> (r: Option<DisplaySlot>)
        ensures
            match r {
                Some(s) => s.spec_id() == id,
                None => forall|s: DisplaySlot| #[trigger] s.spec_id() != id,
            },
    {
        match id {
            0 => Some(DisplaySlot::List),
            1 => Some(DisplaySlot::Sidebar),
            2 => Some(DisplaySlot::BelowName),
            _ => {
                if id >= 3 {
                    match TeamColor::from_id(id - 3) {
                        Some(color) => Some(DisplaySlot::Team(color)),
                        None => {
                            proof {
                                assert forall|s: DisplaySlot| #[trigger] s.spec_id() != id by {
                                    if let DisplaySlot::Team(c) = s {
                                        assert(c.spec_id() != id - 3);
                                    }
                                }
                            }
                            None
                        },
                    }
                } else {
                    proof {
                        assert forall|s: DisplaySlot| #[trigger] s.spec_id() != id by {
                            if let DisplaySlot::Team(c) = s {
                                lemma_team_color_names_ids_distinct(c, c);
                            }
                        }
                    }
                    None
                }
            },
        }
    }
}

/// The display slots without a team and their names and IDs: the list is
/// "list" (0), the sidebar "sidebar" (1), below the name "below_name" (2);
/// a team's sidebar comes after them, at 3 plus the team color's ID.
pub proof fn lemma_display_slot_table(s: DisplaySlot)
    ensures
        s == DisplaySlot::List ==> s.spec_name() == "list"@ && s.spec_id() == 0,
        s == DisplaySlot::Sidebar ==> s.spec_name() == "sidebar"@ && s.spec_id() == 1,
        s == DisplaySlot::BelowName ==> s.spec_name() == "below_name"@ && s.spec_id() == 2,
        s matches DisplaySlot::Team(c) ==> s.spec_id() == 3 + c.spec_id(),
{
}

/// The name of a team's display slot is "sidebar.team." followed by the
/// team color's name, and that name finds no other display slot.
pub proof fn lemma_team_slot_name(c: TeamColor)
    ensures
        DisplaySlot::Team(c).spec_name() == "sidebar.team."@ + c.spec_name(),
        forall|s: DisplaySlot|
            #[trigger] s.spec_name() == "sidebar.team."@ + c.spec_name() ==> s == DisplaySlot::Team(c),
{
    reveal_strlit("sidebar.team.");
    reveal_strlit("sidebar.team.black");
    reveal_strlit("sidebar.team.dark_blue");
    reveal_strlit("sidebar.team.dark_green");
    reveal_strlit("sidebar.team.dark_aqua");
    reveal_strlit("sidebar.team.dark_red");
    reveal_strlit("sidebar.team.dark_purple");
    reveal_strlit("sidebar.team.gold");
    reveal_strlit("sidebar.team.gray");
    reveal_strlit("sidebar.team.dark_gray");
    reveal_strlit("sidebar.team.blue");
    reveal_strlit("sidebar.team.green");
    reveal_strlit("sidebar.team.aqua");
    reveal_strlit("sidebar.team.red");
    reveal_strlit("sidebar.team.light_purple");
    reveal_strlit("sidebar.team.yellow");
    reveal_strlit("sidebar.team.white");
    reveal_strlit("black");
    reveal_strlit("dark_blue");
    reveal_strlit("dark_green");
    reveal_strlit("dark_aqua");
    reveal_strlit("dark_red");
    reveal_strlit("dark_purple");
    reveal_strlit("gold");
    reveal_strlit("gray");
    reveal_strlit("dark_gray");
    reveal_strlit("blue");
    reveal_strlit("green");
    reveal_strlit("aqua");
    reveal_strlit("red");
    reveal_strlit("light_purple");
    reveal_strlit("yellow");
    reveal_strlit("white");
    assert(DisplaySlot::Team(c).spec_name() =~= "sidebar.team."@ + c.spec_name());
    assert forall|s: DisplaySlot|
        #[trigger] s.spec_name() == "sidebar.team."@ + c.spec_name() implies s == DisplaySlot::Team(c) by {
        lemma_display_slot_names_ids_distinct(s, DisplaySlot::Team(c));
    }
}

/// Different display slots have different names and different IDs.
pub proof fn lemma_display_slot_names_ids_distinct(a: DisplaySlot, b: DisplaySlot)
    ensures
        a != b ==> a.spec_name() != b.spec_name(),
        a != b ==> a.spec_id() != b.spec_id(),
        0 <= a.spec_id() < 19,
{
    reveal_strlit("list");
    reveal_strlit("sidebar");
    reveal_strlit("below_name");
    reveal_strlit("sidebar.team.black");
    reveal_strlit("sidebar.team.dark_blue");
    reveal_strlit("sidebar.team.dark_green");
    reveal_strlit("sidebar.team.dark_aqua");
    reveal_strlit("sidebar.team.dark_red");
    reveal_strlit("sidebar.team.dark_purple");
    reveal_strlit("sidebar.team.gold");
    reveal_strlit("sidebar.team.gray");
    reveal_strlit("sidebar.team.dark_gray");
    reveal_strlit("sidebar.team.blue");
    reveal_strlit("sidebar.team.green");
    reveal_strlit("sidebar.team.aqua");
    reveal_strlit("sidebar.team.red");
    reveal_strlit("sidebar.team.light_purple");
    reveal_strlit("sidebar.team.yellow");
    reveal_strlit("sidebar.team.white");
    if let DisplaySlot::Team(c) = a {
        if let DisplaySlot::Team(d) = b {
            lemma_team_color_names_ids_distinct(c, d);
        } else {
            lemma_team_color_names_ids_distinct(c, c);
        }
    } else if let DisplaySlot::Team(d) = b {
        lemma_team_color_names_ids_distinct(d, d);
    }
    match (a, b) {
        (DisplaySlot::List, DisplaySlot::Sidebar) => {
            assert(a.spec_name().len() != b.spec_name().len());
        },
        (DisplaySlot::List, DisplaySlot::BelowName) => {
            assert(a.spec_name().len() != b.spec_name().len());
        },
        (DisplaySlot::List, DisplaySlot::Team(TeamColor::Black)) => {
            assert(a.spec_name().len() != b.spec_name().len());
        },
        (DisplaySlot::List, DisplaySlot::Team(TeamColor::DarkBlue)) => {
            assert(a.spec_name().len() != b.spec_name().len());
        },
        (DisplaySlot::List, DisplaySlot::Team(TeamColor::DarkGreen)) => {
            assert(a.spec_name().len() != b.spec_name().len());
        },
        (DisplaySlot::List, DisplaySlot::Team(TeamColor::DarkAqua)) => {
            assert(a.spec_name().len() != b.spec_name().len());
        },
        (DisplaySlot::List, DisplaySlot::Team(TeamColor::DarkRed)) => {
            assert(a.spec_name().len() != b.spec_name().len());
        },
        (DisplaySlot::List, DisplaySlot::Team(TeamColor::DarkPurple)) => {
            assert(a.spec_name().len() != b.spec_name().len());
        },
        (DisplaySlot::List, DisplaySlot::Team(TeamColor::Gold)) => {
            assert(a.spec_name().len() != b.spec_name().len());
        },
        (DisplaySlot::List, DisplaySlot::Team(TeamColor::Gray)) => {
            assert(a.spec_name().len() != b.spec_name().len());
        },
        (DisplaySlot::List, DisplaySlot::Team(TeamColor::DarkGray)) => {
            assert(a.spec_name().len() != b.spec_name().len());
        },
        (DisplaySlot::List, DisplaySlot::Team(TeamColor::Blue)) => {
            assert(a.spec_name().len() != b.spec_name().len());
        },
        (DisplaySlot::List, DisplaySlot::Team(TeamColor::Green)) => {
            assert(a.spec_name().len() != b.spec_name().len());
        },
        (DisplaySlot::List, DisplaySlot::Team(TeamColor::Aqua)) => {
            assert(a.spec_name().len() != b.spec_name().len());
        },
        (DisplaySlot::List, DisplaySlot::Team(TeamColor::Red)) => {
            assert(a.spec_name().len() != b.spec_name().len());
        },
        (DisplaySlot::List, DisplaySlot::Team(TeamColor::LightPurple)) => {
            assert(a.spec_name().len() != b.spec_name().len());
        },
        (DisplaySlot::List, DisplaySlot::Team(TeamColor::Yellow)) => {
            assert(a.spec_name().len() != b.spec_name().len());
        },
        (DisplaySlot::List, DisplaySlot::Team(TeamColor::White)) => {
            assert(a.spec_name().len() != b.spec_name().len());
        },
        (DisplaySlot::Sidebar, DisplaySlot::List) => {
            assert(a.spec_name().len() != b.spec_name().len());
        },
        (DisplaySlot::Sidebar, DisplaySlot::BelowName) => {
            assert(a.spec_name().len() != b.spec_name().len());
        },
        (DisplaySlot::Sidebar, DisplaySlot::Team(TeamColor::Black)) => {
            assert(a.spec_name().len() != b.spec_name().len());
        },
        (DisplaySlot::Sidebar, DisplaySlot::Team(TeamColor::DarkBlue)) => {
            assert(a.spec_name().len() != b.spec_name().len());
        },
        (DisplaySlot::Sidebar, DisplaySlot::Team(TeamColor::DarkGreen)) => {
            assert(a.spec_name().len() != b.spec_name().len());
        },
        (DisplaySlot::Sidebar, DisplaySlot::Team(TeamColor::DarkAqua)) => {
            assert(a.spec_name().len() != b.spec_name().len());
        },
        (DisplaySlot::Sidebar, DisplaySlot::Team(TeamColor::DarkRed)) => {
            assert(a.spec_name().len() != b.spec_name().len());
        },
        (DisplaySlot::Sidebar, DisplaySlot::Team(TeamColor::DarkPurple)) => {
            assert(a.spec_name().len() != b.spec_name().len());
        },
        (DisplaySlot::Sidebar, DisplaySlot::Team(TeamColor::Gold)) => {
            assert(a.spec_name().len() != b.spec_name().len());
        },
        (DisplaySlot::Sidebar, DisplaySlot::Team(TeamColor::Gray)) => {
            assert(a.spec_name().len() != b.spec_name().len());
        },
        (DisplaySlot::Sidebar, DisplaySlot::Team(TeamColor::DarkGray)) => {
            assert(a.spec_name().len() != b.spec_name().len());
        },
        (DisplaySlot::Sidebar, DisplaySlot::Team(TeamColor::Blue)) => {
            assert(a.spec_name().len() != b.spec_name().len());
        },
        (DisplaySlot::Sidebar, DisplaySlot::Team(TeamColor::Green)) => {
            assert(a.spec_name().len() != b.spec_name().len());
        },
        (DisplaySlot::Sidebar, DisplaySlot::Team(TeamColor::Aqua)) => {
            assert(a.spec_name().len() != b.spec_name().len());
        },
        (DisplaySlot::Sidebar, DisplaySlot::Team(TeamColor::Red)) => {
            assert(a.spec_name().len() != b.spec_name().len());
        },
        (DisplaySlot::Sidebar, DisplaySlot::Team(TeamColor::LightPurple)) => {
            assert(a.spec_name().len() != b.spec_name().len());
        },
        (DisplaySlot::Sidebar, DisplaySlot::Team(TeamColor::Yellow)) => {
            assert(a.spec_name().len() != b.spec_name().len());
        },
        (DisplaySlot::Sidebar, DisplaySlot::Team(TeamColor::White)) => {
            assert(a.spec_name().len() != b.spec_name().len());
        },
        (DisplaySlot::BelowName, DisplaySlot::List) => {
            assert(a.spec_name().len() != b.spec_name().len());
        },
        (DisplaySlot::BelowName, DisplaySlot::Sidebar) => {
            assert(a.spec_name().len() != b.spec_name().len());
        },
        (DisplaySlot::BelowName, DisplaySlot::Team(TeamColor::Black)) => {
            assert(a.spec_name().len() != b.spec_name().len());
        },
        (DisplaySlot::BelowName, DisplaySlot::Team(TeamColor::DarkBlue)) => {
            assert(a.spec_name().len() != b.spec_name().len());
        },
        (DisplaySlot::BelowName, DisplaySlot::Team(TeamColor::DarkGreen)) => {
            assert(a.spec_name().len() != b.spec_name().len());
        },
        (DisplaySlot::BelowName, DisplaySlot::Team(TeamColor::DarkAqua)) => {
            assert(a.spec_name().len() != b.spec_name().len());
        },
        (DisplaySlot::BelowName, DisplaySlot::Team(TeamColor::DarkRed)) => {
            assert(a.spec_name().len() != b.spec_name().len());
        },
        (DisplaySlot::BelowName, DisplaySlot::Team(TeamColor::DarkPurple)) => {
            assert(a.spec_name().len() != b.spec_name().len());
        },
        (DisplaySlot::BelowName, DisplaySlot::Team(TeamColor::Gold)) => {
            assert(a.spec_name().len() != b.spec_name().len());
        },
        (DisplaySlot::BelowName, DisplaySlot::Team(TeamColor::Gray)) => {
            assert(a.spec_name().len() != b.spec_name().len());
        },
        (DisplaySlot::BelowName, DisplaySlot::Team(TeamColor::DarkGray)) => {
            assert(a.spec_name().len() != b.spec_name().len());
        },
        (DisplaySlot::BelowName, DisplaySlot::Team(TeamColor::Blue)) => {
            assert(a.spec_name().len() != b.spec_name().len());
        },
        (DisplaySlot::BelowName, DisplaySlot::Team(TeamColor::Green)) => {
            assert(a.spec_name().len() != b.spec_name().len());
        },
        (DisplaySlot::BelowName, DisplaySlot::Team(TeamColor::Aqua)) => {
            assert(a.spec_name().len() != b.spec_name().len());
        },
        (DisplaySlot::BelowName, DisplaySlot::Team(TeamColor::Red)) => {
            assert(a.spec_name().len() != b.spec_name().len());
        },
        (DisplaySlot::BelowName, DisplaySlot::Team(TeamColor::LightPurple)) => {
            assert(a.spec_name().len() != b.spec_name().len());
        },
        (DisplaySlot::BelowName, DisplaySlot::Team(TeamColor::Yellow)) => {
            assert(a.spec_name().len() != b.spec_name().len());
        },
        (DisplaySlot::BelowName, DisplaySlot::Team(TeamColor::White)) => {
            assert(a.spec_name().len() != b.spec_name().len());
        },
        (DisplaySlot::Team(TeamColor::Black), DisplaySlot::List) => {
            assert(a.spec_name().len() != b.spec_name().len());
        },
        (DisplaySlot::Team(TeamColor::Black), DisplaySlot::Sidebar) => {
            assert(a.spec_name().len() != b.spec_name().len());
        },
        (DisplaySlot::Team(TeamColor::Black), DisplaySlot::BelowName) => {
            assert(a.spec_name().len() != b.spec_name().len());
        },
        (DisplaySlot::Team(TeamColor::Black), DisplaySlot::Team(TeamColor::DarkBlue)) => {
            assert(a.spec_name().len() != b.spec_name().len());
        },
        (DisplaySlot::Team(TeamColor::Black), DisplaySlot::Team(TeamColor::DarkGreen)) => {
            assert(a.spec_name().len() != b.spec_name().len());
        },
        (DisplaySlot::Team(TeamColor::Black), DisplaySlot::Team(TeamColor::DarkAqua)) => {
            assert(a.spec_name().len() != b.spec_name().len());
        },
        (DisplaySlot::Team(TeamColor::Black), DisplaySlot::Team(TeamColor::DarkRed)) => {
            assert(a.spec_name().len() != b.spec_name().len());
        },
        (DisplaySlot::Team(TeamColor::Black), DisplaySlot::Team(TeamColor::DarkPurple)) => {
            assert(a.spec_name().len() != b.spec_name().len());
        },
        (DisplaySlot::Team(TeamColor::Black), DisplaySlot::Team(TeamColor::Gold)) => {
            assert(a.spec_name().len() != b.spec_name().len());
        },
        (DisplaySlot::Team(TeamColor::Black), DisplaySlot::Team(TeamColor::Gray)) => {
            assert(a.spec_name().len() != b.spec_name().len());
        },
        (DisplaySlot::Team(TeamColor::Black), DisplaySlot::Team(TeamColor::DarkGray)) => {
            assert(a.spec_name().len() != b.spec_name().len());
        },
        (DisplaySlot::Team(TeamColor::Black), DisplaySlot::Team(TeamColor::Blue)) => {
            assert(a.spec_name().len() != b.spec_name().len());
        },
        (DisplaySlot::Team(TeamColor::Black), DisplaySlot::Team(TeamColor::Green)) => {
            assert(a.spec_name()[13] != b.spec_name()[13]);
        },
        (DisplaySlot::Team(TeamColor::Black), DisplaySlot::Team(TeamColor::Aqua)) => {
            assert(a.spec_name().len() != b.spec_name().len());
        },
        (DisplaySlot::Team(TeamColor::Black), DisplaySlot::Team(TeamColor::Red)) => {
            assert(a.spec_name().len() != b.spec_name().len());
        },
        (DisplaySlot::Team(TeamColor::Black), DisplaySlot::Team(TeamColor::LightPurple)) => {
            assert(a.spec_name().len() != b.spec_name().len());
        },
        (DisplaySlot::Team(TeamColor::Black), DisplaySlot::Team(TeamColor::Yellow)) => {
            assert(a.spec_name().len() != b.spec_name().len());
        },
        (DisplaySlot::Team(TeamColor::Black), DisplaySlot::Team(TeamColor::White)) => {
            assert(a.spec_name()[13] != b.spec_name()[13]);
        },
        (DisplaySlot::Team(TeamColor::DarkBlue), DisplaySlot::List) => {
            assert(a.spec_name().len() != b.spec_name().len());
        },
        (DisplaySlot::Team(TeamColor::DarkBlue), DisplaySlot::Sidebar) => {
            assert(a.spec_name().len() != b.spec_name().len());
        },
        (DisplaySlot::Team(TeamColor::DarkBlue), DisplaySlot::BelowName) => {
            assert(a.spec_name().len() != b.spec_name().len());
        },
        (DisplaySlot::Team(TeamColor::DarkBlue), DisplaySlot::Team(TeamColor::Black)) => {
            assert(a.spec_name().len() != b.spec_name().len());
        },
        (DisplaySlot::Team(TeamColor::DarkBlue), DisplaySlot::Team(TeamColor::DarkGreen)) => {
            assert(a.spec_name().len() != b.spec_name().len());
        },
        (DisplaySlot::Team(TeamColor::DarkBlue), DisplaySlot::Team(TeamColor::DarkAqua)) => {
            assert(a.spec_name()[18] != b.spec_name()[18]);
        },
        (DisplaySlot::Team(TeamColor::DarkBlue), DisplaySlot::Team(TeamColor::DarkRed)) => {
            assert(a.spec_name().len() != b.spec_name().len());
        },
        (DisplaySlot::Team(TeamColor::DarkBlue), DisplaySlot::Team(TeamColor::DarkPurple)) => {
            assert(a.spec_name().len() != b.spec_name().len());
        },
        (DisplaySlot::Team(TeamColor::DarkBlue), DisplaySlot::Team(TeamColor::Gold)) => {
            assert(a.spec_name().len() != b.spec_name().len());
        },
        (DisplaySlot::Team(TeamColor::DarkBlue), DisplaySlot::Team(TeamColor::Gray)) => {
            assert(a.spec_name().len() != b.spec_name().len());
        },
        (DisplaySlot::Team(TeamColor::DarkBlue), DisplaySlot::Team(TeamColor::DarkGray)) => {
            assert(a.spec_name()[18] != b.spec_name()[18]);
        },
        (DisplaySlot::Team(TeamColor::DarkBlue), DisplaySlot::Team(TeamColor::Blue)) => {
            assert(a.spec_name().len() != b.spec_name().len());
        },
        (DisplaySlot::Team(TeamColor::DarkBlue), DisplaySlot::Team(TeamColor::Green)) => {
            assert(a.spec_name().len() != b.spec_name().len());
        },
        (DisplaySlot::Team(TeamColor::DarkBlue), DisplaySlot::Team(TeamColor::Aqua)) => {
            assert(a.spec_name().len() != b.spec_name().len());
        },
        (DisplaySlot::Team(TeamColor::DarkBlue), DisplaySlot::Team(TeamColor::Red)) => {
            assert(a.spec_name().len() != b.spec_name().len());
        },
        (DisplaySlot::Team(TeamColor::DarkBlue), DisplaySlot::Team(TeamColor::LightPurple)) => {
            assert(a.spec_name().len() != b.spec_name().len());
        },
        (DisplaySlot::Team(TeamColor::DarkBlue), DisplaySlot::Team(TeamColor::Yellow)) => {
            assert(a.spec_name().len() != b.spec_name().len());
        },
        (DisplaySlot::Team(TeamColor::DarkBlue), DisplaySlot::Team(TeamColor::White)) => {
            assert(a.spec_name().len() != b.spec_name().len());
        },
        (DisplaySlot::Team(TeamColor::DarkGreen), DisplaySlot::List) => {
            assert(a.spec_name().len() != b.spec_name().len());
        },
        (DisplaySlot::Team(TeamColor::DarkGreen), DisplaySlot::Sidebar) => {
            assert(a.spec_name().len() != b.spec_name().len());
        },
        (DisplaySlot::Team(TeamColor::DarkGreen), DisplaySlot::BelowName) => {
            assert(a.spec_name().len() != b.spec_name().len());
        },
        (DisplaySlot::Team(TeamColor::DarkGreen), DisplaySlot::Team(TeamColor::Black)) => {
            assert(a.spec_name().len() != b.spec_name().len());
        },
        (DisplaySlot::Team(TeamColor::DarkGreen), DisplaySlot::Team(TeamColor::DarkBlue)) => {
            assert(a.spec_name().len() != b.spec_name().len());
        },
        (DisplaySlot::Team(TeamColor::DarkGreen), DisplaySlot::Team(TeamColor::DarkAqua)) => {
            assert(a.spec_name().len() != b.spec_name().len());
        },
        (DisplaySlot::Team(TeamColor::DarkGreen), DisplaySlot::Team(TeamColor::DarkRed)) => {
            assert(a.spec_name().len() != b.spec_name().len());
        },
        (DisplaySlot::Team(TeamColor::DarkGreen), DisplaySlot::Team(TeamColor::DarkPurple)) => {
            assert(a.spec_name().len() != b.spec_name().len());
        },
        (DisplaySlot::Team(TeamColor::DarkGreen), DisplaySlot::Team(TeamColor::Gold)) => {
            assert(a.spec_name().len() != b.spec_name().len());
        },
        (DisplaySlot::Team(TeamColor::DarkGreen), DisplaySlot::Team(TeamColor::Gray)) => {
            assert(a.spec_name().len() != b.spec_name().len());
        },
        (DisplaySlot::Team(TeamColor::DarkGreen), DisplaySlot::Team(TeamColor::DarkGray)) => {
            assert(a.spec_name().len() != b.spec_name().len());
        },
        (DisplaySlot::Team(TeamColor::DarkGreen), DisplaySlot::Team(TeamColor::Blue)) => {
            assert(a.spec_name().len() != b.spec_name().len());
        },
        (DisplaySlot::Team(TeamColor::DarkGreen), DisplaySlot::Team(TeamColor::Green)) => {
            assert(a.spec_name().len() != b.spec_name().len());
        },
        (DisplaySlot::Team(TeamColor::DarkGreen), DisplaySlot::Team(TeamColor::Aqua)) => {
            assert(a.spec_name().len() != b.spec_name().len());
        },
        (DisplaySlot::Team(TeamColor::DarkGreen), DisplaySlot::Team(TeamColor::Red)) => {
            assert(a.spec_name().len() != b.spec_name().len());
        },
        (DisplaySlot::Team(TeamColor::DarkGreen), DisplaySlot::Team(TeamColor::LightPurple)) => {
            assert(a.spec_name().len() != b.spec_name().len());
        },
        (DisplaySlot::Team(TeamColor::DarkGreen), DisplaySlot::Team(TeamColor::Yellow)) => {
            assert(a.spec_name().len() != b.spec_name().len());
        },
        (DisplaySlot::Team(TeamColor::DarkGreen), DisplaySlot::Team(TeamColor::White)) => {
            assert(a.spec_name().len() != b.spec_name().len());
        },
        (DisplaySlot::Team(TeamColor::DarkAqua), DisplaySlot::List) => {
            assert(a.spec_name().len() != b.spec_name().len());
        },
        (DisplaySlot::Team(TeamColor::DarkAqua), DisplaySlot::Sidebar) => {
            assert(a.spec_name().len() != b.spec_name().len());
        },
        (DisplaySlot::Team(TeamColor::DarkAqua), DisplaySlot::BelowName) => {
            assert(a.spec_name().len() != b.spec_name().len());
        },
        (DisplaySlot::Team(TeamColor::DarkAqua), DisplaySlot::Team(TeamColor::Black)) => {
            assert(a.spec_name().len() != b.spec_name().len());
        },
        (DisplaySlot::Team(TeamColor::DarkAqua), DisplaySlot::Team(TeamColor::DarkBlue)) => {
            assert(a.spec_name()[18] != b.spec_name()[18]);
        },
        (DisplaySlot::Team(TeamColor::DarkAqua), DisplaySlot::Team(TeamColor::DarkGreen)) => {
            assert(a.spec_name().len() != b.spec_name().len());
        },
        (DisplaySlot::Team(TeamColor::DarkAqua), DisplaySlot::Team(TeamColor::DarkRed)) => {
            assert(a.spec_name().len() != b.spec_name().len());
        },
        (DisplaySlot::Team(TeamColor::DarkAqua), DisplaySlot::Team(TeamColor::DarkPurple)) => {
            assert(a.spec_name().len() != b.spec_name().len());
        },
        (DisplaySlot::Team(TeamColor::DarkAqua), DisplaySlot::Team(TeamColor::Gold)) => {
            assert(a.spec_name().len() != b.spec_name().len());
        },
        (DisplaySlot::Team(TeamColor::DarkAqua), DisplaySlot::Team(TeamColor::Gray)) => {
            assert(a.spec_name().len() != b.spec_name().len());
        },
        (DisplaySlot::Team(TeamColor::DarkAqua), DisplaySlot::Team(TeamColor::DarkGray)) => {
            assert(a.spec_name()[18] != b.spec_name()[18]);
        },
        (DisplaySlot::Team(TeamColor::DarkAqua), DisplaySlot::Team(TeamColor::Blue)) => {
            assert(a.spec_name().len() != b.spec_name().len());
        },
        (DisplaySlot::Team(TeamColor::DarkAqua), DisplaySlot::Team(TeamColor::Green)) => {
            assert(a.spec_name().len() != b.spec_name().len());
        },
        (DisplaySlot::Team(TeamColor::DarkAqua), DisplaySlot::Team(TeamColor::Aqua)) => {
            assert(a.spec_name().len() != b.spec_name().len());
        },
        (DisplaySlot::Team(TeamColor::DarkAqua), DisplaySlot::Team(TeamColor::Red)) => {
            assert(a.spec_name().len() != b.spec_name().len());
        },
        (DisplaySlot::Team(TeamColor::DarkAqua), DisplaySlot::Team(TeamColor::LightPurple)) => {
            assert(a.spec_name().len() != b.spec_name().len());
        },
        (DisplaySlot::Team(TeamColor::DarkAqua), DisplaySlot::Team(TeamColor::Yellow)) => {
            assert(a.spec_name().len() != b.spec_name().len());
        },
        (DisplaySlot::Team(TeamColor::DarkAqua), DisplaySlot::Team(TeamColor::White)) => {
            assert(a.spec_name().len() != b.spec_name().len());
        },
        (DisplaySlot::Team(TeamColor::DarkRed), DisplaySlot::List) => {
            assert(a.spec_name().len() != b.spec_name().len());
        },
        (DisplaySlot::Team(TeamColor::DarkRed), DisplaySlot::Sidebar) => {
            assert(a.spec_name().len() != b.spec_name().len());
        },
        (DisplaySlot::Team(TeamColor::DarkRed), DisplaySlot::BelowName) => {
            assert(a.spec_name().len() != b.spec_name().len());
        },
        (DisplaySlot::Team(TeamColor::DarkRed), DisplaySlot::Team(TeamColor::Black)) => {
            assert(a.spec_name().len() != b.spec_name().len());
        },
        (DisplaySlot::Team(TeamColor::DarkRed), DisplaySlot::Team(TeamColor::DarkBlue)) => {
            assert(a.spec_name().len() != b.spec_name().len());
        },
        (DisplaySlot::Team(TeamColor::DarkRed), DisplaySlot::Team(TeamColor::DarkGreen)) => {
            assert(a.spec_name().len() != b.spec_name().len());
        },
        (DisplaySlot::Team(TeamColor::DarkRed), DisplaySlot::Team(TeamColor::DarkAqua)) => {
            assert(a.spec_name().len() != b.spec_name().len());
        },
        (DisplaySlot::Team(TeamColor::DarkRed), DisplaySlot::Team(TeamColor::DarkPurple)) => {
            assert(a.spec_name().len() != b.spec_name().len());
        },
        (DisplaySlot::Team(TeamColor::DarkRed), DisplaySlot::Team(TeamColor::Gold)) => {
            assert(a.spec_name().len() != b.spec_name().len());
        },
        (DisplaySlot::Team(TeamColor::DarkRed), DisplaySlot::Team(TeamColor::Gray)) => {
            assert(a.spec_name().len() != b.spec_name().len());
        },
        (DisplaySlot::Team(TeamColor::DarkRed), DisplaySlot::Team(TeamColor::DarkGray)) => {
            assert(a.spec_name().len() != b.spec_name().len());
        },
        (DisplaySlot::Team(TeamColor::DarkRed), DisplaySlot::Team(TeamColor::Blue)) => {
            assert(a.spec_name().len() != b.spec_name().len());
        },
        (DisplaySlot::Team(TeamColor::DarkRed), DisplaySlot::Team(TeamColor::Green)) => {
            assert(a.spec_name().len() != b.spec_name().len());
        },
        (DisplaySlot::Team(TeamColor::DarkRed), DisplaySlot::Team(TeamColor::Aqua)) => {
            assert(a.spec_name().len() != b.spec_name().len());
        },
        (DisplaySlot::Team(TeamColor::DarkRed), DisplaySlot::Team(TeamColor::Red)) => {
            assert(a.spec_name().len() != b.spec_name().len());
        },
        (DisplaySlot::Team(TeamColor::DarkRed), DisplaySlot::Team(TeamColor::LightPurple)) => {
            assert(a.spec_name().len() != b.spec_name().len());
        },
        (DisplaySlot::Team(TeamColor::DarkRed), DisplaySlot::Team(TeamColor::Yellow)) => {
            assert(a.spec_name().len() != b.spec_name().len());
        },
        (DisplaySlot::Team(TeamColor::DarkRed), DisplaySlot::Team(TeamColor::White)) => {
            assert(a.spec_name().len() != b.spec_name().len());
        },
        (DisplaySlot::Team(TeamColor::DarkPurple), DisplaySlot::List) => {
            assert(a.spec_name().len() != b.spec_name().len());
        },
        (DisplaySlot::Team(TeamColor::DarkPurple), DisplaySlot::Sidebar) => {
            assert(a.spec_name().len() != b.spec_name().len());
        },
        (DisplaySlot::Team(TeamColor::DarkPurple), DisplaySlot::BelowName) => {
            assert(a.spec_name().len() != b.spec_name().len());
        },
        (DisplaySlot::Team(TeamColor::DarkPurple), DisplaySlot::Team(TeamColor::Black)) => {
            assert(a.spec_name().len() != b.spec_name().len());
        },
        (DisplaySlot::Team(TeamColor::DarkPurple), DisplaySlot::Team(TeamColor::DarkBlue)) => {
            assert(a.spec_name().len() != b.spec_name().len());
        },
        (DisplaySlot::Team(TeamColor::DarkPurple), DisplaySlot::Team(TeamColor::DarkGreen)) => {
            assert(a.spec_name().len() != b.spec_name().len());
        },
        (DisplaySlot::Team(TeamColor::DarkPurple), DisplaySlot::Team(TeamColor::DarkAqua)) => {
            assert(a.spec_name().len() != b.spec_name().len());
        },
        (DisplaySlot::Team(TeamColor::DarkPurple), DisplaySlot::Team(TeamColor::DarkRed)) => {
            assert(a.spec_name().len() != b.spec_name().len());
        },
        (DisplaySlot::Team(TeamColor::DarkPurple), DisplaySlot::Team(TeamColor::Gold)) => {
            assert(a.spec_name().len() != b.spec_name().len());
        },
        (DisplaySlot::Team(TeamColor::DarkPurple), DisplaySlot::Team(TeamColor::Gray)) => {
            assert(a.spec_name().len() != b.spec_name().len());
        },
        (DisplaySlot::Team(TeamColor::DarkPurple), DisplaySlot::Team(TeamColor::DarkGray)) => {
            assert(a.spec_name().len() != b.spec_name().len());
        },
        (DisplaySlot::Team(TeamColor::DarkPurple), DisplaySlot::Team(TeamColor::Blue)) => {
            assert(a.spec_name().len() != b.spec_name().len());
        },
        (DisplaySlot::Team(TeamColor::DarkPurple), DisplaySlot::Team(TeamColor::Green)) => {
            assert(a.spec_name().len() != b.spec_name().len());
        },
        (DisplaySlot::Team(TeamColor::DarkPurple), DisplaySlot::Team(TeamColor::Aqua)) => {
            assert(a.spec_name().len() != b.spec_name().len());
        },
        (DisplaySlot::Team(TeamColor::DarkPurple), DisplaySlot::Team(TeamColor::Red)) => {
            assert(a.spec_name().len() != b.spec_name().len());
        },
        (DisplaySlot::Team(TeamColor::DarkPurple), DisplaySlot::Team(TeamColor::LightPurple)) => {
            assert(a.spec_name().len() != b.spec_name().len());
        },
        (DisplaySlot::Team(TeamColor::DarkPurple), DisplaySlot::Team(TeamColor::Yellow)) => {
            assert(a.spec_name().len() != b.spec_name().len());
        },
        (DisplaySlot::Team(TeamColor::DarkPurple), DisplaySlot::Team(TeamColor::White)) => {
            assert(a.spec_name().len() != b.spec_name().len());
        },
        (DisplaySlot::Team(TeamColor::Gold), DisplaySlot::List) => {
            assert(a.spec_name().len() != b.spec_name().len());
        },
        (DisplaySlot::Team(TeamColor::Gold), DisplaySlot::Sidebar) => {
            assert(a.spec_name().len() != b.spec_name().len());
        },
        (DisplaySlot::Team(TeamColor::Gold), DisplaySlot::BelowName) => {
            assert(a.spec_name().len() != b.spec_name().len());
        },
        (DisplaySlot::Team(TeamColor::Gold), DisplaySlot::Team(TeamColor::Black)) => {
            assert(a.spec_name().len() != b.spec_name().len());
        },
        (DisplaySlot::Team(TeamColor::Gold), DisplaySlot::Team(TeamColor::DarkBlue)) => {
            assert(a.spec_name().len() != b.spec_name().len());
        },
        (DisplaySlot::Team(TeamColor::Gold), DisplaySlot::Team(TeamColor::DarkGreen)) => {
            assert(a.spec_name().len() != b.spec_name().len());
        },
        (DisplaySlot::Team(TeamColor::Gold), DisplaySlot::Team(TeamColor::DarkAqua)) => {
            assert(a.spec_name().len() != b.spec_name().len());
        },
        (DisplaySlot::Team(TeamColor::Gold), DisplaySlot::Team(TeamColor::DarkRed)) => {
            assert(a.spec_name().len() != b.spec_name().len());
        },
        (DisplaySlot::Team(TeamColor::Gold), DisplaySlot::Team(TeamColor::DarkPurple)) => {
            assert(a.spec_name().len() != b.spec_name().len());
        },
        (DisplaySlot::Team(TeamColor::Gold), DisplaySlot::Team(TeamColor::Gray)) => {
            assert(a.spec_name()[14] != b.spec_name()[14]);
        },
        (DisplaySlot::Team(TeamColor::Gold), DisplaySlot::Team(TeamColor::DarkGray)) => {
            assert(a.spec_name().len() != b.spec_name().len());
        },
        (DisplaySlot::Team(TeamColor::Gold), DisplaySlot::Team(TeamColor::Blue)) => {
            assert(a.spec_name()[13] != b.spec_name()[13]);
        },
        (DisplaySlot::Team(TeamColor::Gold), DisplaySlot::Team(TeamColor::Green)) => {
            assert(a.spec_name().len() != b.spec_name().len());
        },
        (DisplaySlot::Team(TeamColor::Gold), DisplaySlot::Team(TeamColor::Aqua)) => {
            assert(a.spec_name()[13] != b.spec_name()[13]);
        },
        (DisplaySlot::Team(TeamColor::Gold), DisplaySlot::Team(TeamColor::Red)) => {
            assert(a.spec_name().len() != b.spec_name().len());
        },
        (DisplaySlot::Team(TeamColor::Gold), DisplaySlot::Team(TeamColor::LightPurple)) => {
            assert(a.spec_name().len() != b.spec_name().len());
        },
        (DisplaySlot::Team(TeamColor::Gold), DisplaySlot::Team(TeamColor::Yellow)) => {
            assert(a.spec_name().len() != b.spec_name().len());
        },
        (DisplaySlot::Team(TeamColor::Gold), DisplaySlot::Team(TeamColor::White)) => {
            assert(a.spec_name().len() != b.spec_name().len());
        },
        (DisplaySlot::Team(TeamColor::Gray), DisplaySlot::List) => {
            assert(a.spec_name().len() != b.spec_name().len());
        },
        (DisplaySlot::Team(TeamColor::Gray), DisplaySlot::Sidebar) => {
            assert(a.spec_name().len() != b.spec_name().len());
        },
        (DisplaySlot::Team(TeamColor::Gray), DisplaySlot::BelowName) => {
            assert(a.spec_name().len() != b.spec_name().len());
        },
        (DisplaySlot::Team(TeamColor::Gray), DisplaySlot::Team(TeamColor::Black)) => {
            assert(a.spec_name().len() != b.spec_name().len());
        },
        (DisplaySlot::Team(TeamColor::Gray), DisplaySlot::Team(TeamColor::DarkBlue)) => {
            assert(a.spec_name().len() != b.spec_name().len());
        },
        (DisplaySlot::Team(TeamColor::Gray), DisplaySlot::Team(TeamColor::DarkGreen)) => {
            assert(a.spec_name().len() != b.spec_name().len());
        },
        (DisplaySlot::Team(TeamColor::Gray), DisplaySlot::Team(TeamColor::DarkAqua)) => {
            assert(a.spec_name().len() != b.spec_name().len());
        },
        (DisplaySlot::Team(TeamColor::Gray), DisplaySlot::Team(TeamColor::DarkRed)) => {
            assert(a.spec_name().len() != b.spec_name().len());
        },
        (DisplaySlot::Team(TeamColor::Gray), DisplaySlot::Team(TeamColor::DarkPurple)) => {
            assert(a.spec_name().len() != b.spec_name().len());
        },
        (DisplaySlot::Team(TeamColor::Gray), DisplaySlot::Team(TeamColor::Gold)) => {
            assert(a.spec_name()[14] != b.spec_name()[14]);
        },
        (DisplaySlot::Team(TeamColor::Gray), DisplaySlot::Team(TeamColor::DarkGray)) => {
            assert(a.spec_name().len() != b.spec_name().len());
        },
        (DisplaySlot::Team(TeamColor::Gray), DisplaySlot::Team(TeamColor::Blue)) => {
            assert(a.spec_name()[13] != b.spec_name()[13]);
        },
        (DisplaySlot::Team(TeamColor::Gray), DisplaySlot::Team(TeamColor::Green)) => {
            assert(a.spec_name().len() != b.spec_name().len());
        },
        (DisplaySlot::Team(TeamColor::Gray), DisplaySlot::Team(TeamColor::Aqua)) => {
            assert(a.spec_name()[13] != b.spec_name()[13]);
        },
        (DisplaySlot::Team(TeamColor::Gray), DisplaySlot::Team(TeamColor::Red)) => {
            assert(a.spec_name().len() != b.spec_name().len());
        },
        (DisplaySlot::Team(TeamColor::Gray), DisplaySlot::Team(TeamColor::LightPurple)) => {
            assert(a.spec_name().len() != b.spec_name().len());
        },
        (DisplaySlot::Team(TeamColor::Gray), DisplaySlot::Team(TeamColor::Yellow)) => {
            assert(a.spec_name().len() != b.spec_name().len());
        },
        (DisplaySlot::Team(TeamColor::Gray), DisplaySlot::Team(TeamColor::White)) => {
            assert(a.spec_name().len() != b.spec_name().len());
        },
        (DisplaySlot::Team(TeamColor::DarkGray), DisplaySlot::List) => {
            assert(a.spec_name().len() != b.spec_name().len());
        },
        (DisplaySlot::Team(TeamColor::DarkGray), DisplaySlot::Sidebar) => {
            assert(a.spec_name().len() != b.spec_name().len());
        },
        (DisplaySlot::Team(TeamColor::DarkGray), DisplaySlot::BelowName) => {
            assert(a.spec_name().len() != b.spec_name().len());
        },
        (DisplaySlot::Team(TeamColor::DarkGray), DisplaySlot::Team(TeamColor::Black)) => {
            assert(a.spec_name().len() != b.spec_name().len());
        },
        (DisplaySlot::Team(TeamColor::DarkGray), DisplaySlot::Team(TeamColor::DarkBlue)) => {
            assert(a.spec_name()[18] != b.spec_name()[18]);
        },
        (DisplaySlot::Team(TeamColor::DarkGray), DisplaySlot::Team(TeamColor::DarkGreen)) => {
            assert(a.spec_name().len() != b.spec_name().len());
        },
        (DisplaySlot::Team(TeamColor::DarkGray), DisplaySlot::Team(TeamColor::DarkAqua)) => {
            assert(a.spec_name()[18] != b.spec_name()[18]);
        },
        (DisplaySlot::Team(TeamColor::DarkGray), DisplaySlot::Team(TeamColor::DarkRed)) => {
            assert(a.spec_name().len() != b.spec_name().len());
        },
        (DisplaySlot::Team(TeamColor::DarkGray), DisplaySlot::Team(TeamColor::DarkPurple)) => {
            assert(a.spec_name().len() != b.spec_name().len());
        },
        (DisplaySlot::Team(TeamColor::DarkGray), DisplaySlot::Team(TeamColor::Gold)) => {
            assert(a.spec_name().len() != b.spec_name().len());
        },
        (DisplaySlot::Team(TeamColor::DarkGray), DisplaySlot::Team(TeamColor::Gray)) => {
            assert(a.spec_name().len() != b.spec_name().len());
        },
        (DisplaySlot::Team(TeamColor::DarkGray), DisplaySlot::Team(TeamColor::Blue)) => {
            assert(a.spec_name().len() != b.spec_name().len());
        },
        (DisplaySlot::Team(TeamColor::DarkGray), DisplaySlot::Team(TeamColor::Green)) => {
            assert(a.spec_name().len() != b.spec_name().len());
        },
        (DisplaySlot::Team(TeamColor::DarkGray), DisplaySlot::Team(TeamColor::Aqua)) => {
            assert(a.spec_name().len() != b.spec_name().len());
        },
        (DisplaySlot::Team(TeamColor::DarkGray), DisplaySlot::Team(TeamColor::Red)) => {
            assert(a.spec_name().len() != b.spec_name().len());
        },
        (DisplaySlot::Team(TeamColor::DarkGray), DisplaySlot::Team(TeamColor::LightPurple)) => {
            assert(a.spec_name().len() != b.spec_name().len());
        },
        (DisplaySlot::Team(TeamColor::DarkGray), DisplaySlot::Team(TeamColor::Yellow)) => {
            assert(a.spec_name().len() != b.spec_name().len());
        },
        (DisplaySlot::Team(TeamColor::DarkGray), DisplaySlot::Team(TeamColor::White)) => {
            assert(a.spec_name().len() != b.spec_name().len());
        },
        (DisplaySlot::Team(TeamColor::Blue), DisplaySlot::List) => {
            assert(a.spec_name().len() != b.spec_name().len());
        },
        (DisplaySlot::Team(TeamColor::Blue), DisplaySlot::Sidebar) => {
            assert(a.spec_name().len() != b.spec_name().len());
        },
        (DisplaySlot::Team(TeamColor::Blue), DisplaySlot::BelowName) => {
            assert(a.spec_name().len() != b.spec_name().len());
        },
        (DisplaySlot::Team(TeamColor::Blue), DisplaySlot::Team(TeamColor::Black)) => {
            assert(a.spec_name().len() != b.spec_name().len());
        },
        (DisplaySlot::Team(TeamColor::Blue), DisplaySlot::Team(TeamColor::DarkBlue)) => {
            assert(a.spec_name().len() != b.spec_name().len());
        },
        (DisplaySlot::Team(TeamColor::Blue), DisplaySlot::Team(TeamColor::DarkGreen)) => {
            assert(a.spec_name().len() != b.spec_name().len());
        },
        (DisplaySlot::Team(TeamColor::Blue), DisplaySlot::Team(TeamColor::DarkAqua)) => {
            assert(a.spec_name().len() != b.spec_name().len());
        },
        (DisplaySlot::Team(TeamColor::Blue), DisplaySlot::Team(TeamColor::DarkRed)) => {
            assert(a.spec_name().len() != b.spec_name().len());
        },
        (DisplaySlot::Team(TeamColor::Blue), DisplaySlot::Team(TeamColor::DarkPurple)) => {
            assert(a.spec_name().len() != b.spec_name().len());
        },
        (DisplaySlot::Team(TeamColor::Blue), DisplaySlot::Team(TeamColor::Gold)) => {
            assert(a.spec_name()[13] != b.spec_name()[13]);
        },
        (DisplaySlot::Team(TeamColor::Blue), DisplaySlot::Team(TeamColor::Gray)) => {
            assert(a.spec_name()[13] != b.spec_name()[13]);
        },
        (DisplaySlot::Team(TeamColor::Blue), DisplaySlot::Team(TeamColor::DarkGray)) => {
            assert(a.spec_name().len() != b.spec_name().len());
        },
        (DisplaySlot::Team(TeamColor::Blue), DisplaySlot::Team(TeamColor::Green)) => {
            assert(a.spec_name().len() != b.spec_name().len());
        },
        (DisplaySlot::Team(TeamColor::Blue), DisplaySlot::Team(TeamColor::Aqua)) => {
            assert(a.spec_name()[13] != b.spec_name()[13]);
        },
        (DisplaySlot::Team(TeamColor::Blue), DisplaySlot::Team(TeamColor::Red)) => {
            assert(a.spec_name().len() != b.spec_name().len());
        },
        (DisplaySlot::Team(TeamColor::Blue), DisplaySlot::Team(TeamColor::LightPurple)) => {
            assert(a.spec_name().len() != b.spec_name().len());
        },
        (DisplaySlot::Team(TeamColor::Blue), DisplaySlot::Team(TeamColor::Yellow)) => {
            assert(a.spec_name().len() != b.spec_name().len());
        },
        (DisplaySlot::Team(TeamColor::Blue), DisplaySlot::Team(TeamColor::White)) => {
            assert(a.spec_name().len() != b.spec_name().len());
        },
        (DisplaySlot::Team(TeamColor::Green), DisplaySlot::List) => {
            assert(a.spec_name().len() != b.spec_name().len());
        },
        (DisplaySlot::Team(TeamColor::Green), DisplaySlot::Sidebar) => {
            assert(a.spec_name().len() != b.spec_name().len());
        },
        (DisplaySlot::Team(TeamColor::Green), DisplaySlot::BelowName) => {
            assert(a.spec_name().len() != b.spec_name().len());
        },
        (DisplaySlot::Team(TeamColor::Green), DisplaySlot::Team(TeamColor::Black)) => {
            assert(a.spec_name()[13] != b.spec_name()[13]);
        },
        (DisplaySlot::Team(TeamColor::Green), DisplaySlot::Team(TeamColor::DarkBlue)) => {
            assert(a.spec_name().len() != b.spec_name().len());
        },
        (DisplaySlot::Team(TeamColor::Green), DisplaySlot::Team(TeamColor::DarkGreen)) => {
            assert(a.spec_name().len() != b.spec_name().len());
        },
        (DisplaySlot::Team(TeamColor::Green), DisplaySlot::Team(TeamColor::DarkAqua)) => {
            assert(a.spec_name().len() != b.spec_name().len());
        },
        (DisplaySlot::Team(TeamColor::Green), DisplaySlot::Team(TeamColor::DarkRed)) => {
            assert(a.spec_name().len() != b.spec_name().len());
        },
        (DisplaySlot::Team(TeamColor::Green), DisplaySlot::Team(TeamColor::DarkPurple)) => {
            assert(a.spec_name().len() != b.spec_name().len());
        },
        (DisplaySlot::Team(TeamColor::Green), DisplaySlot::Team(TeamColor::Gold)) => {
            assert(a.spec_name().len() != b.spec_name().len());
        },
        (DisplaySlot::Team(TeamColor::Green), DisplaySlot::Team(TeamColor::Gray)) => {
            assert(a.spec_name().len() != b.spec_name().len());
        },
        (DisplaySlot::Team(TeamColor::Green), DisplaySlot::Team(TeamColor::DarkGray)) => {
            assert(a.spec_name().len() != b.spec_name().len());
        },
        (DisplaySlot::Team(TeamColor::Green), DisplaySlot::Team(TeamColor::Blue)) => {
            assert(a.spec_name().len() != b.spec_name().len());
        },
        (DisplaySlot::Team(TeamColor::Green), DisplaySlot::Team(TeamColor::Aqua)) => {
            assert(a.spec_name().len() != b.spec_name().len());
        },
        (DisplaySlot::Team(TeamColor::Green), DisplaySlot::Team(TeamColor::Red)) => {
            assert(a.spec_name().len() != b.spec_name().len());
        },
        (DisplaySlot::Team(TeamColor::Green), DisplaySlot::Team(TeamColor::LightPurple)) => {
            assert(a.spec_name().len() != b.spec_name().len());
        },
        (DisplaySlot::Team(TeamColor::Green), DisplaySlot::Team(TeamColor::Yellow)) => {
            assert(a.spec_name().len() != b.spec_name().len());
        },
        (DisplaySlot::Team(TeamColor::Green), DisplaySlot::Team(TeamColor::White)) => {
            assert(a.spec_name()[13] != b.spec_name()[13]);
        },
        (DisplaySlot::Team(TeamColor::Aqua), DisplaySlot::List) => {
            assert(a.spec_name().len() != b.spec_name().len());
        },
        (DisplaySlot::Team(TeamColor::Aqua), DisplaySlot::Sidebar) => {
            assert(a.spec_name().len() != b.spec_name().len());
        },
        (DisplaySlot::Team(TeamColor::Aqua), DisplaySlot::BelowName) => {
            assert(a.spec_name().len() != b.spec_name().len());
        },
        (DisplaySlot::Team(TeamColor::Aqua), DisplaySlot::Team(TeamColor::Black)) => {
            assert(a.spec_name().len() != b.spec_name().len());
        },
        (DisplaySlot::Team(TeamColor::Aqua), DisplaySlot::Team(TeamColor::DarkBlue)) => {
            assert(a.spec_name().len() != b.spec_name().len());
        },
        (DisplaySlot::Team(TeamColor::Aqua), DisplaySlot::Team(TeamColor::DarkGreen)) => {
            assert(a.spec_name().len() != b.spec_name().len());
        },
        (DisplaySlot::Team(TeamColor::Aqua), DisplaySlot::Team(TeamColor::DarkAqua)) => {
            assert(a.spec_name().len() != b.spec_name().len());
        },
        (DisplaySlot::Team(TeamColor::Aqua), DisplaySlot::Team(TeamColor::DarkRed)) => {
            assert(a.spec_name().len() != b.spec_name().len());
        },
        (DisplaySlot::Team(TeamColor::Aqua), DisplaySlot::Team(TeamColor::DarkPurple)) => {
            assert(a.spec_name().len() != b.spec_name().len());
        },
        (DisplaySlot::Team(TeamColor::Aqua), DisplaySlot::Team(TeamColor::Gold)) => {
            assert(a.spec_name()[13] != b.spec_name()[13]);
        },
        (DisplaySlot::Team(TeamColor::Aqua), DisplaySlot::Team(TeamColor::Gray)) => {
            assert(a.spec_name()[13] != b.spec_name()[13]);
        },
        (DisplaySlot::Team(TeamColor::Aqua), DisplaySlot::Team(TeamColor::DarkGray)) => {
            assert(a.spec_name().len() != b.spec_name().len());
        },
        (DisplaySlot::Team(TeamColor::Aqua), DisplaySlot::Team(TeamColor::Blue)) => {
            assert(a.spec_name()[13] != b.spec_name()[13]);
        },
        (DisplaySlot::Team(TeamColor::Aqua), DisplaySlot::Team(TeamColor::Green)) => {
            assert(a.spec_name().len() != b.spec_name().len());
        },
        (DisplaySlot::Team(TeamColor::Aqua), DisplaySlot::Team(TeamColor::Red)) => {
            assert(a.spec_name().len() != b.spec_name().len());
        },
        (DisplaySlot::Team(TeamColor::Aqua), DisplaySlot::Team(TeamColor::LightPurple)) => {
            assert(a.spec_name().len() != b.spec_name().len());
        },
        (DisplaySlot::Team(TeamColor::Aqua), DisplaySlot::Team(TeamColor::Yellow)) => {
            assert(a.spec_name().len() != b.spec_name().len());
        },
        (DisplaySlot::Team(TeamColor::Aqua), DisplaySlot::Team(TeamColor::White)) => {
            assert(a.spec_name().len() != b.spec_name().len());
        },
        (DisplaySlot::Team(TeamColor::Red), DisplaySlot::List) => {
            assert(a.spec_name().len() != b.spec_name().len());
        },
        (DisplaySlot::Team(TeamColor::Red), DisplaySlot::Sidebar) => {
            assert(a.spec_name().len() != b.spec_name().len());
        },
        (DisplaySlot::Team(TeamColor::Red), DisplaySlot::BelowName) => {
            assert(a.spec_name().len() != b.spec_name().len());
        },
        (DisplaySlot::Team(TeamColor::Red), DisplaySlot::Team(TeamColor::Black)) => {
            assert(a.spec_name().len() != b.spec_name().len());
        },
        (DisplaySlot::Team(TeamColor::Red), DisplaySlot::Team(TeamColor::DarkBlue)) => {
            assert(a.spec_name().len() != b.spec_name().len());
        },
        (DisplaySlot::Team(TeamColor::Red), DisplaySlot::Team(TeamColor::DarkGreen)) => {
            assert(a.spec_name().len() != b.spec_name().len());
        },
        (DisplaySlot::Team(TeamColor::Red), DisplaySlot::Team(TeamColor::DarkAqua)) => {
            assert(a.spec_name().len() != b.spec_name().len());
        },
        (DisplaySlot::Team(TeamColor::Red), DisplaySlot::Team(TeamColor::DarkRed)) => {
            assert(a.spec_name().len() != b.spec_name().len());
        },
        (DisplaySlot::Team(TeamColor::Red), DisplaySlot::Team(TeamColor::DarkPurple)) => {
            assert(a.spec_name().len() != b.spec_name().len());
        },
        (DisplaySlot::Team(TeamColor::Red), DisplaySlot::Team(TeamColor::Gold)) => {
            assert(a.spec_name().len() != b.spec_name().len());
        },
        (DisplaySlot::Team(TeamColor::Red), DisplaySlot::Team(TeamColor::Gray)) => {
            assert(a.spec_name().len() != b.spec_name().len());
        },
        (DisplaySlot::Team(TeamColor::Red), DisplaySlot::Team(TeamColor::DarkGray)) => {
            assert(a.spec_name().len() != b.spec_name().len());
        },
        (DisplaySlot::Team(TeamColor::Red), DisplaySlot::Team(TeamColor::Blue)) => {
            assert(a.spec_name().len() != b.spec_name().len());
        },
        (DisplaySlot::Team(TeamColor::Red), DisplaySlot::Team(TeamColor::Green)) => {
            assert(a.spec_name().len() != b.spec_name().len());
        },
        (DisplaySlot::Team(TeamColor::Red), DisplaySlot::Team(TeamColor::Aqua)) => {
            assert(a.spec_name().len() != b.spec_name().len());
        },
        (DisplaySlot::Team(TeamColor::Red), DisplaySlot::Team(TeamColor::LightPurple)) => {
            assert(a.spec_name().len() != b.spec_name().len());
        },
        (DisplaySlot::Team(TeamColor::Red), DisplaySlot::Team(TeamColor::Yellow)) => {
            assert(a.spec_name().len() != b.spec_name().len());
        },
        (DisplaySlot::Team(TeamColor::Red), DisplaySlot::Team(TeamColor::White)) => {
            assert(a.spec_name().len() != b.spec_name().len());
        },
        (DisplaySlot::Team(TeamColor::LightPurple), DisplaySlot::List) => {
            assert(a.spec_name().len() != b.spec_name().len());
        },
        (DisplaySlot::Team(TeamColor::LightPurple), DisplaySlot::Sidebar) => {
            assert(a.spec_name().len() != b.spec_name().len());
        },
        (DisplaySlot::Team(TeamColor::LightPurple), DisplaySlot::BelowName) => {
            assert(a.spec_name().len() != b.spec_name().len());
        },
        (DisplaySlot::Team(TeamColor::LightPurple), DisplaySlot::Team(TeamColor::Black)) => {
            assert(a.spec_name().len() != b.spec_name().len());
        },
        (DisplaySlot::Team(TeamColor::LightPurple), DisplaySlot::Team(TeamColor::DarkBlue)) => {
            assert(a.spec_name().len() != b.spec_name().len());
        },
        (DisplaySlot::Team(TeamColor::LightPurple), DisplaySlot::Team(TeamColor::DarkGreen)) => {
            assert(a.spec_name().len() != b.spec_name().len());
        },
        (DisplaySlot::Team(TeamColor::LightPurple), DisplaySlot::Team(TeamColor::DarkAqua)) => {
            assert(a.spec_name().len() != b.spec_name().len());
        },
        (DisplaySlot::Team(TeamColor::LightPurple), DisplaySlot::Team(TeamColor::DarkRed)) => {
            assert(a.spec_name().len() != b.spec_name().len());
        },
        (DisplaySlot::Team(TeamColor::LightPurple), DisplaySlot::Team(TeamColor::DarkPurple)) => {
            assert(a.spec_name().len() != b.spec_name().len());
        },
        (DisplaySlot::Team(TeamColor::LightPurple), DisplaySlot::Team(TeamColor::Gold)) => {
            assert(a.spec_name().len() != b.spec_name().len());
        },
        (DisplaySlot::Team(TeamColor::LightPurple), DisplaySlot::Team(TeamColor::Gray)) => {
            assert(a.spec_name().len() != b.spec_name().len());
        },
        (DisplaySlot::Team(TeamColor::LightPurple), DisplaySlot::Team(TeamColor::DarkGray)) => {
            assert(a.spec_name().len() != b.spec_name().len());
        },
        (DisplaySlot::Team(TeamColor::LightPurple), DisplaySlot::Team(TeamColor::Blue)) => {
            assert(a.spec_name().len() != b.spec_name().len());
        },
        (DisplaySlot::Team(TeamColor::LightPurple), DisplaySlot::Team(TeamColor::Green)) => {
            assert(a.spec_name().len() != b.spec_name().len());
        },
        (DisplaySlot::Team(TeamColor::LightPurple), DisplaySlot::Team(TeamColor::Aqua)) => {
            assert(a.spec_name().len() != b.spec_name().len());
        },
        (DisplaySlot::Team(TeamColor::LightPurple), DisplaySlot::Team(TeamColor::Red)) => {
            assert(a.spec_name().len() != b.spec_name().len());
        },
        (DisplaySlot::Team(TeamColor::LightPurple), DisplaySlot::Team(TeamColor::Yellow)) => {
            assert(a.spec_name().len() != b.spec_name().len());
        },
        (DisplaySlot::Team(TeamColor::LightPurple), DisplaySlot::Team(TeamColor::White)) => {
            assert(a.spec_name().len() != b.spec_name().len());
        },
        (DisplaySlot::Team(TeamColor::Yellow), DisplaySlot::List) => {
            assert(a.spec_name().len() != b.spec_name().len());
        },
        (DisplaySlot::Team(TeamColor::Yellow), DisplaySlot::Sidebar) => {
            assert(a.spec_name().len() != b.spec_name().len());
        },
        (DisplaySlot::Team(TeamColor::Yellow), DisplaySlot::BelowName) => {
            assert(a.spec_name().len() != b.spec_name().len());
        },
        (DisplaySlot::Team(TeamColor::Yellow), DisplaySlot::Team(TeamColor::Black)) => {
            assert(a.spec_name().len() != b.spec_name().len());
        },
        (DisplaySlot::Team(TeamColor::Yellow), DisplaySlot::Team(TeamColor::DarkBlue)) => {
            assert(a.spec_name().len() != b.spec_name().len());
        },
        (DisplaySlot::Team(TeamColor::Yellow), DisplaySlot::Team(TeamColor::DarkGreen)) => {
            assert(a.spec_name().len() != b.spec_name().len());
        },
        (DisplaySlot::Team(TeamColor::Yellow), DisplaySlot::Team(TeamColor::DarkAqua)) => {
            assert(a.spec_name().len() != b.spec_name().len());
        },
        (DisplaySlot::Team(TeamColor::Yellow), DisplaySlot::Team(TeamColor::DarkRed)) => {
            assert(a.spec_name().len() != b.spec_name().len());
        },
        (DisplaySlot::Team(TeamColor::Yellow), DisplaySlot::Team(TeamColor::DarkPurple)) => {
            assert(a.spec_name().len() != b.spec_name().len());
        },
        (DisplaySlot::Team(TeamColor::Yellow), DisplaySlot::Team(TeamColor::Gold)) => {
            assert(a.spec_name().len() != b.spec_name().len());
        },
        (DisplaySlot::Team(TeamColor::Yellow), DisplaySlot::Team(TeamColor::Gray)) => {
            assert(a.spec_name().len() != b.spec_name().len());
        },
        (DisplaySlot::Team(TeamColor::Yellow), DisplaySlot::Team(TeamColor::DarkGray)) => {
            assert(a.spec_name().len() != b.spec_name().len());
        },
        (DisplaySlot::Team(TeamColor::Yellow), DisplaySlot::Team(TeamColor::Blue)) => {
            assert(a.spec_name().len() != b.spec_name().len());
        },
        (DisplaySlot::Team(TeamColor::Yellow), DisplaySlot::Team(TeamColor::Green)) => {
            assert(a.spec_name().len() != b.spec_name().len());
        },
        (DisplaySlot::Team(TeamColor::Yellow), DisplaySlot::Team(TeamColor::Aqua)) => {
            assert(a.spec_name().len() != b.spec_name().len());
        },
        (DisplaySlot::Team(TeamColor::Yellow), DisplaySlot::Team(TeamColor::Red)) => {
            assert(a.spec_name().len() != b.spec_name().len());
        },
        (DisplaySlot::Team(TeamColor::Yellow), DisplaySlot::Team(TeamColor::LightPurple)) => {
            assert(a.spec_name().len() != b.spec_name().len());
        },
        (DisplaySlot::Team(TeamColor::Yellow), DisplaySlot::Team(TeamColor::White)) => {
            assert(a.spec_name().len() != b.spec_name().len());
        },
        (DisplaySlot::Team(TeamColor::White), DisplaySlot::List) => {
            assert(a.spec_name().len() != b.spec_name().len());
        },
        (DisplaySlot::Team(TeamColor::White), DisplaySlot::Sidebar) => {
            assert(a.spec_name().len() != b.spec_name().len());
        },
        (DisplaySlot::Team(TeamColor::White), DisplaySlot::BelowName) => {
            assert(a.spec_name().len() != b.spec_name().len());
        },
        (DisplaySlot::Team(TeamColor::White), DisplaySlot::Team(TeamColor::Black)) => {
            assert(a.spec_name()[13] != b.spec_name()[13]);
        },
        (DisplaySlot::Team(TeamColor::White), DisplaySlot::Team(TeamColor::DarkBlue)) => {
            assert(a.spec_name().len() != b.spec_name().len());
        },
        (DisplaySlot::Team(TeamColor::White), DisplaySlot::Team(TeamColor::DarkGreen)) => {
            assert(a.spec_name().len() != b.spec_name().len());
        },
        (DisplaySlot::Team(TeamColor::White), DisplaySlot::Team(TeamColor::DarkAqua)) => {
            assert(a.spec_name().len() != b.spec_name().len());
        },
        (DisplaySlot::Team(TeamColor::White), DisplaySlot::Team(TeamColor::DarkRed)) => {
            assert(a.spec_name().len() != b.spec_name().len());
        },
        (DisplaySlot::Team(TeamColor::White), DisplaySlot::Team(TeamColor::DarkPurple)) => {
            assert(a.spec_name().len() != b.spec_name().len());
        },
        (DisplaySlot::Team(TeamColor::White), DisplaySlot::Team(TeamColor::Gold)) => {
            assert(a.spec_name().len() != b.spec_name().len());
        },
        (DisplaySlot::Team(TeamColor::White), DisplaySlot::Team(TeamColor::Gray)) => {
            assert(a.spec_name().len() != b.spec_name().len());
        },
        (DisplaySlot::Team(TeamColor::White), DisplaySlot::Team(TeamColor::DarkGray)) => {
            assert(a.spec_name().len() != b.spec_name().len());
        },
        (DisplaySlot::Team(TeamColor::White), DisplaySlot::Team(TeamColor::Blue)) => {
            assert(a.spec_name().len() != b.spec_name().len());
        },
        (DisplaySlot::Team(TeamColor::White), DisplaySlot::Team(TeamColor::Green)) => {
            assert(a.spec_name()[13] != b.spec_name()[13]);
        },
        (DisplaySlot::Team(TeamColor::White), DisplaySlot::Team(TeamColor::Aqua)) => {
            assert(a.spec_name().len() != b.spec_name().len());
        },
        (DisplaySlot::Team(TeamColor::White), DisplaySlot::Team(TeamColor::Red)) => {
            assert(a.spec_name().len() != b.spec_name().len());
        },
        (DisplaySlot::Team(TeamColor::White), DisplaySlot::Team(TeamColor::LightPurple)) => {
            assert(a.spec_name().len() != b.spec_name().len());
        },
        (DisplaySlot::Team(TeamColor::White), DisplaySlot::Team(TeamColor::Yellow)) => {
            assert(a.spec_name().len() != b.spec_name().len());
        },
        _ => {},
    }
}

} // verus!
