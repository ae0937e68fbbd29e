//! The criteria of objectives: what updates their scores.
use crate::team_color::TeamColor;
use crate::text::owned;
use rustc_hash::FxHashMap;
use vstd::prelude::*;
use vstd::string::StringExecFns;

verus! {

/// Tells the client how to display an objective's scores in the tab list.
#[derive(Copy, Clone, Debug, PartialEq, Eq, Structural)]
pub enum RenderType {
    /// Tells the client to display the score as an integer in the tab list.
    Integer,
    /// Tells the client to display the score as hearts in the tab list.
    Hearts,
}

/// What a criterion is: its name, whether commands may not change its
/// scores, and how its scores are shown by default.
pub struct CriterionView {
    pub name: Seq<char>,
    pub read_only: bool,
    pub render_type: RenderType,
}

/// Represents the criterion of an objective, which updates the scores of the
/// objective depending on the criterion used.
#[derive(Debug, Clone)]
pub struct ObjectiveCriterion {
    name: String,
    read_only: bool,
    render_type: RenderType,
}

impl View for ObjectiveCriterion {
    type V = CriterionView;

    closed spec fn view(&self) -> CriterionView {
        CriterionView {
            name: self.name@,
            read_only: self.read_only,
            render_type: self.render_type,
        }
    }
}

/// The vanilla criteria that need no statistic, in registration order.
pub open spec fn vanilla_custom_criteria_spec() -> Seq<CriterionView> {
    seq![
        CriterionView { name: "dummy"@, read_only: false, render_type: RenderType::Integer },
        CriterionView { name: "trigger"@, read_only: false, render_type: RenderType::Integer },
        CriterionView { name: "deathCount"@, read_only: false, render_type: RenderType::Integer },
        CriterionView { name: "playerKillCount"@, read_only: false, render_type: RenderType::Integer },
        CriterionView { name: "totalKillCount"@, read_only: false, render_type: RenderType::Integer },
        CriterionView { name: "health"@, read_only: true, render_type: RenderType::Hearts },
        CriterionView { name: "food"@, read_only: true, render_type: RenderType::Integer },
        CriterionView { name: "air"@, read_only: true, render_type: RenderType::Integer },
        CriterionView { name: "armor"@, read_only: true, render_type: RenderType::Integer },
        CriterionView { name: "xp"@, read_only: true, render_type: RenderType::Integer },
        CriterionView { name: "level"@, read_only: true, render_type: RenderType::Integer },
    ]
}

/// The table that registering a list of criteria builds: each name maps to
/// the last criterion registered under it.
pub open spec fn criteria_map(list: Seq<CriterionView>) -> Map<Seq<char>, CriterionView>
    decreases list.len(),
{
    if list.len() == 0 {
        Map::empty()
    } else {
        criteria_map(list.drop_last()).insert(list.last().name, list.last())
    }
}

impl ObjectiveCriterion {
    /// A criterion with default properties: writable, shown as integers.
    pub fn custom(name: &str) -> (r: Self)
        ensures
            r@ == (CriterionView { name: name@, read_only: false, render_type: RenderType::Integer }),
    {
        Self::custom_with_properties(name, false, RenderType::Integer)
    }

    /// A criterion with the given properties.
    pub fn custom_with_properties(name: &str, read_only: bool, render_type: RenderType) -> (r: Self)
        ensures
            r@ == (CriterionView { name: name@, read_only, render_type }),
    {
        ObjectiveCriterion { name: owned(name), read_only, render_type }
    }

    /// Gets a criterion from its name.
    pub fn from_name(name: &str) -> (r: Option<Self>)
        ensures
            match r {
                Some(c) => objective_criteria_spec().contains_key(name@) && c@
                    == objective_criteria_spec()[name@],
                None => !objective_criteria_spec().contains_key(name@),
            },
    {
        let criteria = ObjectiveCriteria::init();
        criteria.get(name)
    }

    /// A copy of this criterion.
    pub fn duplicate(&self) -> (r: Self)
        ensures
            r@ == self@,
    {
        ObjectiveCriterion {
            name: self.name.clone(),
            read_only: self.read_only,
            render_type: self.render_type,
        }
    }

    /// Returns the name used by this criterion.
    pub fn name(&self) -> (r: &str)
        ensures
            r@ == self@.name,
    {
        self.name.as_str()
    }

    /// Returns whether the scores of the objectives with this criterion are
    /// read-only, i.e. cannot be modified by commands directly.
    pub fn read_only(&self) -> (r: bool)
        ensures
            r == self@.read_only,
    {
        self.read_only
    }

    /// Returns how objectives with this criterion are displayed by default.
    pub fn render_type(&self) -> (r: RenderType)
        ensures
            r == self@.render_type,
    {
        self.render_type
    }
}

/// The vanilla criteria that need no statistic, in registration order.
pub fn vanilla_custom_criteria() -> (r: Vec<ObjectiveCriterion>)
    ensures
        r@.map_values(|c: ObjectiveCriterion| c@) == vanilla_custom_criteria_spec(),
{
    let r = vec![
        ObjectiveCriterion::custom("dummy"),
        ObjectiveCriterion::custom("trigger"),
        ObjectiveCriterion::custom("deathCount"),
        ObjectiveCriterion::custom("playerKillCount"),
        ObjectiveCriterion::custom("totalKillCount"),
        ObjectiveCriterion::custom_with_properties("health", true, RenderType::Hearts),
        ObjectiveCriterion::custom_with_properties("food", true, RenderType::Integer),
        ObjectiveCriterion::custom_with_properties("air", true, RenderType::Integer),
        ObjectiveCriterion::custom_with_properties("armor", true, RenderType::Integer),
        ObjectiveCriterion::custom_with_properties("xp", true, RenderType::Integer),
        ObjectiveCriterion::custom_with_properties("level", true, RenderType::Integer),
    ];
    assert(r@.map_values(|c: ObjectiveCriterion| c@) =~= vanilla_custom_criteria_spec());
    r
}

/// A table with no criteria.
pub open spec fn no_criteria() -> Map<Seq<char>, CriterionView> {
    Map::empty()
}

/// What a criteria table holds: the criterion registered under each name.
pub uninterp spec fn criteria_table(m: FxHashMap<String, ObjectiveCriterion>) -> Map<
    Seq<char>,
    CriterionView,
>;

/// An empty `FxHashMap` (`FxHashMap::default`): it holds nothing.
#[verifier::external_body]
fn table_new() -> (r: FxHashMap<String, ObjectiveCriterion>)
    ensures
        criteria_table(r) == no_criteria(),
{
    FxHashMap::default()
}

/// `HashMap::insert` keyed by the criterion's name: afterwards the name maps
/// to the criterion and every other name keeps its criterion.
#[verifier::external_body]
fn table_insert(m: &mut FxHashMap<String, ObjectiveCriterion>, c: ObjectiveCriterion)
    ensures
        criteria_table(*final(m)) == criteria_table(*old(m)).insert(c@.name, c@),
{
    m.insert(c.name.clone(), c);
}

/// `HashMap::get` by name, cloning what it finds: the criterion registered
/// under the name, if any.
#[verifier::external_body]
fn table_get(m: &FxHashMap<String, ObjectiveCriterion>, name: &str) -> (r: Option<ObjectiveCriterion>)
    ensures
        match r {
            Some(c) => criteria_table(*m).contains_key(name@) && c@ == criteria_table(*m)[name@],
            None => !criteria_table(*m).contains_key(name@),
        },
{
    m.get(name).cloned()
}

/// The table of criteria that objectives can be created with.
pub struct ObjectiveCriteria {
    vanilla_custom_criteria: FxHashMap<String, ObjectiveCriterion>,
}

impl View for ObjectiveCriteria {
    type V = Map<Seq<char>, CriterionView>;

    closed spec fn view(&self) -> Map<Seq<char>, CriterionView> {
        criteria_table(self.vanilla_custom_criteria)
    }
}

impl ObjectiveCriteria {
    /// The table of the criteria that need no statistic: the vanilla
    /// custom criteria and the criteria of each team color.
    pub fn init() -> (r: Self)
        ensures
            r@ == objective_criteria_spec(),
    {
        let mut criteria = ObjectiveCriteria { vanilla_custom_criteria: table_new() };
        register_vanilla_custom_criteria(&mut criteria);
        assert(criteria@ =~= criteria_map(vanilla_custom_criteria_spec()));
        register_team_criteria(&mut criteria);
        criteria
    }

    /// Registers a criterion under its name.
    pub fn register(&mut self, criterion: ObjectiveCriterion)
        ensures
            final(self)@ == old(self)@.insert(criterion@.name, criterion@),
    {
        table_insert(&mut self.vanilla_custom_criteria, criterion);
    }

    /// The criterion registered under a name.
    pub fn get(&self, name: &str) -> (r: Option<ObjectiveCriterion>)
        ensures
            match r {
                Some(c) => self@.contains_key(name@) && c@ == self@[name@],
                None => !self@.contains_key(name@),
            },
    {
        table_get(&self.vanilla_custom_criteria, name)
    }
}

/// Registers a list of criteria in order.
fn register_all(criteria: &mut ObjectiveCriteria, list: Vec<ObjectiveCriterion>)
    ensures
        final(criteria)@ == old(criteria)@.union_prefer_right(
            criteria_map(list@.map_values(|c: ObjectiveCriterion| c@)),
        ),
{
    let ghost views = list@.map_values(|c: ObjectiveCriterion| c@);
    let ghost start = criteria@;
    let mut list = list;
    let n = list.len();
    let mut i: usize = 0;
    assert(criteria_map(views.take(0)) =~= Map::<Seq<char>, CriterionView>::empty());
    assert(start =~= start.union_prefer_right(Map::<Seq<char>, CriterionView>::empty()));
    while list.len() > 0
        invariant
            i + list@.len() == views.len(),
            views.len() == n,
            forall|j: int| 0 <= j < list@.len() ==> #[trigger] list@[j]@ == views[i + j],
            criteria@ == start.union_prefer_right(criteria_map(views.take(i as int))),
        decreases list@.len(),
    {
        let ghost l0 = list@;
        let c = list.remove(0);
        assert(c@ == views[i as int]);
        assert forall|j: int| 0 <= j < list@.len() implies #[trigger] list@[j]@ == views[i + 1 + j] by {
            assert(list@[j] == l0[j + 1]);
        }
        let ghost before = criteria@;
        criteria.register(c);
        proof {
            assert(views.take(i + 1).drop_last() =~= views.take(i as int));
            assert(views.take(i + 1).last() == views[i as int]);
            assert(criteria@ =~= start.union_prefer_right(criteria_map(views.take(i + 1))));
        }
        i = i + 1;
    }
    assert(views.take(i as int) =~= views);
}

/// Registers the vanilla criteria that need no statistic.
fn register_vanilla_custom_criteria(criteria: &mut ObjectiveCriteria)
    ensures
        final(criteria)@ == old(criteria)@.union_prefer_right(
            criteria_map(vanilla_custom_criteria_spec()),
        ),
{
    register_all(criteria, vanilla_custom_criteria());
}

/// Registers the criteria of every team color for team kills and for kills
/// by a team.
pub fn register_team_criteria(criteria: &mut ObjectiveCriteria)
    ensures
        final(criteria)@ == old(criteria)@.union_prefer_right(
            team_criteria_map("teamkill"@),
        ).union_prefer_right(team_criteria_map("killedByTeam"@)),
{
    team_kill().register(criteria);
    killed_by_team().register(criteria);
}

/// The criteria of every team color under a prefix, by name.
pub open spec fn team_criteria_map(prefix: Seq<char>) -> Map<Seq<char>, CriterionView> {
    Map::new(
        |k: Seq<char>| exists|c: TeamColor| team_criterion_spec(prefix, c).name == k,
        |k: Seq<char>|
            team_criterion_spec(prefix, choose|c: TeamColor| team_criterion_spec(prefix, c).name == k),
    )
}

/// Each team color's criterion is found under its name.
pub proof fn lemma_team_criteria_map(prefix: Seq<char>)
    ensures
        forall|c: TeamColor| #[trigger] team_criteria_map(prefix).contains_key(
            team_criterion_spec(prefix, c).name,
        ),
        forall|c: TeamColor|
            #[trigger] team_criteria_map(prefix)[team_criterion_spec(prefix, c).name]
                == team_criterion_spec(prefix, c),
{
    assert forall|c: TeamColor| #[trigger] team_criteria_map(prefix)[team_criterion_spec(prefix, c).name]
        == team_criterion_spec(prefix, c) by {
        let k = team_criterion_spec(prefix, c).name;
        let d = choose|d: TeamColor| team_criterion_spec(prefix, d).name == k;
        if d != c {
            lemma_team_criterion_names_distinct(prefix, d, c);
        }
    }
}

/// Every criterion that objectives can be created with, by name: the
/// vanilla custom criteria, then the team-kill and killed-by-team criteria
/// of each team color.
pub open spec fn objective_criteria_spec() -> Map<Seq<char>, CriterionView> {
    criteria_map(vanilla_custom_criteria_spec()).union_prefer_right(
        team_criteria_map("teamkill"@),
    ).union_prefer_right(team_criteria_map("killedByTeam"@))
}

/// The criterion of a team color under a prefix: named `prefix.color`.
pub open spec fn team_criterion_spec(prefix: Seq<char>, color: TeamColor) -> CriterionView {
    CriterionView {
        name: prefix + "."@ + color.spec_name(),
        read_only: false,
        render_type: RenderType::Integer,
    }
}

/// The names in a list of criteria are distinct.
pub open spec fn names_distinct(list: Seq<CriterionView>) -> bool {
    forall|i: int, j: int| 0 <= i < j < list.len() ==> list[i].name != list[j].name
}

/// Registering criteria with distinct names makes each found by its name,
/// and nothing else.
pub proof fn lemma_criteria_map_finds_each(list: Seq<CriterionView>)
    requires
        names_distinct(list),
    ensures
        forall|i: int|
            0 <= i < list.len() ==> #[trigger] criteria_map(list).contains_key(list[i].name),
        forall|i: int|
            0 <= i < list.len() ==> #[trigger] criteria_map(list)[list[i].name] == list[i],
        forall|k: Seq<char>|
            #[trigger] criteria_map(list).contains_key(k) ==> exists|i: int|
                0 <= i < list.len() && list[i].name == k,
    decreases list.len(),
{
    if list.len() > 0 {
        let rest = list.drop_last();
        assert(names_distinct(rest)) by {
            assert forall|i: int, j: int| 0 <= i < j < rest.len() implies rest[i].name != rest[j].name by {
                assert(rest[i] == list[i] && rest[j] == list[j]);
            }
        }
        lemma_criteria_map_finds_each(rest);
        assert forall|i: int| 0 <= i < list.len() implies #[trigger] criteria_map(list).contains_key(
            list[i].name,
        ) by {
            if i < list.len() - 1 {
                assert(rest[i] == list[i]);
                assert(criteria_map(rest).contains_key(rest[i].name));
            }
        }
        assert forall|i: int| 0 <= i < list.len() implies #[trigger] criteria_map(list)[list[i].name]
            == list[i] by {
            if i < list.len() - 1 {
                assert(rest[i] == list[i]);
                assert(criteria_map(rest)[rest[i].name] == rest[i]);
                assert(list[i].name != list[list.len() - 1].name);
            }
        }
        assert forall|k: Seq<char>| #[trigger] criteria_map(list).contains_key(k) implies exists|i: int|
            0 <= i < list.len() && list[i].name == k by {
            if k != list.last().name {
                assert(criteria_map(rest).contains_key(k));
                let i = choose|i: int| 0 <= i < rest.len() && rest[i].name == k;
                assert(list[i].name == k);
            } else {
                assert(list[list.len() - 1].name == k);
            }
        }
    }
}

/// The vanilla criteria have distinct names, so each is found by its name.
proof fn lemma_vanilla_criteria_found()
    ensures
        names_distinct(vanilla_custom_criteria_spec()),
        forall|i: int|
            0 <= i < vanilla_custom_criteria_spec().len() ==> #[trigger] criteria_map(
                vanilla_custom_criteria_spec(),
            ).contains_key(vanilla_custom_criteria_spec()[i].name),
        forall|i: int|
            0 <= i < vanilla_custom_criteria_spec().len() ==> #[trigger] criteria_map(
                vanilla_custom_criteria_spec(),
            )[vanilla_custom_criteria_spec()[i].name] == vanilla_custom_criteria_spec()[i],
{
    reveal_strlit("dummy");
    reveal_strlit("trigger");
    reveal_strlit("deathCount");
    reveal_strlit("playerKillCount");
    reveal_strlit("totalKillCount");
    reveal_strlit("health");
    reveal_strlit("food");
    reveal_strlit("air");
    reveal_strlit("armor");
    reveal_strlit("xp");
    reveal_strlit("level");
    let l = vanilla_custom_criteria_spec();
    assert(l[0].name.len() != l[1].name.len());
    assert(l[0].name.len() != l[2].name.len());
    assert(l[0].name.len() != l[3].name.len());
    assert(l[0].name.len() != l[4].name.len());
    assert(l[0].name.len() != l[5].name.len());
    assert(l[0].name.len() != l[6].name.len());
    assert(l[0].name.len() != l[7].name.len());
    assert(l[0].name[0] != l[8].name[0]);
    assert(l[0].name.len() != l[9].name.len());
    assert(l[0].name[0] != l[10].name[0]);
    assert(l[1].name.len() != l[2].name.len());
    assert(l[1].name.len() != l[3].name.len());
    assert(l[1].name.len() != l[4].name.len());
    assert(l[1].name.len() != l[5].name.len());
    assert(l[1].name.len() != l[6].name.len());
    assert(l[1].name.len() != l[7].name.len());
    assert(l[1].name.len() != l[8].name.len());
    assert(l[1].name.len() != l[9].name.len());
    assert(l[1].name.len() != l[10].name.len());
    assert(l[2].name.len() != l[3].name.len());
    assert(l[2].name.len() != l[4].name.len());
    assert(l[2].name.len() != l[5].name.len());
    assert(l[2].name.len() != l[6].name.len());
    assert(l[2].name.len() != l[7].name.len());
    assert(l[2].name.len() != l[8].name.len());
    assert(l[2].name.len() != l[9].name.len());
    assert(l[2].name.len() != l[10].name.len());
    assert(l[3].name.len() != l[4].name.len());
    assert(l[3].name.len() != l[5].name.len());
    assert(l[3].name.len() != l[6].name.len());
    assert(l[3].name.len() != l[7].name.len());
    assert(l[3].name.len() != l[8].name.len());
    assert(l[3].name.len() != l[9].name.len());
    assert(l[3].name.len() != l[10].name.len());
    assert(l[4].name.len() != l[5].name.len());
    assert(l[4].name.len() != l[6].name.len());
    assert(l[4].name.len() != l[7].name.len());
    assert(l[4].name.len() != l[8].name.len());
    assert(l[4].name.len() != l[9].name.len());
    assert(l[4].name.len() != l[10].name.len());
    assert(l[5].name.len() != l[6].name.len());
    assert(l[5].name.len() != l[7].name.len());
    assert(l[5].name.len() != l[8].name.len());
    assert(l[5].name.len() != l[9].name.len());
    assert(l[5].name.len() != l[10].name.len());
    assert(l[6].name.len() != l[7].name.len());
    assert(l[6].name.len() != l[8].name.len());
    assert(l[6].name.len() != l[9].name.len());
    assert(l[6].name.len() != l[10].name.len());
    assert(l[7].name.len() != l[8].name.len());
    assert(l[7].name.len() != l[9].name.len());
    assert(l[7].name.len() != l[10].name.len());
    assert(l[8].name.len() != l[9].name.len());
    assert(l[8].name[0] != l[10].name[0]);
    assert(l[9].name.len() != l[10].name.len());
    lemma_criteria_map_finds_each(l);
}

/// No vanilla criterion is named like a team criterion: a team-kill name
/// begins with "te" and a killed-by-team name with "k".
proof fn lemma_vanilla_not_team(i: int, c: TeamColor)
    requires
        0 <= i < vanilla_custom_criteria_spec().len(),
    ensures
        vanilla_custom_criteria_spec()[i].name != team_criterion_spec("teamkill"@, c).name,
        vanilla_custom_criteria_spec()[i].name != team_criterion_spec("killedByTeam"@, c).name,
{
    reveal_strlit("teamkill");
    reveal_strlit("killedByTeam");
    reveal_strlit("dummy");
    reveal_strlit("trigger");
    reveal_strlit("deathCount");
    reveal_strlit("playerKillCount");
    reveal_strlit("totalKillCount");
    reveal_strlit("health");
    reveal_strlit("food");
    reveal_strlit("air");
    reveal_strlit("armor");
    reveal_strlit("xp");
    reveal_strlit("level");
    let t = team_criterion_spec("teamkill"@, c).name;
    let k = team_criterion_spec("killedByTeam"@, c).name;
    assert(t[0] == 't' && t[1] == 'e');
    assert(k[0] == 'k');
    let v = vanilla_custom_criteria_spec()[i].name;
    assert(v[0] != 'k');
    assert(v[0] != 't' || v[1] != 'e');
}

/// No team-kill criterion is named like a killed-by-team criterion.
proof fn lemma_team_kill_not_killed_by_team(a: TeamColor, b: TeamColor)
    ensures
        team_criterion_spec("teamkill"@, a).name != team_criterion_spec("killedByTeam"@, b).name,
{
    reveal_strlit("teamkill");
    reveal_strlit("killedByTeam");
    let t = team_criterion_spec("teamkill"@, a).name;
    let k = team_criterion_spec("killedByTeam"@, b).name;
    assert(t[0] != k[0]);
}

/// Every criterion that needs no statistic is found by its name, as it was
/// defined: each vanilla custom criterion, and the team-kill and
/// killed-by-team criterion of each team color. Nothing else is found.
pub proof fn lemma_criteria_found()
    ensures
        forall|i: int|
            0 <= i < vanilla_custom_criteria_spec().len() ==> #[trigger] objective_criteria_spec().contains_key(
                vanilla_custom_criteria_spec()[i].name,
            ),
        forall|i: int|
            0 <= i < vanilla_custom_criteria_spec().len() ==> #[trigger] objective_criteria_spec()[vanilla_custom_criteria_spec()[i].name]
                == vanilla_custom_criteria_spec()[i],
        forall|c: TeamColor| #[trigger] objective_criteria_spec().contains_key(
            team_criterion_spec("teamkill"@, c).name,
        ),
        forall|c: TeamColor|
            #[trigger] objective_criteria_spec()[team_criterion_spec("teamkill"@, c).name]
                == team_criterion_spec("teamkill"@, c),
        forall|c: TeamColor| #[trigger] objective_criteria_spec().contains_key(
            team_criterion_spec("killedByTeam"@, c).name,
        ),
        forall|c: TeamColor|
            #[trigger] objective_criteria_spec()[team_criterion_spec("killedByTeam"@, c).name]
                == team_criterion_spec("killedByTeam"@, c),
        forall|k: Seq<char>|
            #[trigger] objective_criteria_spec().contains_key(k) ==> (exists|i: int|
                0 <= i < vanilla_custom_criteria_spec().len() && vanilla_custom_criteria_spec()[i].name
                    == k) || (exists|c: TeamColor| team_criterion_spec("teamkill"@, c).name == k)
                || (exists|c: TeamColor| team_criterion_spec("killedByTeam"@, c).name == k),
{
    let l = vanilla_custom_criteria_spec();
    let tk = team_criteria_map("teamkill"@);
    let kb = team_criteria_map("killedByTeam"@);
    lemma_vanilla_criteria_found();
    lemma_criteria_map_finds_each(l);
    lemma_team_criteria_map("teamkill"@);
    lemma_team_criteria_map("killedByTeam"@);
    assert forall|i: int| 0 <= i < l.len() implies !tk.contains_key(#[trigger] l[i].name)
        && !kb.contains_key(l[i].name) by {
        if tk.contains_key(l[i].name) {
            let c = choose|c: TeamColor| team_criterion_spec("teamkill"@, c).name == l[i].name;
            lemma_vanilla_not_team(i, c);
        }
        if kb.contains_key(l[i].name) {
            let c = choose|c: TeamColor| team_criterion_spec("killedByTeam"@, c).name == l[i].name;
            lemma_vanilla_not_team(i, c);
        }
    }
    assert forall|c: TeamColor| !kb.contains_key(#[trigger] team_criterion_spec("teamkill"@, c).name) by {
        let n = team_criterion_spec("teamkill"@, c).name;
        if kb.contains_key(n) {
            let d = choose|d: TeamColor| team_criterion_spec("killedByTeam"@, d).name == n;
            lemma_team_kill_not_killed_by_team(c, d);
        }
    }
}

/// The properties of the criteria found by name: each is named by its key;
/// only "health" is shown as hearts, every other criterion as an integer;
/// and exactly the locked criteria (health, food, air, armor, xp and level)
/// are read-only. Every vanilla criterion that needs no statistic is found.
pub proof fn lemma_criteria_properties()
    ensures
        forall|k: Seq<char>|
            #[trigger] objective_criteria_spec().contains_key(k) ==> {
                &&& objective_criteria_spec()[k].name == k
                &&& (objective_criteria_spec()[k].render_type == RenderType::Hearts) == (k
                    == "health"@)
                &&& objective_criteria_spec()[k].read_only == (k == "health"@ || k == "food"@ || k
                    == "air"@ || k == "armor"@ || k == "xp"@ || k == "level"@)
            },
        objective_criteria_spec().contains_key("dummy"@),
        objective_criteria_spec().contains_key("trigger"@),
        objective_criteria_spec().contains_key("deathCount"@),
        objective_criteria_spec().contains_key("playerKillCount"@),
        objective_criteria_spec().contains_key("totalKillCount"@),
        objective_criteria_spec().contains_key("health"@),
        objective_criteria_spec().contains_key("food"@),
        objective_criteria_spec().contains_key("air"@),
        objective_criteria_spec().contains_key("armor"@),
        objective_criteria_spec().contains_key("xp"@),
        objective_criteria_spec().contains_key("level"@),
{
    let l = vanilla_custom_criteria_spec();
    let t = objective_criteria_spec();
    lemma_criteria_found();
    lemma_vanilla_criteria_found();
    assert(l[0].name == "dummy"@ && l[1].name == "trigger"@ && l[2].name == "deathCount"@);
    assert(l[3].name == "playerKillCount"@ && l[4].name == "totalKillCount"@);
    assert(l[5].name == "health"@ && l[6].name == "food"@ && l[7].name == "air"@);
    assert(l[8].name == "armor"@ && l[9].name == "xp"@ && l[10].name == "level"@);
    assert(t.contains_key(l[0].name) && t.contains_key(l[1].name) && t.contains_key(l[2].name));
    assert(t.contains_key(l[3].name) && t.contains_key(l[4].name) && t.contains_key(l[5].name));
    assert(t.contains_key(l[6].name) && t.contains_key(l[7].name) && t.contains_key(l[8].name));
    assert(t.contains_key(l[9].name) && t.contains_key(l[10].name));
    assert forall|k: Seq<char>| #[trigger] t.contains_key(k) implies {
        &&& t[k].name == k
        &&& (t[k].render_type == RenderType::Hearts) == (k == "health"@)
        &&& t[k].read_only == (k == "health"@ || k == "food"@ || k == "air"@ || k == "armor"@ || k
            == "xp"@ || k == "level"@)
    } by {
        if exists|i: int| 0 <= i < l.len() && l[i].name == k {
            let i = choose|i: int| 0 <= i < l.len() && l[i].name == k;
            assert(t[l[i].name] == l[i]);
            assert forall|j: int| 0 <= j < l.len() && j != i implies l[j].name != k by {
                if j < i {
                    assert(l[j].name != l[i].name);
                } else {
                    assert(l[i].name != l[j].name);
                }
            }
            if i == 5 {
            } else if i == 6 {
            } else if i == 7 {
            } else if i == 8 {
            } else if i == 9 {
            } else if i == 10 {
            } else {
                assert(k != l[5].name && k != l[6].name && k != l[7].name && k != l[8].name && k
                    != l[9].name && k != l[10].name);
                assert(0 <= i <= 4);
                assert(!l[i].read_only && l[i].render_type == RenderType::Integer) by {
                    if i == 0 {
                    } else if i == 1 {
                    } else if i == 2 {
                    } else if i == 3 {
                    } else {
                    }
                }
            }
        } else {
            let c = if exists|c: TeamColor| team_criterion_spec("teamkill"@, c).name == k {
                choose|c: TeamColor| team_criterion_spec("teamkill"@, c).name == k
            } else {
                choose|c: TeamColor| team_criterion_spec("killedByTeam"@, c).name == k
            };
            if team_criterion_spec("teamkill"@, c).name == k {
                assert(t[team_criterion_spec("teamkill"@, c).name] == team_criterion_spec("teamkill"@, c));
            } else {
                assert(t[team_criterion_spec("killedByTeam"@, c).name] == team_criterion_spec(
                    "killedByTeam"@,
                    c,
                ));
            }
            lemma_vanilla_not_team(5, c);
            lemma_vanilla_not_team(6, c);
            lemma_vanilla_not_team(7, c);
            lemma_vanilla_not_team(8, c);
            lemma_vanilla_not_team(9, c);
            lemma_vanilla_not_team(10, c);
        }
    }
}

/// Represents a map where each team color has its own criterion.
pub struct TeamObjectiveCriteria {
    prefix: String,
    criteria: Vec<ObjectiveCriterion>,
}

impl View for TeamObjectiveCriteria {
    type V = Seq<char>;

    /// The prefix of the criteria's names.
    closed spec fn view(&self) -> Seq<char> {
        self.prefix@
    }
}

impl TeamObjectiveCriteria {
    /// There is one criterion per team color, at the color's ID.
    pub closed spec fn wf(&self) -> bool {
        &&& self.criteria@.len() == 16
        &&& forall|c: TeamColor|
            (#[trigger] self.criteria@[c.spec_id()])@ == team_criterion_spec(self.prefix@, c)
    }

    /// The criteria of every team color under a prefix.
    pub fn new(prefix: &str) -> (r: Self)
        ensures
            r.wf(),
            r@ == prefix@,
    {
        let colors = TeamColor::values();
        let mut criteria: Vec<ObjectiveCriterion> = Vec::new();
        let mut i: usize = 0;
        while i < colors.len()
            invariant
                colors@.len() == 16,
                forall|j: int| 0 <= j < 16 ==> (#[trigger] colors@[j]).spec_id() == j,
                i <= 16,
                criteria@.len() == i,
                forall|j: int|
                    0 <= j < i ==> (#[trigger] criteria@[j])@ == team_criterion_spec(
                        prefix@,
                        colors@[j],
                    ),
            decreases 16 - i,
        {
            let color = colors[i];
            let name = owned(prefix).concat(".").concat(color.name());
            proof {
                assert(name@ == prefix@ + "."@ + color.spec_name());
            }
            criteria.push(ObjectiveCriterion::custom(name.as_str()));
            i = i + 1;
        }
        let r = TeamObjectiveCriteria { prefix: owned(prefix), criteria };
        proof {
            assert forall|c: TeamColor| (#[trigger] r.criteria@[c.spec_id()])@ == team_criterion_spec(
                r.prefix@,
                c,
            ) by {
                crate::team_color::lemma_team_color_names_ids_distinct(c, c);
                let j = c.spec_id();
                crate::team_color::lemma_team_color_round_trip(c, colors@[j]);
            }
        }
        r
    }

    /// Gets the criterion stored in this map for the given color.
    pub fn get(&self, color: TeamColor) -> (r: &ObjectiveCriterion)
        requires
            self.wf(),
        ensures
            r@ == team_criterion_spec(self@, color),
    {
        proof {
            crate::team_color::lemma_team_color_names_ids_distinct(color, color);
        }
        let id = color.id();
        &self.criteria[id as usize]
    }

    /// Registers the criterion of every team color.
    pub fn register(&self, criteria: &mut ObjectiveCriteria)
        requires
            self.wf(),
        ensures
            forall|c: TeamColor| #[trigger] final(criteria)@.contains_key(
                team_criterion_spec(self@, c).name,
            ),
            forall|c: TeamColor|
                #[trigger] final(criteria)@[team_criterion_spec(self@, c).name]
                    == team_criterion_spec(self@, c),
            forall|k: Seq<char>|
                #[trigger] final(criteria)@.contains_key(k) ==> old(criteria)@.contains_key(k)
                    || exists|c: TeamColor| team_criterion_spec(self@, c).name == k,
            forall|k: Seq<char>|
                old(criteria)@.contains_key(k) && (forall|c: TeamColor|
                    team_criterion_spec(self@, c).name != k) ==> #[trigger] final(criteria)@[k]
                    == old(criteria)@[k],
            final(criteria)@ == old(criteria)@.union_prefer_right(team_criteria_map(self@)),
    {
        let ghost start = criteria@;
        let colors = TeamColor::values();
        let mut i: usize = 0;
        while i < 16
            invariant
                self.wf(),
                colors@.len() == 16,
                forall|j: int| 0 <= j < 16 ==> (#[trigger] colors@[j]).spec_id() == j,
                i <= 16,
                forall|c: TeamColor|
                    0 <= c.spec_id() < i ==> #[trigger] criteria@.contains_key(
                        team_criterion_spec(self@, c).name,
                    ),
                forall|c: TeamColor|
                    0 <= c.spec_id() < i ==> #[trigger] criteria@[team_criterion_spec(self@, c).name]
                        == team_criterion_spec(self@, c),
                forall|k: Seq<char>|
                    #[trigger] criteria@.contains_key(k) ==> start.contains_key(k) || exists|
                        c: TeamColor,
                    | team_criterion_spec(self@, c).name == k,
                forall|k: Seq<char>|
                    start.contains_key(k) && (forall|c: TeamColor|
                        team_criterion_spec(self@, c).name != k) ==> #[trigger] criteria@[k]
                        == start[k],
                forall|k: Seq<char>| start.contains_key(k) ==> #[trigger] criteria@.contains_key(k),
            decreases 16 - i,
        {
            let color = colors[i];
            let c = self.get(color).duplicate();
            let ghost before = criteria@;
            criteria.register(c);
            proof {
                assert forall|d: TeamColor| 0 <= d.spec_id() < i + 1 implies #[trigger] criteria@.contains_key(
                    team_criterion_spec(self@, d).name,
                ) by {
                    crate::team_color::lemma_team_color_round_trip(d, color);
                    if d != color {
                        lemma_team_criterion_names_distinct(self@, d, color);
                        assert(before.contains_key(team_criterion_spec(self@, d).name));
                    }
                }
                assert forall|d: TeamColor| 0 <= d.spec_id() < i + 1 implies #[trigger] criteria@[
                    team_criterion_spec(self@, d).name] == team_criterion_spec(self@, d) by {
                    crate::team_color::lemma_team_color_round_trip(d, color);
                    if d != color {
                        lemma_team_criterion_names_distinct(self@, d, color);
                        assert(before[team_criterion_spec(self@, d).name] == team_criterion_spec(self@, d));
                    }
                }
            }
            i = i + 1;
        }
        proof {
            assert forall|d: TeamColor| #[trigger] criteria@.contains_key(team_criterion_spec(self@, d).name) by {
                crate::team_color::lemma_team_color_names_ids_distinct(d, d);
            }
            assert forall|d: TeamColor| #[trigger] criteria@[team_criterion_spec(self@, d).name] == team_criterion_spec(self@, d) by {
                crate::team_color::lemma_team_color_names_ids_distinct(d, d);
            }
            lemma_team_criteria_map(self@);
            let want = start.union_prefer_right(team_criteria_map(self@));
            assert forall|k: Seq<char>| #[trigger] criteria@.contains_key(k) == want.contains_key(k) by {
                if team_criteria_map(self@).contains_key(k) {
                    let c = choose|c: TeamColor| team_criterion_spec(self@, c).name == k;
                    assert(criteria@.contains_key(team_criterion_spec(self@, c).name));
                }
                if criteria@.contains_key(k) && !start.contains_key(k) {
                    let c = choose|c: TeamColor| team_criterion_spec(self@, c).name == k;
                    assert(team_criteria_map(self@).contains_key(team_criterion_spec(self@, c).name));
                }
            }
            assert forall|k: Seq<char>| #[trigger] criteria@.contains_key(k) implies criteria@[k] == want[k] by {
                if team_criteria_map(self@).contains_key(k) {
                    let c = choose|c: TeamColor| team_criterion_spec(self@, c).name == k;
                    assert(criteria@[team_criterion_spec(self@, c).name] == team_criterion_spec(self@, c));
                }
            }
            assert(criteria@ =~= want);
        }
    }
}

/// Different team colors give differently named criteria under one prefix.
pub proof fn lemma_team_criterion_names_distinct(prefix: Seq<char>, a: TeamColor, b: TeamColor)
    requires
        a != b,
    ensures
        team_criterion_spec(prefix, a).name != team_criterion_spec(prefix, b).name,
{
    crate::team_color::lemma_team_color_names_ids_distinct(a, b);
    let head = prefix + "."@;
    let x = head + a.spec_name();
    let y = head + b.spec_name();
    if x == y {
        assert(x.skip(head.len() as int) =~= a.spec_name());
        assert(y.skip(head.len() as int) =~= b.spec_name());
    }
}

/// Updates when a player kills another entity from this team.
pub fn team_kill() -> (r: TeamObjectiveCriteria)
    ensures
        r.wf(),
        r@ == "teamkill"@,
{
    TeamObjectiveCriteria::new("teamkill")
}

/// Updates when this player is killed by another entity from this team.
pub fn killed_by_team() -> (r: TeamObjectiveCriteria)
    ensures
        r.wf(),
        r@ == "killedByTeam"@,
{
    TeamObjectiveCriteria::new("killedByTeam")
}

} // verus!
