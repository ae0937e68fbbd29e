//! Domain-scoped command scoreboard state: objective identity and
//! mutability, score values and locks, and team membership.
use crate::name_map::{enumerates, NameMap};
use crate::text::{lemma_name_lt_irreflexive, name_lt, owned, str_eq, views_of};
use vstd::prelude::*;
use vstd::string::StringExecFns;

verus! {

/// Score holder name stored by the vanilla scoreboard.
#[derive(Clone, Debug, PartialEq, Eq, PartialOrd, Ord, Hash)]
pub struct ScoreHolder {
    name: String,
}

impl View for ScoreHolder {
    type V = Seq<char>;

    closed spec fn view(&self) -> Seq<char> {
        self.name@
    }
}

impl ScoreHolder {
    /// Creates a score holder from its scoreboard name.
    pub fn new(name: &str) -> (h: Self)
        ensures
            h@ == name@,
    {
        ScoreHolder { name: owned(name) }
    }

    /// Returns the scoreboard name.
    pub fn name(&self) -> (n: &str)
        ensures
            n@ == self@,
    {
        self.name.as_str()
    }
}

/// What an objective handle names: the objective and whether commands may
/// change its scores.
pub struct ObjectiveView {
    pub name: Seq<char>,
    pub read_only: bool,
}

/// Objective identity resolved from one domain scoreboard.
#[derive(Clone, Debug, PartialEq, Eq)]
pub struct ScoreboardObjective {
    name: String,
    read_only: bool,
}

impl View for ScoreboardObjective {
    type V = ObjectiveView;

    closed spec fn view(&self) -> ObjectiveView {
        ObjectiveView { name: self.name@, read_only: self.read_only }
    }
}

impl ScoreboardObjective {
    /// Returns the objective name.
    pub fn name(&self) -> (n: &str)
        ensures
            n@ == self@.name,
    {
        self.name.as_str()
    }

    /// Returns whether commands may change scores for this objective.
    pub fn is_read_only(&self) -> (b: bool)
        ensures
            b == self@.read_only,
    {
        self.read_only
    }
}

/// Team identity resolved from one domain scoreboard.
#[derive(Clone, Debug, PartialEq, Eq)]
pub struct ScoreboardTeam {
    name: String,
}

impl View for ScoreboardTeam {
    type V = Seq<char>;

    closed spec fn view(&self) -> Seq<char> {
        self.name@
    }
}

impl ScoreboardTeam {
    /// Returns the team name.
    pub fn name(&self) -> (n: &str)
        ensures
            n@ == self@,
    {
        self.name.as_str()
    }
}

/// The fields of a stored score.
pub struct ScoreView {
    pub value: i32,
    pub locked: bool,
}

/// Stored score fields used by command execution.
#[derive(Clone, Copy, Debug, PartialEq, Eq)]
pub struct ScoreboardScore {
    value: i32,
    locked: bool,
}

impl View for ScoreboardScore {
    type V = ScoreView;

    closed spec fn view(&self) -> ScoreView {
        ScoreView { value: self.value, locked: self.locked }
    }
}

/// Whether scores start locked against `/trigger`-style writes.
pub fn default_score_locked() -> (b: bool)
    ensures
        b,
{
    true
}

impl ScoreboardScore {
    /// A new score with the given value, locked.
    fn new(value: i32) -> (s: Self)
        ensures
            s@ == (ScoreView { value, locked: true }),
    {
        ScoreboardScore { value, locked: default_score_locked() }
    }

    /// A score with the given fields.
    pub fn with_fields(value: i32, locked: bool) -> (s: Self)
        ensures
            s@ == (ScoreView { value, locked }),
    {
        ScoreboardScore { value, locked }
    }

    /// Returns the integer score value.
    pub fn value(self) -> (v: i32)
        ensures
            v == self@.value,
    {
        self.value
    }

    /// Returns whether `/trigger`-style writes are locked.
    pub fn is_locked(self) -> (b: bool)
        ensures
            b == self@.locked,
    {
        self.locked
    }
}

impl Default for ScoreboardScore {
    fn default() -> (s: Self)
        ensures
            s@ == (ScoreView { value: 0, locked: true }),
    {
        Self::new(0)
    }
}

/// What a scoreboard error says.
pub enum ScoreboardErrorView {
    EmptyObjectiveName,
    EmptyTeamName,
    EmptyScoreHolderName,
    DuplicateObjective(Seq<char>),
    DuplicateTeam(Seq<char>),
    MissingObjective(Seq<char>),
    MissingTeam(Seq<char>),
    ReadOnlyObjective(Seq<char>),
}

/// Invalid scoreboard operation or persisted state.
#[derive(Clone, Debug, PartialEq, Eq)]
pub enum ScoreboardError {
    /// Objective names may not be empty.
    EmptyObjectiveName,
    /// Team names may not be empty.
    EmptyTeamName,
    /// Score holder names may not be empty.
    EmptyScoreHolderName,
    /// An objective already exists.
    DuplicateObjective(String),
    /// A team already exists.
    DuplicateTeam(String),
    /// The requested objective does not exist.
    MissingObjective(String),
    /// The requested team does not exist.
    MissingTeam(String),
    /// The objective cannot be written by commands.
    ReadOnlyObjective(String),
}

impl View for ScoreboardError {
    type V = ScoreboardErrorView;

    open spec fn view(&self) -> ScoreboardErrorView {
        match self {
            ScoreboardError::EmptyObjectiveName => ScoreboardErrorView::EmptyObjectiveName,
            ScoreboardError::EmptyTeamName => ScoreboardErrorView::EmptyTeamName,
            ScoreboardError::EmptyScoreHolderName => ScoreboardErrorView::EmptyScoreHolderName,
            ScoreboardError::DuplicateObjective(s) => ScoreboardErrorView::DuplicateObjective(s@),
            ScoreboardError::DuplicateTeam(s) => ScoreboardErrorView::DuplicateTeam(s@),
            ScoreboardError::MissingObjective(s) => ScoreboardErrorView::MissingObjective(s@),
            ScoreboardError::MissingTeam(s) => ScoreboardErrorView::MissingTeam(s@),
            ScoreboardError::ReadOnlyObjective(s) => ScoreboardErrorView::ReadOnlyObjective(s@),
        }
    }
}

/// The text that describes an error.
pub open spec fn error_message(e: ScoreboardErrorView) -> Seq<char> {
    match e {
        ScoreboardErrorView::EmptyObjectiveName => "objective name cannot be empty"@,
        ScoreboardErrorView::EmptyTeamName => "team name cannot be empty"@,
        ScoreboardErrorView::EmptyScoreHolderName => "score holder name cannot be empty"@,
        ScoreboardErrorView::DuplicateObjective(n) => "objective '"@ + n + "' already exists"@,
        ScoreboardErrorView::DuplicateTeam(n) => "team '"@ + n + "' already exists"@,
        ScoreboardErrorView::MissingObjective(n) => "objective '"@ + n + "' does not exist"@,
        ScoreboardErrorView::MissingTeam(n) => "team '"@ + n + "' does not exist"@,
        ScoreboardErrorView::ReadOnlyObjective(n) => "objective '"@ + n + "' is read-only"@,
    }
}

impl ScoreboardError {
    /// The text that describes this error.
    pub fn message(&self) -> (r: String)
        ensures
            r@ == error_message(self@),
    {
        match self {
            ScoreboardError::EmptyObjectiveName => owned("objective name cannot be empty"),
            ScoreboardError::EmptyTeamName => owned("team name cannot be empty"),
            ScoreboardError::EmptyScoreHolderName => owned("score holder name cannot be empty"),
            ScoreboardError::DuplicateObjective(n) => owned("objective '").concat(n.as_str()).concat(
                "' already exists",
            ),
            ScoreboardError::DuplicateTeam(n) => owned("team '").concat(n.as_str()).concat(
                "' already exists",
            ),
            ScoreboardError::MissingObjective(n) => owned("objective '").concat(n.as_str()).concat(
                "' does not exist",
            ),
            ScoreboardError::MissingTeam(n) => owned("team '").concat(n.as_str()).concat(
                "' does not exist",
            ),
            ScoreboardError::ReadOnlyObjective(n) => owned("objective '").concat(n.as_str()).concat(
                "' is read-only",
            ),
        }
    }
}

/// The error that a result holds, if any.
pub open spec fn error_of<T>(r: Result<T, ScoreboardError>) -> Option<ScoreboardErrorView> {
    match r {
        Ok(_) => None,
        Err(e) => Some(e@),
    }
}

/// The scoreboard state that commands read and write.
pub struct ScoreboardModel {
    /// Objective names, each with whether it is read-only.
    pub objectives: Map<Seq<char>, bool>,
    /// Team names.
    pub teams: Set<Seq<char>>,
    /// The team of each holder that joined one.
    pub holder_teams: Map<Seq<char>, Seq<char>>,
    /// The scores of each holder, by objective name.
    pub scores: Map<Seq<char>, Map<Seq<char>, ScoreView>>,
}

/// The empty scoreboard.
pub open spec fn empty_model() -> ScoreboardModel {
    ScoreboardModel {
        objectives: Map::empty(),
        teams: Set::empty(),
        holder_teams: Map::empty(),
        scores: Map::empty(),
    }
}

/// A scoreboard state that may be loaded: names are not empty, every score
/// is for an existing objective and every membership is in an existing team.
pub open spec fn model_valid(m: ScoreboardModel) -> bool {
    &&& forall|o: Seq<char>| #[trigger] m.objectives.contains_key(o) ==> o.len() > 0
    &&& forall|t: Seq<char>| #[trigger] m.teams.contains(t) ==> t.len() > 0
    &&& forall|h: Seq<char>|
        #[trigger] m.scores.contains_key(h) ==> {
            &&& h.len() > 0
            &&& forall|o: Seq<char>|
                #[trigger] m.scores[h].contains_key(o) ==> m.objectives.contains_key(o)
        }
    &&& forall|h: Seq<char>|
        #[trigger] m.holder_teams.contains_key(h) ==> h.len() > 0 && m.teams.contains(
            m.holder_teams[h],
        )
}

/// Adding an objective: its outcome on a state.
pub open spec fn objective_added(m: ScoreboardModel, name: Seq<char>, read_only: bool) -> Result<
    ScoreboardModel,
    ScoreboardErrorView,
> {
    if name.len() == 0 {
        Err(ScoreboardErrorView::EmptyObjectiveName)
    } else if m.objectives.contains_key(name) {
        Err(ScoreboardErrorView::DuplicateObjective(name))
    } else {
        Ok(ScoreboardModel { objectives: m.objectives.insert(name, read_only), ..m })
    }
}

/// Adding a team: its outcome on a state.
pub open spec fn team_added(m: ScoreboardModel, name: Seq<char>) -> Result<
    ScoreboardModel,
    ScoreboardErrorView,
> {
    if name.len() == 0 {
        Err(ScoreboardErrorView::EmptyTeamName)
    } else if m.teams.contains(name) {
        Err(ScoreboardErrorView::DuplicateTeam(name))
    } else {
        Ok(ScoreboardModel { teams: m.teams.insert(name), ..m })
    }
}

/// Putting a holder in a team, replacing any prior membership.
pub open spec fn holder_joined(m: ScoreboardModel, holder: Seq<char>, team: Seq<char>) -> Result<
    ScoreboardModel,
    ScoreboardErrorView,
> {
    if holder.len() == 0 {
        Err(ScoreboardErrorView::EmptyScoreHolderName)
    } else if !m.teams.contains(team) {
        Err(ScoreboardErrorView::MissingTeam(team))
    } else {
        Ok(ScoreboardModel { holder_teams: m.holder_teams.insert(holder, team), ..m })
    }
}

/// The scores of a holder; empty when it has none.
pub open spec fn holder_scores(m: ScoreboardModel, holder: Seq<char>) -> Map<Seq<char>, ScoreView> {
    if m.scores.contains_key(holder) {
        m.scores[holder]
    } else {
        Map::empty()
    }
}

/// Setting a score value: an existing score keeps its lock, a new one is
/// locked.
pub open spec fn score_set(
    m: ScoreboardModel,
    holder: Seq<char>,
    objective: Seq<char>,
    value: i32,
) -> Result<ScoreboardModel, ScoreboardErrorView> {
    if holder.len() == 0 {
        Err(ScoreboardErrorView::EmptyScoreHolderName)
    } else if !m.objectives.contains_key(objective) {
        Err(ScoreboardErrorView::MissingObjective(objective))
    } else if m.objectives[objective] {
        Err(ScoreboardErrorView::ReadOnlyObjective(objective))
    } else {
        let scores = holder_scores(m, holder);
        let locked = if scores.contains_key(objective) {
            scores[objective].locked
        } else {
            true
        };
        Ok(
            ScoreboardModel {
                scores: m.scores.insert(
                    holder,
                    scores.insert(objective, ScoreView { value, locked }),
                ),
                ..m
            },
        )
    }
}

/// Setting a score's lock: an existing score keeps its value, a new one is 0.
pub open spec fn score_lock_set(
    m: ScoreboardModel,
    holder: Seq<char>,
    objective: Seq<char>,
    locked: bool,
) -> Result<ScoreboardModel, ScoreboardErrorView> {
    if holder.len() == 0 {
        Err(ScoreboardErrorView::EmptyScoreHolderName)
    } else if !m.objectives.contains_key(objective) {
        Err(ScoreboardErrorView::MissingObjective(objective))
    } else {
        let scores = holder_scores(m, holder);
        let value = if scores.contains_key(objective) {
            scores[objective].value
        } else {
            0
        };
        Ok(
            ScoreboardModel {
                scores: m.scores.insert(
                    holder,
                    scores.insert(objective, ScoreView { value, locked }),
                ),
                ..m
            },
        )
    }
}

/// The first error of a sequence of validation steps, if any failed.
pub open spec fn first_error(s: Seq<Option<ScoreboardErrorView>>) -> Option<ScoreboardErrorView>
    decreases s.len(),
{
    if s.len() == 0 {
        None
    } else {
        match first_error(s.drop_last()) {
            Some(e) => Some(e),
            None => s.last(),
        }
    }
}

/// The validation of each stored objective name, in order.
pub open spec fn objective_name_errors(p: PersistentScoreboard) -> Seq<Option<ScoreboardErrorView>> {
    Seq::new(
        p.objectives.names().len(),
        |i: int|
            if p.objectives.names()[i].len() == 0 {
                Some(ScoreboardErrorView::EmptyObjectiveName)
            } else {
                None
            },
    )
}

/// The validation of each stored team name, in order.
pub open spec fn team_name_errors(p: PersistentScoreboard) -> Seq<Option<ScoreboardErrorView>> {
    Seq::new(
        p.teams.names().len(),
        |i: int|
            if p.teams.names()[i].len() == 0 {
                Some(ScoreboardErrorView::EmptyTeamName)
            } else {
                None
            },
    )
}

/// The validation of each objective that a holder has a score for, in order.
pub open spec fn holder_objective_errors(
    objectives: Seq<Seq<char>>,
    known: Map<Seq<char>, bool>,
) -> Seq<Option<ScoreboardErrorView>> {
    Seq::new(
        objectives.len(),
        |j: int|
            if known.contains_key(objectives[j]) {
                None
            } else {
                Some(ScoreboardErrorView::MissingObjective(objectives[j]))
            },
    )
}

/// The validation of one holder's scores.
pub open spec fn holder_score_error(
    holder: Seq<char>,
    objectives: Seq<Seq<char>>,
    known: Map<Seq<char>, bool>,
) -> Option<ScoreboardErrorView> {
    if holder.len() == 0 {
        Some(ScoreboardErrorView::EmptyScoreHolderName)
    } else {
        first_error(holder_objective_errors(objectives, known))
    }
}

/// The validation of the scores of each holder, in order.
pub open spec fn score_errors(p: PersistentScoreboard) -> Seq<Option<ScoreboardErrorView>> {
    Seq::new(
        p.scores.names().len(),
        |i: int|
            holder_score_error(
                p.scores.names()[i],
                p.scores.values()[i].names(),
                p.objectives@,
            ),
    )
}

/// The validation of each team membership, in order.
pub open spec fn membership_errors(p: PersistentScoreboard) -> Seq<Option<ScoreboardErrorView>> {
    Seq::new(
        p.holder_teams.names().len(),
        |i: int|
            if p.holder_teams.names()[i].len() == 0 {
                Some(ScoreboardErrorView::EmptyScoreHolderName)
            } else if !p.teams@.contains_key(p.holder_teams.values()[i]@) {
                Some(ScoreboardErrorView::MissingTeam(p.holder_teams.values()[i]@))
            } else {
                None
            },
    )
}

/// Why a stored state may not be loaded: the first failing validation step, taking
/// objective names, then team names, then the scores of each holder, then
/// each team membership, each in name order.
pub open spec fn validation_error(p: PersistentScoreboard) -> Option<ScoreboardErrorView> {
    first_error(
        seq![
            first_error(objective_name_errors(p)),
            first_error(team_name_errors(p)),
            first_error(score_errors(p)),
            first_error(membership_errors(p)),
        ],
    )
}

/// Once a prefix of validation steps has failed, the first error is decided.
pub proof fn lemma_first_error_prefix(s: Seq<Option<ScoreboardErrorView>>, k: int)
    requires
        0 <= k <= s.len(),
        first_error(s.take(k)) is Some,
    ensures
        first_error(s) == first_error(s.take(k)),
    decreases s.len() - k,
{
    if k == s.len() {
        assert(s.take(k) =~= s);
    } else {
        assert(s.drop_last().take(k) =~= s.take(k));
        lemma_first_error_prefix(s.drop_last(), k);
    }
}

/// Extending a passing prefix of validation steps by one.
pub proof fn lemma_first_error_step(s: Seq<Option<ScoreboardErrorView>>, k: int)
    requires
        0 <= k < s.len(),
        first_error(s.take(k)) is None,
    ensures
        first_error(s.take(k + 1)) == s[k],
{
    assert(s.take(k + 1).drop_last() =~= s.take(k));
}

/// No step failed exactly when every step passed.
pub proof fn lemma_first_error_none(s: Seq<Option<ScoreboardErrorView>>)
    ensures
        first_error(s) is None <==> forall|i: int| 0 <= i < s.len() ==> #[trigger] s[i] is None,
    decreases s.len(),
{
    if s.len() > 0 {
        lemma_first_error_none(s.drop_last());
        if first_error(s) is None {
            assert forall|i: int| 0 <= i < s.len() implies #[trigger] s[i] is None by {
                if i < s.len() - 1 {
                    assert(s.drop_last()[i] == s[i]);
                }
            }
        }
        if forall|i: int| 0 <= i < s.len() ==> #[trigger] s[i] is None {
            assert forall|i: int| 0 <= i < s.drop_last().len() implies #[trigger] s.drop_last()[i] is None by {
                assert(s.drop_last()[i] == s[i]);
            }
        }
    }
}

/// Runs validation steps over a whole sequence: the loop state at the end.
proof fn lemma_first_error_all(s: Seq<Option<ScoreboardErrorView>>)
    requires
        first_error(s.take(s.len() as int)) is None,
    ensures
        first_error(s) is None,
{
    assert(s.take(s.len() as int) =~= s);
}

/// A scoreboard's state together with its change counters.
pub struct ScoreboardView {
    pub state: ScoreboardModel,
    /// Counts the changes made since the scoreboard was created or loaded.
    pub revision: u64,
    /// The newest revision known to be saved.
    pub saved_revision: u64,
}

/// The revision after an operation that left the state `after`: one more
/// (wrapping) when the state changed, the same when it did not.
pub open spec fn next_revision(before: ScoreboardView, after: ScoreboardModel) -> u64 {
    if after == before.state {
        before.revision
    } else {
        vstd::wrapping::u64_specs::wrapping_add(before.revision, 1)
    }
}

/// The texts of a map's string values.
pub open spec fn string_views(m: Map<Seq<char>, String>) -> Map<Seq<char>, Seq<char>> {
    m.map_values(|t: String| t@)
}

/// The fields of a map's scores.
pub open spec fn score_views(m: Map<Seq<char>, ScoreboardScore>) -> Map<Seq<char>, ScoreView> {
    m.map_values(|s: ScoreboardScore| s@)
}

/// The fields of the scores of each holder.
pub open spec fn nested_score_views(m: Map<Seq<char>, NameMap<ScoreboardScore>>) -> Map<
    Seq<char>,
    Map<Seq<char>, ScoreView>,
> {
    m.map_values(|inner: NameMap<ScoreboardScore>| score_views(inner@))
}

/// The names of a sequence of score holders.
pub open spec fn holder_names(v: Seq<ScoreHolder>) -> Seq<Seq<char>> {
    v.map_values(|h: ScoreHolder| h@)
}

/// The stored form of a scoreboard: what is saved and loaded.
pub struct PersistentScoreboard {
    /// Objective names, each with whether it is read-only.
    pub objectives: NameMap<bool>,
    /// Team names.
    pub teams: NameMap<()>,
    /// The team of each holder that joined one.
    pub holder_teams: NameMap<String>,
    /// The scores of each holder, by objective name.
    pub scores: NameMap<NameMap<ScoreboardScore>>,
}

impl View for PersistentScoreboard {
    type V = ScoreboardModel;

    open spec fn view(&self) -> ScoreboardModel {
        ScoreboardModel {
            objectives: self.objectives@,
            teams: self.teams@.dom(),
            holder_teams: string_views(self.holder_teams@),
            scores: nested_score_views(self.scores@),
        }
    }
}

impl PersistentScoreboard {
    /// Every map is sorted and holds one value per name.
    pub open spec fn wf(&self) -> bool {
        &&& self.objectives.wf()
        &&& self.teams.wf()
        &&& self.holder_teams.wf()
        &&& self.scores.wf()
        &&& forall|h: Seq<char>| #[trigger] self.scores@.contains_key(h) ==> self.scores@[h].wf()
    }

    /// The score map of each holder is well formed.
    pub proof fn lemma_inner_wf(&self, h: Seq<char>)
        requires
            self.wf(),
            self.scores@.contains_key(h),
        ensures
            self.scores@[h].wf(),
    {
    }

    /// A copy of this state.
    pub fn clone_state(&self) -> (r: Self)
        requires
            self.wf(),
        ensures
            r.wf(),
            r@ == self@,
    {
        let r = PersistentScoreboard {
            objectives: self.objectives.copy(),
            teams: self.teams.copy(),
            holder_teams: self.holder_teams.clone_strings(),
            scores: clone_scores(&self.scores),
        };
        r
    }

    /// An empty state.
    pub fn new() -> (p: Self)
        ensures
            p.wf(),
            p@ == empty_model(),
    {
        let p = PersistentScoreboard {
            objectives: NameMap::new(),
            teams: NameMap::new(),
            holder_teams: NameMap::new(),
            scores: NameMap::new(),
        };
        proof {
            p.scores.lemma_layout();
        }
        assert(p@.teams =~= Set::<Seq<char>>::empty());
        assert(p@.holder_teams =~= Map::<Seq<char>, Seq<char>>::empty());
        assert(p@.scores =~= Map::<Seq<char>, Map<Seq<char>, ScoreView>>::empty());
        p
    }
}

/// The error of an outcome, if it failed.
pub open spec fn outcome_error(o: Result<ScoreboardModel, ScoreboardErrorView>) -> Option<
    ScoreboardErrorView,
> {
    match o {
        Ok(_) => None,
        Err(e) => Some(e),
    }
}

/// `after` is `before` with the outcome of an operation applied: its state
/// on success, no change on failure, and the revision counted on change.
pub open spec fn applied(
    before: ScoreboardView,
    outcome: Result<ScoreboardModel, ScoreboardErrorView>,
    after: ScoreboardView,
) -> bool {
    &&& after.state == match outcome {
        Ok(m) => m,
        Err(_) => before.state,
    }
    &&& after.revision == next_revision(before, after.state)
    &&& after.saved_revision == before.saved_revision
}

/// A copy of the scores of every holder.
fn clone_scores(src: &NameMap<NameMap<ScoreboardScore>>) -> (r: NameMap<NameMap<ScoreboardScore>>)
    requires
        src.wf(),
        forall|h: Seq<char>| #[trigger] src@.contains_key(h) ==> src@[h].wf(),
    ensures
        r.wf(),
        forall|h: Seq<char>| #[trigger] r@.contains_key(h) ==> r@[h].wf(),
        nested_score_views(r@) == nested_score_views(src@),
{
    proof {
        src.lemma_layout();
    }
    let mut r: NameMap<NameMap<ScoreboardScore>> = NameMap::new();
    let n = src.len();
    let mut i: usize = 0;
    while i < n
        invariant
            src.wf(),
            forall|h: Seq<char>| #[trigger] src@.contains_key(h) ==> src@[h].wf(),
            n == src.names().len(),
            i <= n,
            r.wf(),
            r.names() == src.names().take(i as int),
            forall|h: Seq<char>|
                #[trigger] r@.contains_key(h) ==> r@[h].wf() && src@.contains_key(h) && r@[h]@
                    == src@[h]@,
        decreases n - i,
    {
        proof {
            src.lemma_layout();
            r.lemma_layout();
        }
        let k = src.key_at(i).clone();
        let v = src.value_at(i);
        let ghost key = k@;
        assert(src@.contains_key(key));
        let c = v.copy();
        proof {
            assert forall|j: int| 0 <= j < r.names().len() implies name_lt(
                #[trigger] r.names()[j],
                key,
            ) by {
                assert(r.names()[j] == src.names()[j]);
            }
            if r@.contains_key(key) {
                let j = choose|j: int| 0 <= j < r.names().len() && r.names()[j] == key;
                assert(r.names()[j] == src.names()[j]);
                lemma_name_lt_irreflexive(key);
            }
        }
        r.insert_at(i, k, c);
        assert(r.names() =~= src.names().take(i + 1));
        i = i + 1;
    }
    proof {
        assert(src.names().take(i as int) =~= src.names());
        r.lemma_layout();
        src.lemma_layout();
        assert(r@.dom() =~= src@.dom()) by {
            assert forall|h: Seq<char>| src@.contains_key(h) implies r@.contains_key(h) by {
                assert(src.names().contains(h));
            }
        }
        assert(nested_score_views(r@) =~= nested_score_views(src@));
    }
    r
}

/// Writes a score value: an existing score keeps its lock, a new one is
/// locked. Says whether anything changed.
fn write_score_value(inner: &mut NameMap<ScoreboardScore>, objective: &str, value: i32) -> (changed:
    bool)
    requires
        old(inner).wf(),
    ensures
        final(inner).wf(),
        score_views(final(inner)@) == score_views(old(inner)@).insert(
            objective@,
            ScoreView {
                value,
                locked: if old(inner)@.contains_key(objective@) {
                    old(inner)@[objective@]@.locked
                } else {
                    true
                },
            },
        ),
        changed == !(old(inner)@.contains_key(objective@) && old(inner)@[objective@]@.value
            == value),
{
    let ghost before = score_views(inner@);
    match inner.find(objective) {
        Ok(i) => {
            let cur = *inner.value_at(i);
            if cur.value == value {
                assert(before =~= before.insert(objective@, cur@));
                return false;
            }
            inner.replace_at(i, ScoreboardScore { value, locked: cur.locked });
            assert(score_views(inner@) =~= before.insert(
                objective@,
                ScoreView { value, locked: cur.locked },
            ));
            true
        },
        Err(p) => {
            inner.insert_at(p, owned(objective), ScoreboardScore::new(value));
            assert(score_views(inner@) =~= before.insert(
                objective@,
                ScoreView { value, locked: true },
            ));
            true
        },
    }
}

/// Writes a score lock: an existing score keeps its value, a new one is 0.
/// Says whether anything changed.
fn write_score_lock(inner: &mut NameMap<ScoreboardScore>, objective: &str, locked: bool) -> (changed:
    bool)
    requires
        old(inner).wf(),
    ensures
        final(inner).wf(),
        score_views(final(inner)@) == score_views(old(inner)@).insert(
            objective@,
            ScoreView {
                value: if old(inner)@.contains_key(objective@) {
                    old(inner)@[objective@]@.value
                } else {
                    0
                },
                locked,
            },
        ),
        changed == !(old(inner)@.contains_key(objective@) && old(inner)@[objective@]@.locked
            == locked),
{
    let ghost before = score_views(inner@);
    match inner.find(objective) {
        Ok(i) => {
            let cur = *inner.value_at(i);
            if cur.locked == locked {
                assert(before =~= before.insert(objective@, cur@));
                return false;
            }
            inner.replace_at(i, ScoreboardScore { value: cur.value, locked });
            assert(score_views(inner@) =~= before.insert(
                objective@,
                ScoreView { value: cur.value, locked },
            ));
            true
        },
        Err(p) => {
            inner.insert_at(p, owned(objective), ScoreboardScore { value: 0, locked });
            assert(score_views(inner@) =~= before.insert(objective@, ScoreView { value: 0, locked }));
            true
        },
    }
}

fn ensure_objective_name(name: &str) -> (r: Result<(), ScoreboardError>)
    ensures
        match r {
            Ok(_) => name@.len() > 0,
            Err(e) => name@.len() == 0 && e@ == ScoreboardErrorView::EmptyObjectiveName,
        },
{
    if name.is_empty() {
        Err(ScoreboardError::EmptyObjectiveName)
    } else {
        Ok(())
    }
}

fn ensure_team_name(name: &str) -> (r: Result<(), ScoreboardError>)
    ensures
        match r {
            Ok(_) => name@.len() > 0,
            Err(e) => name@.len() == 0 && e@ == ScoreboardErrorView::EmptyTeamName,
        },
{
    if name.is_empty() {
        Err(ScoreboardError::EmptyTeamName)
    } else {
        Ok(())
    }
}

fn ensure_holder_name(name: &str) -> (r: Result<(), ScoreboardError>)
    ensures
        match r {
            Ok(_) => name@.len() > 0,
            Err(e) => name@.len() == 0 && e@ == ScoreboardErrorView::EmptyScoreHolderName,
        },
{
    if name.is_empty() {
        Err(ScoreboardError::EmptyScoreHolderName)
    } else {
        Ok(())
    }
}

/// Looks an objective up: `Ok` with whether it is read-only.
fn ensure_objective_exists(state: &PersistentScoreboard, objective: &ScoreboardObjective) -> (r:
    Result<bool, ScoreboardError>)
    requires
        state.wf(),
    ensures
        match r {
            Ok(ro) => state@.objectives.contains_key(objective@.name) && ro
                == state@.objectives[objective@.name],
            Err(e) => !state@.objectives.contains_key(objective@.name) && e@
                == ScoreboardErrorView::MissingObjective(objective@.name),
        },
{
    match state.objectives.get(objective.name()) {
        Some(ro) => Ok(*ro),
        None => Err(ScoreboardError::MissingObjective(owned(objective.name()))),
    }
}

fn ensure_writable_objective(state: &PersistentScoreboard, objective: &ScoreboardObjective) -> (r:
    Result<(), ScoreboardError>)
    requires
        state.wf(),
    ensures
        match r {
            Ok(_) => state@.objectives.contains_key(objective@.name)
                && !state@.objectives[objective@.name],
            Err(e) => if !state@.objectives.contains_key(objective@.name) {
                e@ == ScoreboardErrorView::MissingObjective(objective@.name)
            } else {
                state@.objectives[objective@.name] && e@ == ScoreboardErrorView::ReadOnlyObjective(
                    objective@.name,
                )
            },
        },
{
    match ensure_objective_exists(state, objective) {
        Ok(read_only) => {
            if read_only {
                Err(ScoreboardError::ReadOnlyObjective(owned(objective.name())))
            } else {
                Ok(())
            }
        },
        Err(e) => Err(e),
    }
}

/// A copy of a scoreboard's state taken for saving, with the revision it
/// shows.
pub struct ScoreboardSaveSnapshot {
    pub revision: u64,
    pub state: PersistentScoreboard,
}

fn check_objective_names(state: &PersistentScoreboard) -> (r: Result<(), ScoreboardError>)
    requires
        state.wf(),
    ensures
        error_of(r) == first_error(objective_name_errors(*state)),
{
    let ghost errs = objective_name_errors(*state);
    let n = state.objectives.len();
    let mut i: usize = 0;
    while i < n
        invariant
            state.wf(),
            n == state.objectives.names().len(),
            errs == objective_name_errors(*state),
            i <= n,
            first_error(errs.take(i as int)) is None,
        decreases n - i,
    {
        proof {
            lemma_first_error_step(errs, i as int);
        }
        match ensure_objective_name(state.objectives.key_at(i).as_str()) {
            Ok(_) => {},
            Err(e) => {
                proof {
                    lemma_first_error_prefix(errs, i + 1);
                }
                return Err(e);
            },
        }
        i = i + 1;
    }
    proof {
        lemma_first_error_all(errs);
    }
    Ok(())
}

fn check_team_names(state: &PersistentScoreboard) -> (r: Result<(), ScoreboardError>)
    requires
        state.wf(),
    ensures
        error_of(r) == first_error(team_name_errors(*state)),
{
    let ghost errs = team_name_errors(*state);
    let n = state.teams.len();
    let mut i: usize = 0;
    while i < n
        invariant
            state.wf(),
            n == state.teams.names().len(),
            errs == team_name_errors(*state),
            i <= n,
            first_error(errs.take(i as int)) is None,
        decreases n - i,
    {
        proof {
            lemma_first_error_step(errs, i as int);
        }
        match ensure_team_name(state.teams.key_at(i).as_str()) {
            Ok(_) => {},
            Err(e) => {
                proof {
                    lemma_first_error_prefix(errs, i + 1);
                }
                return Err(e);
            },
        }
        i = i + 1;
    }
    proof {
        lemma_first_error_all(errs);
    }
    Ok(())
}

fn check_holder_scores(holder: &str, scores: &NameMap<ScoreboardScore>, known: &NameMap<bool>) -> (r:
    Result<(), ScoreboardError>)
    requires
        scores.wf(),
        known.wf(),
    ensures
        error_of(r) == holder_score_error(holder@, scores.names(), known@),
{
    match ensure_holder_name(holder) {
        Ok(_) => {},
        Err(e) => {
            return Err(e);
        },
    }
    let ghost errs = holder_objective_errors(scores.names(), known@);
    let n = scores.len();
    let mut i: usize = 0;
    while i < n
        invariant
            scores.wf(),
            known.wf(),
            n == scores.names().len(),
            errs == holder_objective_errors(scores.names(), known@),
            holder@.len() > 0,
            i <= n,
            first_error(errs.take(i as int)) is None,
        decreases n - i,
    {
        proof {
            lemma_first_error_step(errs, i as int);
        }
        let objective = scores.key_at(i);
        if !known.contains_key(objective.as_str()) {
            proof {
                lemma_first_error_prefix(errs, i + 1);
            }
            return Err(ScoreboardError::MissingObjective(objective.clone()));
        }
        i = i + 1;
    }
    proof {
        lemma_first_error_all(errs);
    }
    Ok(())
}

fn check_scores(state: &PersistentScoreboard) -> (r: Result<(), ScoreboardError>)
    requires
        state.wf(),
    ensures
        error_of(r) == first_error(score_errors(*state)),
{
    let ghost errs = score_errors(*state);
    let n = state.scores.len();
    let mut i: usize = 0;
    while i < n
        invariant
            state.wf(),
            n == state.scores.names().len(),
            errs == score_errors(*state),
            i <= n,
            first_error(errs.take(i as int)) is None,
        decreases n - i,
    {
        proof {
            lemma_first_error_step(errs, i as int);
        }
        let inner = state.scores.value_at(i);
        proof {
            state.scores.lemma_layout();
            state.lemma_inner_wf(state.scores.names()[i as int]);
        }
        match check_holder_scores(state.scores.key_at(i).as_str(), inner, &state.objectives) {
            Ok(_) => {},
            Err(e) => {
                proof {
                    lemma_first_error_prefix(errs, i + 1);
                }
                return Err(e);
            },
        }
        i = i + 1;
    }
    proof {
        lemma_first_error_all(errs);
    }
    Ok(())
}

fn check_memberships(state: &PersistentScoreboard) -> (r: Result<(), ScoreboardError>)
    requires
        state.wf(),
    ensures
        error_of(r) == first_error(membership_errors(*state)),
{
    let ghost errs = membership_errors(*state);
    let n = state.holder_teams.len();
    let mut i: usize = 0;
    while i < n
        invariant
            state.wf(),
            n == state.holder_teams.names().len(),
            errs == membership_errors(*state),
            i <= n,
            first_error(errs.take(i as int)) is None,
        decreases n - i,
    {
        proof {
            lemma_first_error_step(errs, i as int);
        }
        match ensure_holder_name(state.holder_teams.key_at(i).as_str()) {
            Ok(_) => {},
            Err(e) => {
                proof {
                    lemma_first_error_prefix(errs, i + 1);
                }
                return Err(e);
            },
        }
        let team = state.holder_teams.value_at(i);
        if !state.teams.contains_key(team.as_str()) {
            proof {
                lemma_first_error_prefix(errs, i + 1);
            }
            return Err(ScoreboardError::MissingTeam(team.clone()));
        }
        i = i + 1;
    }
    proof {
        lemma_first_error_all(errs);
    }
    Ok(())
}

/// Checks that a stored state may be loaded.
pub fn validate_persistent_scoreboard(state: &PersistentScoreboard) -> (r: Result<(), ScoreboardError>)
    requires
        state.wf(),
    ensures
        error_of(r) == validation_error(*state),
{
    let ghost groups = seq![
        first_error(objective_name_errors(*state)),
        first_error(team_name_errors(*state)),
        first_error(score_errors(*state)),
        first_error(membership_errors(*state)),
    ];
    assert(groups.take(0) =~= Seq::<Option<ScoreboardErrorView>>::empty());
    proof {
        lemma_first_error_step(groups, 0);
    }
    match check_objective_names(state) {
        Ok(_) => {},
        Err(e) => {
            proof {
                lemma_first_error_prefix(groups, 1);
            }
            return Err(e);
        },
    }
    proof {
        lemma_first_error_step(groups, 1);
    }
    match check_team_names(state) {
        Ok(_) => {},
        Err(e) => {
            proof {
                lemma_first_error_prefix(groups, 2);
            }
            return Err(e);
        },
    }
    proof {
        lemma_first_error_step(groups, 2);
    }
    match check_scores(state) {
        Ok(_) => {},
        Err(e) => {
            proof {
                lemma_first_error_prefix(groups, 3);
            }
            return Err(e);
        },
    }
    proof {
        lemma_first_error_step(groups, 3);
    }
    match check_memberships(state) {
        Ok(_) => {},
        Err(e) => {
            proof {
                lemma_first_error_prefix(groups, 4);
            }
            return Err(e);
        },
    }
    proof {
        lemma_first_error_all(groups);
    }
    Ok(())
}

impl PersistentScoreboard {
    /// A stored state passes validation exactly when it is valid.
    pub proof fn lemma_validation_iff_valid(&self)
        requires
            self.wf(),
        ensures
            validation_error(*self) is None <==> model_valid(self@),
    {
        let p = *self;
        let m = self@;
        self.objectives.lemma_layout();
        self.teams.lemma_layout();
        self.holder_teams.lemma_layout();
        self.scores.lemma_layout();
        let oe = objective_name_errors(p);
        let te = team_name_errors(p);
        let se = score_errors(p);
        let me = membership_errors(p);
        lemma_first_error_none(oe);
        lemma_first_error_none(te);
        lemma_first_error_none(se);
        lemma_first_error_none(me);
        let groups = seq![first_error(oe), first_error(te), first_error(se), first_error(me)];
        lemma_first_error_none(groups);
        assert(validation_error(p) == first_error(groups));
        // objective names
        let objectives_ok = forall|o: Seq<char>| #[trigger] m.objectives.contains_key(o) ==> o.len() > 0;
        assert(first_error(oe) is None <==> objectives_ok) by {
            if first_error(oe) is None {
                assert forall|o: Seq<char>| #[trigger] m.objectives.contains_key(o) implies o.len() > 0 by {
                    let i = choose|i: int| 0 <= i < self.objectives.names().len() && self.objectives.names()[i] == o;
                    assert(oe[i] is None);
                }
            }
            if objectives_ok {
                assert forall|i: int| 0 <= i < oe.len() implies #[trigger] oe[i] is None by {
                    assert(m.objectives.contains_key(self.objectives.names()[i]));
                }
            }
        }
        let teams_ok = forall|t: Seq<char>| #[trigger] m.teams.contains(t) ==> t.len() > 0;
        assert(first_error(te) is None <==> teams_ok) by {
            if first_error(te) is None {
                assert forall|t: Seq<char>| #[trigger] m.teams.contains(t) implies t.len() > 0 by {
                    let i = choose|i: int| 0 <= i < self.teams.names().len() && self.teams.names()[i] == t;
                    assert(te[i] is None);
                }
            }
            if teams_ok {
                assert forall|i: int| 0 <= i < te.len() implies #[trigger] te[i] is None by {
                    assert(m.teams.contains(self.teams.names()[i]));
                }
            }
        }
        let scores_ok = forall|h: Seq<char>|
            #[trigger] m.scores.contains_key(h) ==> {
                &&& h.len() > 0
                &&& forall|o: Seq<char>|
                    #[trigger] m.scores[h].contains_key(o) ==> m.objectives.contains_key(o)
            };
        assert(first_error(se) is None <==> scores_ok) by {
            assert forall|i: int| 0 <= i < se.len() implies (#[trigger] se[i] is None <==> {
                let h = self.scores.names()[i];
                &&& h.len() > 0
                &&& forall|o: Seq<char>|
                    #[trigger] m.scores[h].contains_key(o) ==> m.objectives.contains_key(o)
            }) by {
                let h = self.scores.names()[i];
                let inner = self.scores.values()[i];
                assert(self.scores@[h] == inner);
                assert(m.scores.contains_key(h));
                self.lemma_inner_wf(h);
                inner.lemma_layout();
                let ie = holder_objective_errors(inner.names(), self.objectives@);
                lemma_first_error_none(ie);
                assert(m.scores[h] == score_views(inner@));
                if h.len() > 0 {
                    if first_error(ie) is None {
                        assert forall|o: Seq<char>| #[trigger] m.scores[h].contains_key(o) implies m.objectives.contains_key(o) by {
                            let j = choose|j: int| 0 <= j < inner.names().len() && inner.names()[j] == o;
                            assert(ie[j] is None);
                        }
                    }
                    if forall|o: Seq<char>| #[trigger] m.scores[h].contains_key(o) ==> m.objectives.contains_key(o) {
                        assert forall|j: int| 0 <= j < ie.len() implies #[trigger] ie[j] is None by {
                            assert(m.scores[h].contains_key(inner.names()[j]));
                        }
                    }
                }
            }
            if first_error(se) is None {
                assert forall|h: Seq<char>| #[trigger] m.scores.contains_key(h) implies {
                    &&& h.len() > 0
                    &&& forall|o: Seq<char>|
                        #[trigger] m.scores[h].contains_key(o) ==> m.objectives.contains_key(o)
                } by {
                    let i = choose|i: int| 0 <= i < self.scores.names().len() && self.scores.names()[i] == h;
                    assert(se[i] is None);
                }
            }
            if scores_ok {
                assert forall|i: int| 0 <= i < se.len() implies #[trigger] se[i] is None by {
                    assert(m.scores.contains_key(self.scores.names()[i]));
                }
            }
        }
        let members_ok = forall|h: Seq<char>|
            #[trigger] m.holder_teams.contains_key(h) ==> h.len() > 0 && m.teams.contains(
                m.holder_teams[h],
            );
        assert(first_error(me) is None <==> members_ok) by {
            assert forall|i: int| 0 <= i < me.len() implies (#[trigger] me[i] is None <==> {
                let h = self.holder_teams.names()[i];
                h.len() > 0 && m.teams.contains(m.holder_teams[h])
            }) by {
                let h = self.holder_teams.names()[i];
                assert(self.holder_teams@[h] == self.holder_teams.values()[i]);
                assert(m.holder_teams[h] == self.holder_teams.values()[i]@);
            }
            if first_error(me) is None {
                assert forall|h: Seq<char>| #[trigger] m.holder_teams.contains_key(h) implies h.len() > 0 && m.teams.contains(m.holder_teams[h]) by {
                    let i = choose|i: int| 0 <= i < self.holder_teams.names().len() && self.holder_teams.names()[i] == h;
                    assert(me[i] is None);
                }
            }
            if members_ok {
                assert forall|i: int| 0 <= i < me.len() implies #[trigger] me[i] is None by {
                    assert(m.holder_teams.contains_key(self.holder_teams.names()[i]));
                }
            }
        }
        assert(groups[0] == first_error(oe));
        assert(groups[1] == first_error(te));
        assert(groups[2] == first_error(se));
        assert(groups[3] == first_error(me));
    }
}

/// Command-facing scoreboard for one domain.
pub struct Scoreboard {
    state: PersistentScoreboard,
    revision: u64,
    saved_revision: u64,
}

impl View for Scoreboard {
    type V = ScoreboardView;

    closed spec fn view(&self) -> ScoreboardView {
        ScoreboardView {
            state: self.state@,
            revision: self.revision,
            saved_revision: self.saved_revision,
        }
    }
}

impl Scoreboard {
    /// The stored maps are well formed, the state is valid, and no revision
    /// newer than the current one is recorded as saved.
    pub closed spec fn wf(&self) -> bool {
        &&& self.state.wf()
        &&& model_valid(self.state@)
        &&& self.saved_revision <= self.revision
    }

    /// A well-formed scoreboard holds a valid state, and its saved revision
    /// is at most its current one.
    pub proof fn lemma_wf_valid(&self)
        requires
            self.wf(),
        ensures
            model_valid(self@.state),
            self@.saved_revision <= self@.revision,
    {
    }

    /// Creates an empty, clean scoreboard.
    pub fn new() -> (s: Self)
        ensures
            s.wf(),
            s@ == (ScoreboardView { state: empty_model(), revision: 0, saved_revision: 0 }),
    {
        Scoreboard { state: PersistentScoreboard::new(), revision: 0, saved_revision: 0 }
    }

    fn mark_dirty(&mut self)
        ensures
            final(self).state == old(self).state,
            final(self).saved_revision == old(self).saved_revision,
            final(self).revision == vstd::wrapping::u64_specs::wrapping_add(old(self).revision, 1),
    {
        self.revision = self.revision.wrapping_add(1);
    }

    /// Adds a writable objective.
    pub fn add_objective(&mut self, name: &str) -> (r: Result<ScoreboardObjective, ScoreboardError>)
        requires
            old(self).wf(),
            old(self)@.revision < u64::MAX,
        ensures
            final(self).wf(),
            model_valid(final(self)@.state),
            applied(old(self)@, objective_added(old(self)@.state, name@, false), final(self)@),
            error_of(r) == outcome_error(objective_added(old(self)@.state, name@, false)),
            r is Ok ==> r->Ok_0@ == (ObjectiveView { name: name@, read_only: false }),
    {
        self.add_objective_with_read_only(name, false)
    }

    /// Adds an objective with explicit command mutability.
    pub fn add_objective_with_read_only(&mut self, name: &str, read_only: bool) -> (r: Result<
        ScoreboardObjective,
        ScoreboardError,
    >)
        requires
            old(self).wf(),
            old(self)@.revision < u64::MAX,
        ensures
            final(self).wf(),
            model_valid(final(self)@.state),
            applied(old(self)@, objective_added(old(self)@.state, name@, read_only), final(self)@),
            error_of(r) == outcome_error(objective_added(old(self)@.state, name@, read_only)),
            r is Ok ==> r->Ok_0@ == (ObjectiveView { name: name@, read_only }),
    {
        match ensure_objective_name(name) {
            Ok(_) => {},
            Err(e) => {
                return Err(e);
            },
        }
        match self.state.objectives.find(name) {
            Ok(_) => Err(ScoreboardError::DuplicateObjective(owned(name))),
            Err(p) => {
                let ghost before = self@;
                self.state.objectives.insert_at(p, owned(name), read_only);
                proof {
                    let m = objective_added(before.state, name@, read_only)->Ok_0;
                    assert(self.state@ =~= m);
                    assert(m.objectives.contains_key(name@));
                    assert(m != before.state);
                }
                self.mark_dirty();
                Ok(ScoreboardObjective { name: owned(name), read_only })
            },
        }
    }

    /// Returns an objective by name.
    pub fn objective(&self, name: &str) -> (r: Option<ScoreboardObjective>)
        requires
            self.wf(),
        ensures
            match r {
                Some(o) => self@.state.objectives.contains_key(name@) && o@ == (ObjectiveView {
                    name: name@,
                    read_only: self@.state.objectives[name@],
                }),
                None => !self@.state.objectives.contains_key(name@),
            },
    {
        match self.state.objectives.get(name) {
            Some(ro) => Some(ScoreboardObjective { name: owned(name), read_only: *ro }),
            None => None,
        }
    }

    /// Returns objective names in increasing order.
    pub fn objective_names(&self) -> (r: Vec<String>)
        requires
            self.wf(),
        ensures
            enumerates(views_of(r@), self@.state.objectives.dom()),
    {
        self.state.objectives.key_list()
    }

    /// Adds a team.
    pub fn add_team(&mut self, name: &str) -> (r: Result<ScoreboardTeam, ScoreboardError>)
        requires
            old(self).wf(),
            old(self)@.revision < u64::MAX,
        ensures
            final(self).wf(),
            model_valid(final(self)@.state),
            applied(old(self)@, team_added(old(self)@.state, name@), final(self)@),
            error_of(r) == outcome_error(team_added(old(self)@.state, name@)),
            r is Ok ==> r->Ok_0@ == name@,
    {
        match ensure_team_name(name) {
            Ok(_) => {},
            Err(e) => {
                return Err(e);
            },
        }
        match self.state.teams.find(name) {
            Ok(_) => Err(ScoreboardError::DuplicateTeam(owned(name))),
            Err(p) => {
                let ghost before = self@;
                self.state.teams.insert_at(p, owned(name), ());
                proof {
                    let m = team_added(before.state, name@)->Ok_0;
                    assert(self.state@.teams =~= m.teams);
                    assert(self.state@ =~= m);
                    assert(m.teams.contains(name@));
                    assert(m != before.state);
                }
                self.mark_dirty();
                Ok(ScoreboardTeam { name: owned(name) })
            },
        }
    }

    /// Returns a team by name.
    pub fn team(&self, name: &str) -> (r: Option<ScoreboardTeam>)
        requires
            self.wf(),
        ensures
            match r {
                Some(t) => self@.state.teams.contains(name@) && t@ == name@,
                None => !self@.state.teams.contains(name@),
            },
    {
        if self.state.teams.contains_key(name) {
            Some(ScoreboardTeam { name: owned(name) })
        } else {
            None
        }
    }

    /// Returns team names in increasing order.
    pub fn team_names(&self) -> (r: Vec<String>)
        requires
            self.wf(),
        ensures
            enumerates(views_of(r@), self@.state.teams),
    {
        self.state.teams.key_list()
    }

    /// Returns the current team name for a score holder.
    pub fn holder_team_name(&self, holder: &ScoreHolder) -> (r: Option<String>)
        requires
            self.wf(),
        ensures
            match r {
                Some(t) => self@.state.holder_teams.contains_key(holder@) && t@
                    == self@.state.holder_teams[holder@],
                None => !self@.state.holder_teams.contains_key(holder@),
            },
    {
        match self.state.holder_teams.get(holder.name()) {
            Some(t) => Some(t.clone()),
            None => None,
        }
    }

    /// Adds a holder to a team, replacing any prior membership.
    pub fn add_holder_to_team(&mut self, holder: &ScoreHolder, team: &ScoreboardTeam) -> (r: Result<
        (),
        ScoreboardError,
    >)
        requires
            old(self).wf(),
            old(self)@.revision < u64::MAX,
        ensures
            final(self).wf(),
            model_valid(final(self)@.state),
            applied(old(self)@, holder_joined(old(self)@.state, holder@, team@), final(self)@),
            error_of(r) == outcome_error(holder_joined(old(self)@.state, holder@, team@)),
    {
        match ensure_holder_name(holder.name()) {
            Ok(_) => {},
            Err(e) => {
                return Err(e);
            },
        }
        if !self.state.teams.contains_key(team.name()) {
            return Err(ScoreboardError::MissingTeam(owned(team.name())));
        }
        let ghost before = self@;
        let prev = self.state.holder_teams.insert(owned(holder.name()), owned(team.name()));
        let ghost m = holder_joined(before.state, holder@, team@)->Ok_0;
        let same = match &prev {
            Some(p) => str_eq(p.as_str(), team.name()),
            None => false,
        };
        assert(self.state@.holder_teams =~= m.holder_teams);
        assert(self.state@ =~= m);
        if same {
            assert(before.state.holder_teams =~= m.holder_teams);
            assert(before.state =~= m);
            return Ok(());
        }
        proof {
            assert(m.holder_teams[holder@] == team@);
            if before.state.holder_teams.contains_key(holder@) {
                assert(before.state.holder_teams[holder@] != team@);
            }
            assert(m.holder_teams != before.state.holder_teams);
        }
        self.mark_dirty();
        Ok(())
    }

    /// Returns tracked score holders in increasing order of name.
    pub fn tracked_holders(&self) -> (r: Vec<ScoreHolder>)
        requires
            self.wf(),
        ensures
            enumerates(holder_names(r@), self@.state.scores.dom()),
    {
        let names = self.state.scores.key_list();
        let mut r: Vec<ScoreHolder> = Vec::new();
        let mut i: usize = 0;
        while i < names.len()
            invariant
                i <= names@.len(),
                holder_names(r@) == views_of(names@).take(i as int),
            decreases names@.len() - i,
        {
            let h = ScoreHolder::new(names[i].as_str());
            let ghost r0 = r@;
            r.push(h);
            assert(holder_names(r@) =~= views_of(names@).take(i + 1)) by {
                assert(r@ == r0.push(h));
                assert(holder_names(r0).len() == i);
                assert(holder_names(r@).len() == i + 1);
                assert(holder_names(r@)[i as int] == h@);
                assert(views_of(names@)[i as int] == names@[i as int]@);
                assert forall|j: int| 0 <= j < i + 1 implies #[trigger] holder_names(r@)[j]
                    == views_of(names@).take(i + 1)[j] by {
                    if j < i {
                        assert(holder_names(r0)[j] == views_of(names@).take(i as int)[j]);
                    }
                }
            }
            i = i + 1;
        }
        assert(views_of(names@).take(i as int) =~= views_of(names@));
        r
    }

    /// Returns the complete score entry for a holder and objective.
    pub fn score_entry(&self, holder: &ScoreHolder, objective: &ScoreboardObjective) -> (r: Option<
        ScoreboardScore,
    >)
        requires
            self.wf(),
        ensures
            match r {
                Some(e) => self@.state.scores.contains_key(holder@)
                    && self@.state.scores[holder@].contains_key(objective@.name) && e@
                    == self@.state.scores[holder@][objective@.name],
                None => !(self@.state.scores.contains_key(holder@)
                    && self@.state.scores[holder@].contains_key(objective@.name)),
            },
    {
        match self.state.scores.get(holder.name()) {
            Some(inner) => {
                proof {
                    self.state.lemma_inner_wf(holder@);
                }
                match inner.get(objective.name()) {
                    Some(e) => Some(*e),
                    None => None,
                }
            },
            None => None,
        }
    }

    /// Returns the integer score for a holder and objective.
    pub fn score(&self, holder: &ScoreHolder, objective: &ScoreboardObjective) -> (r: Option<i32>)
        requires
            self.wf(),
        ensures
            match r {
                Some(v) => self@.state.scores.contains_key(holder@)
                    && self@.state.scores[holder@].contains_key(objective@.name) && v
                    == self@.state.scores[holder@][objective@.name].value,
                None => !(self@.state.scores.contains_key(holder@)
                    && self@.state.scores[holder@].contains_key(objective@.name)),
            },
    {
        match self.score_entry(holder, objective) {
            Some(e) => Some(e.value()),
            None => None,
        }
    }

    /// Sets a holder's score, preserving its lock state when already present.
    pub fn set_score(&mut self, holder: &ScoreHolder, objective: &ScoreboardObjective, value: i32) -> (r:
        Result<(), ScoreboardError>)
        requires
            old(self).wf(),
            old(self)@.revision < u64::MAX,
        ensures
            final(self).wf(),
            model_valid(final(self)@.state),
            applied(
                old(self)@,
                score_set(old(self)@.state, holder@, objective@.name, value),
                final(self)@,
            ),
            error_of(r) == outcome_error(score_set(old(self)@.state, holder@, objective@.name, value)),
    {
        match ensure_holder_name(holder.name()) {
            Ok(_) => {},
            Err(e) => {
                return Err(e);
            },
        }
        match ensure_writable_objective(&self.state, objective) {
            Ok(_) => {},
            Err(e) => {
                return Err(e);
            },
        }
        let ghost before = self@;
        let ghost m = score_set(before.state, holder@, objective@.name, value)->Ok_0;
        let ghost o = objective@.name;
        let ghost h = holder@;
        let ghost before_scores = self.state.scores@;
        let ghost m_before = self.state@;
        let changed = match self.state.scores.find(holder.name()) {
            Ok(i) => {
                proof {
                    self.state.lemma_inner_wf(h);
                    self.state.scores.lemma_layout();
                }
                let mut inner = self.state.scores.replace_at(i, NameMap::new());
                let ghost inner0 = inner@;
                let changed = write_score_value(&mut inner, objective.name(), value);
                let ghost inner1 = inner;
                self.state.scores.replace_at(i, inner);
                proof {
                    assert(self.state.scores@ =~= before_scores.insert(h, inner1));
                    assert(score_views(inner0) == m_before.scores[h]);
                    assert(nested_score_views(self.state.scores@) =~= m_before.scores.insert(
                        h,
                        score_views(inner1@),
                    ));
                }
                changed
            },
            Err(p) => {
                let mut inner = NameMap::new();
                write_score_value(&mut inner, objective.name(), value);
                let ghost inner1 = inner;
                self.state.scores.insert_at(p, owned(holder.name()), inner);
                proof {
                    assert(score_views(Map::empty()) =~= Map::<Seq<char>, ScoreView>::empty());
                    assert(nested_score_views(self.state.scores@) =~= m_before.scores.insert(
                        h,
                        score_views(inner1@),
                    ));
                }
                true
            },
        };
        proof {
            assert(self.state.scores.wf());
            assert(self.state@.scores =~= m.scores);
            assert(self.state@ =~= m);
            if changed {
                assert(m.scores[h][o].value == value);
                assert(m != before.state);
            } else {
                assert(before.state.scores[h] =~= m.scores[h]);
                assert(before.state.scores =~= m.scores);
                assert(m == before.state);
            }
        }
        if changed {
            self.mark_dirty();
        }
        Ok(())
    }

    /// Changes a score's trigger lock state, preserving its value when already present.
    pub fn set_score_locked(&mut self, holder: &ScoreHolder, objective: &ScoreboardObjective, locked: bool) -> (r:
        Result<(), ScoreboardError>)
        requires
            old(self).wf(),
            old(self)@.revision < u64::MAX,
        ensures
            final(self).wf(),
            model_valid(final(self)@.state),
            applied(
                old(self)@,
                score_lock_set(old(self)@.state, holder@, objective@.name, locked),
                final(self)@,
            ),
            error_of(r) == outcome_error(score_lock_set(old(self)@.state, holder@, objective@.name, locked)),
    {
        match ensure_holder_name(holder.name()) {
            Ok(_) => {},
            Err(e) => {
                return Err(e);
            },
        }
        match ensure_objective_exists(&self.state, objective) {
            Ok(_) => {},
            Err(e) => {
                return Err(e);
            },
        }
        let ghost before = self@;
        let ghost m = score_lock_set(before.state, holder@, objective@.name, locked)->Ok_0;
        let ghost o = objective@.name;
        let ghost h = holder@;
        let ghost before_scores = self.state.scores@;
        let ghost m_before = self.state@;
        let changed = match self.state.scores.find(holder.name()) {
            Ok(i) => {
                proof {
                    self.state.lemma_inner_wf(h);
                    self.state.scores.lemma_layout();
                }
                let mut inner = self.state.scores.replace_at(i, NameMap::new());
                let ghost inner0 = inner@;
                let changed = write_score_lock(&mut inner, objective.name(), locked);
                let ghost inner1 = inner;
                self.state.scores.replace_at(i, inner);
                proof {
                    assert(self.state.scores@ =~= before_scores.insert(h, inner1));
                    assert(score_views(inner0) == m_before.scores[h]);
                    assert(nested_score_views(self.state.scores@) =~= m_before.scores.insert(
                        h,
                        score_views(inner1@),
                    ));
                }
                changed
            },
            Err(p) => {
                let mut inner = NameMap::new();
                write_score_lock(&mut inner, objective.name(), locked);
                let ghost inner1 = inner;
                self.state.scores.insert_at(p, owned(holder.name()), inner);
                proof {
                    assert(score_views(Map::empty()) =~= Map::<Seq<char>, ScoreView>::empty());
                    assert(nested_score_views(self.state.scores@) =~= m_before.scores.insert(
                        h,
                        score_views(inner1@),
                    ));
                }
                true
            },
        };
        proof {
            assert(self.state.scores.wf());
            assert(self.state@.scores =~= m.scores);
            assert(self.state@ =~= m);
            if changed {
                assert(m.scores[h][o].locked == locked);
                assert(m != before.state);
            } else {
                assert(before.state.scores[h] =~= m.scores[h]);
                assert(before.state.scores =~= m.scores);
                assert(m == before.state);
            }
        }
        if changed {
            self.mark_dirty();
        }
        Ok(())
    }

    /// Returns objective names that have a score for the holder, in
    /// increasing order.
    pub fn holder_objectives(&self, holder: &ScoreHolder) -> (r: Vec<String>)
        requires
            self.wf(),
        ensures
            enumerates(views_of(r@), holder_scores(self@.state, holder@).dom()),
    {
        match self.state.scores.get(holder.name()) {
            Some(inner) => {
                let r = inner.key_list();
                assert(score_views(inner@).dom() =~= inner@.dom());
                r
            },
            None => {
                let r: Vec<String> = Vec::new();
                assert(views_of(r@) =~= Seq::<Seq<char>>::empty());
                r
            },
        }
    }

    /// A copy of the state to save, with its revision, when there are
    /// changes that are not known to be saved.
    pub fn pending_save(&self) -> (r: Option<ScoreboardSaveSnapshot>)
        requires
            self.wf(),
        ensures
            match r {
                Some(snapshot) => {
                    &&& self@.revision != self@.saved_revision
                    &&& snapshot.revision == self@.revision
                    &&& snapshot.state.wf()
                    &&& snapshot.state@ == self@.state
                },
                None => self@.revision == self@.saved_revision,
            },
    {
        if self.revision == self.saved_revision {
            return None;
        }
        Some(ScoreboardSaveSnapshot { revision: self.revision, state: self.state.clone_state() })
    }

    /// Records that the state of a revision was saved.
    pub fn mark_saved(&mut self, revision: u64)
        requires
            old(self).wf(),
            revision <= old(self)@.revision,
        ensures
            final(self).wf(),
            final(self)@ == (ScoreboardView {
                saved_revision: if revision > old(self)@.saved_revision {
                    revision
                } else {
                    old(self)@.saved_revision
                },
                ..old(self)@
            }),
    {
        if revision > self.saved_revision {
            self.saved_revision = revision;
        }
    }

    /// Loads a scoreboard from its stored state, which must be valid; it
    /// starts clean.
    pub fn from_persistent(state: PersistentScoreboard) -> (r: Result<Self, ScoreboardError>)
        requires
            state.wf(),
        ensures
            error_of(r) == validation_error(state),
            r is Ok ==> r->Ok_0.wf() && r->Ok_0@ == (ScoreboardView {
                state: state@,
                revision: 0,
                saved_revision: 0,
            }),
    {
        match validate_persistent_scoreboard(&state) {
            Ok(_) => {
                proof {
                    state.lemma_validation_iff_valid();
                }
                Ok(Scoreboard { state, revision: 0, saved_revision: 0 })
            },
            Err(e) => Err(e),
        }
    }
}

impl Default for Scoreboard {
    fn default() -> (s: Self)
        ensures
            s.wf(),
            s@ == (ScoreboardView { state: empty_model(), revision: 0, saved_revision: 0 }),
    {
        Self::new()
    }
}

} // verus!
