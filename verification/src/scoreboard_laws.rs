//! Properties that hold across the scoreboard's operations.
use crate::name_map::enumerates;
use crate::scoreboard::{
    applied, empty_model, holder_joined, holder_scores, model_valid, next_revision,
    objective_added, score_lock_set, score_set, team_added, validation_error,
    PersistentScoreboard, Scoreboard, ScoreboardErrorView, ScoreboardModel, ScoreboardView,
    ScoreView,
};
use crate::text::{
    lemma_name_lt_asymmetric, lemma_name_lt_irreflexive, lemma_name_lt_total, name_lt,
};
use vstd::prelude::*;

verus! {

/// Every operation that succeeds on a valid state leaves a valid state.
pub proof fn lemma_operations_keep_valid(
    m: ScoreboardModel,
    name: Seq<char>,
    holder: Seq<char>,
    read_only: bool,
    value: i32,
    locked: bool,
)
    requires
        model_valid(m),
    ensures
        objective_added(m, name, read_only) is Ok ==> model_valid(
            objective_added(m, name, read_only)->Ok_0,
        ),
        team_added(m, name) is Ok ==> model_valid(team_added(m, name)->Ok_0),
        holder_joined(m, holder, name) is Ok ==> model_valid(holder_joined(m, holder, name)->Ok_0),
        score_set(m, holder, name, value) is Ok ==> model_valid(
            score_set(m, holder, name, value)->Ok_0,
        ),
        score_lock_set(m, holder, name, locked) is Ok ==> model_valid(
            score_lock_set(m, holder, name, locked)->Ok_0,
        ),
{
}

/// A score that was set reads back with the value written; a score that
/// already existed keeps its lock, a new one is locked.
pub proof fn lemma_score_read_after_write(
    m: ScoreboardModel,
    holder: Seq<char>,
    objective: Seq<char>,
    value: i32,
)
    requires
        score_set(m, holder, objective, value) is Ok,
    ensures
        ({
            let m2 = score_set(m, holder, objective, value)->Ok_0;
            &&& m2.scores.contains_key(holder)
            &&& m2.scores[holder].contains_key(objective)
            &&& m2.scores[holder][objective].value == value
            &&& m2.scores[holder][objective].locked == if holder_scores(m, holder).contains_key(
                objective,
            ) {
                holder_scores(m, holder)[objective].locked
            } else {
                true
            }
        }),
{
}

/// A lock that was set reads back as written and keeps an existing value.
pub proof fn lemma_lock_read_after_write(
    m: ScoreboardModel,
    holder: Seq<char>,
    objective: Seq<char>,
    locked: bool,
)
    requires
        score_lock_set(m, holder, objective, locked) is Ok,
    ensures
        ({
            let m2 = score_lock_set(m, holder, objective, locked)->Ok_0;
            &&& m2.scores.contains_key(holder)
            &&& m2.scores[holder].contains_key(objective)
            &&& m2.scores[holder][objective].locked == locked
            &&& m2.scores[holder][objective].value == if holder_scores(m, holder).contains_key(
                objective,
            ) {
                holder_scores(m, holder)[objective].value
            } else {
                0
            }
        }),
{
}

/// Writing one score leaves every other score, and everything else, as it
/// was.
pub proof fn lemma_score_write_is_local(
    m: ScoreboardModel,
    holder: Seq<char>,
    objective: Seq<char>,
    value: i32,
    locked: bool,
    other_holder: Seq<char>,
    other_objective: Seq<char>,
)
    requires
        other_holder != holder || other_objective != objective,
    ensures
        score_set(m, holder, objective, value) is Ok ==> {
            let m2 = score_set(m, holder, objective, value)->Ok_0;
            &&& m2.objectives == m.objectives
            &&& m2.teams == m.teams
            &&& m2.holder_teams == m.holder_teams
            &&& holder_scores(m2, other_holder).contains_key(other_objective) == holder_scores(
                m,
                other_holder,
            ).contains_key(other_objective)
            &&& holder_scores(m2, other_holder)[other_objective] == holder_scores(
                m,
                other_holder,
            )[other_objective]
        },
        score_lock_set(m, holder, objective, locked) is Ok ==> {
            let m2 = score_lock_set(m, holder, objective, locked)->Ok_0;
            &&& m2.objectives == m.objectives
            &&& m2.teams == m.teams
            &&& m2.holder_teams == m.holder_teams
            &&& holder_scores(m2, other_holder).contains_key(other_objective) == holder_scores(
                m,
                other_holder,
            ).contains_key(other_objective)
            &&& holder_scores(m2, other_holder)[other_objective] == holder_scores(
                m,
                other_holder,
            )[other_objective]
        },
{
}

/// Scores of a read-only objective cannot be set by commands.
pub proof fn lemma_read_only_rejects_writes(
    m: ScoreboardModel,
    holder: Seq<char>,
    objective: Seq<char>,
    value: i32,
)
    requires
        holder.len() > 0,
        m.objectives.contains_key(objective),
        m.objectives[objective],
    ensures
        score_set(m, holder, objective, value) == Err::<ScoreboardModel, ScoreboardErrorView>(
            ScoreboardErrorView::ReadOnlyObjective(objective),
        ),
{
}

/// Joining a team replaces any prior membership.
pub proof fn lemma_team_join_replaces(
    m: ScoreboardModel,
    holder: Seq<char>,
    first: Seq<char>,
    second: Seq<char>,
)
    requires
        holder_joined(m, holder, first) is Ok,
        m.teams.contains(second),
    ensures
        holder_joined(holder_joined(m, holder, first)->Ok_0, holder, second) is Ok,
        holder_joined(holder_joined(m, holder, first)->Ok_0, holder, second)->Ok_0.holder_teams[holder]
            == second,
        holder_joined(holder_joined(m, holder, first)->Ok_0, holder, second)->Ok_0.holder_teams
            == m.holder_teams.insert(holder, second),
{
    assert(m.holder_teams.insert(holder, first).insert(holder, second) =~= m.holder_teams.insert(
        holder,
        second,
    ));
}

/// Adding a name that exists fails and names the duplicate; the state
/// keeps one entry per name.
pub proof fn lemma_no_duplicate_names(m: ScoreboardModel, name: Seq<char>, read_only: bool)
    requires
        name.len() > 0,
    ensures
        m.objectives.contains_key(name) ==> objective_added(m, name, read_only) == Err::<
            ScoreboardModel,
            ScoreboardErrorView,
        >(ScoreboardErrorView::DuplicateObjective(name)),
        m.teams.contains(name) ==> team_added(m, name) == Err::<
            ScoreboardModel,
            ScoreboardErrorView,
        >(ScoreboardErrorView::DuplicateTeam(name)),
{
}

/// Saving the snapshot of a scoreboard that nothing changed since leaves it
/// clean.
pub proof fn lemma_saved_snapshot_is_clean(v: ScoreboardView)
    requires
        v.saved_revision <= v.revision,
    ensures
        ({
            let saved = ScoreboardView {
                saved_revision: if v.revision > v.saved_revision {
                    v.revision
                } else {
                    v.saved_revision
                },
                ..v
            };
            saved.revision == saved.saved_revision
        }),
{
}

/// A change made after a snapshot was taken keeps the scoreboard dirty when
/// that snapshot is marked saved.
pub proof fn lemma_change_after_snapshot_stays_dirty(
    at_snapshot: ScoreboardView,
    changed: ScoreboardView,
)
    requires
        at_snapshot.saved_revision <= at_snapshot.revision,
        at_snapshot.revision < u64::MAX,
        changed.saved_revision == at_snapshot.saved_revision,
        changed.revision == at_snapshot.revision + 1,
    ensures
        ({
            let saved = ScoreboardView {
                saved_revision: if at_snapshot.revision > changed.saved_revision {
                    at_snapshot.revision
                } else {
                    changed.saved_revision
                },
                ..changed
            };
            &&& saved.revision != saved.saved_revision
            &&& saved.revision > at_snapshot.revision
        }),
{
}

/// Every holder with a score map has at least one score in it.
pub open spec fn holders_have_scores(m: ScoreboardModel) -> bool {
    forall|h: Seq<char>|
        #[trigger] m.scores.contains_key(h) ==> exists|o: Seq<char>| m.scores[h].contains_key(o)
}

/// The empty scoreboard tracks no holder, and every operation that
/// succeeds keeps each tracked holder with at least one score: the only
/// operations that add a holder to the scores are those that give it one.
pub proof fn lemma_operations_keep_holders_scored(
    m: ScoreboardModel,
    name: Seq<char>,
    holder: Seq<char>,
    read_only: bool,
    value: i32,
    locked: bool,
)
    requires
        holders_have_scores(m),
    ensures
        holders_have_scores(empty_model()),
        objective_added(m, name, read_only) is Ok ==> holders_have_scores(
            objective_added(m, name, read_only)->Ok_0,
        ),
        team_added(m, name) is Ok ==> holders_have_scores(team_added(m, name)->Ok_0),
        holder_joined(m, holder, name) is Ok ==> holders_have_scores(
            holder_joined(m, holder, name)->Ok_0,
        ),
        score_set(m, holder, name, value) is Ok ==> holders_have_scores(
            score_set(m, holder, name, value)->Ok_0,
        ),
        score_lock_set(m, holder, name, locked) is Ok ==> holders_have_scores(
            score_lock_set(m, holder, name, locked)->Ok_0,
        ),
{
    if score_set(m, holder, name, value) is Ok {
        let m2 = score_set(m, holder, name, value)->Ok_0;
        assert forall|h: Seq<char>| #[trigger] m2.scores.contains_key(h) implies exists|o: Seq<char>|
            m2.scores[h].contains_key(o) by {
            if h == holder {
                assert(m2.scores[h].contains_key(name));
            } else {
                assert(m.scores.contains_key(h));
                let o = choose|o: Seq<char>| m.scores[h].contains_key(o);
                assert(m2.scores[h].contains_key(o));
            }
        }
    }
    if score_lock_set(m, holder, name, locked) is Ok {
        let m2 = score_lock_set(m, holder, name, locked)->Ok_0;
        assert forall|h: Seq<char>| #[trigger] m2.scores.contains_key(h) implies exists|o: Seq<char>|
            m2.scores[h].contains_key(o) by {
            if h == holder {
                assert(m2.scores[h].contains_key(name));
            } else {
                assert(m.scores.contains_key(h));
                let o = choose|o: Seq<char>| m.scores[h].contains_key(o);
                assert(m2.scores[h].contains_key(o));
            }
        }
    }
}

/// Where every tracked holder has a score, the tracked holders are exactly
/// the holders that have a score for some objective.
pub proof fn lemma_tracked_holders_are_scored(m: ScoreboardModel)
    requires
        holders_have_scores(m),
    ensures
        forall|h: Seq<char>|
            #[trigger] m.scores.contains_key(h) <==> exists|o: Seq<char>|
                holder_scores(m, h).contains_key(o),
{
    assert forall|h: Seq<char>| #[trigger] m.scores.contains_key(h) implies exists|o: Seq<char>|
        holder_scores(m, h).contains_key(o) by {
        let o = choose|o: Seq<char>| m.scores[h].contains_key(o);
        assert(holder_scores(m, h).contains_key(o));
    }
    assert forall|h: Seq<char>| (exists|o: Seq<char>| holder_scores(m, h).contains_key(o)) implies
        #[trigger] m.scores.contains_key(h) by {
        let o = choose|o: Seq<char>| holder_scores(m, h).contains_key(o);
        if !m.scores.contains_key(h) {
            assert(holder_scores(m, h) == Map::<Seq<char>, ScoreView>::empty());
        }
    }
}

/// One call on a scoreboard, as the scoreboard's view sees it: an
/// operation with its outcome, or recording that a revision was saved.
pub enum ScoreboardCall {
    /// An operation that ended with this outcome.
    Operation(Result<ScoreboardModel, ScoreboardErrorView>),
    /// Recording that the state of this revision was saved.
    MarkSaved(u64),
}

/// The view after a call: an operation's outcome applied with its revision
/// counted on change, or the saved revision raised to the one recorded.
pub open spec fn after_call(v: ScoreboardView, c: ScoreboardCall) -> ScoreboardView {
    match c {
        ScoreboardCall::Operation(outcome) => {
            let state = match outcome {
                Ok(m) => m,
                Err(_) => v.state,
            };
            ScoreboardView { state, revision: next_revision(v, state), saved_revision: v.saved_revision }
        },
        ScoreboardCall::MarkSaved(r) => ScoreboardView {
            saved_revision: if r > v.saved_revision {
                r
            } else {
                v.saved_revision
            },
            ..v
        },
    }
}

/// The view after a sequence of calls.
pub open spec fn replay(start: ScoreboardView, calls: Seq<ScoreboardCall>) -> ScoreboardView
    decreases calls.len(),
{
    if calls.len() == 0 {
        start
    } else {
        after_call(replay(start, calls.drop_last()), calls.last())
    }
}

/// How many calls of a sequence changed the state.
pub open spec fn change_count(start: ScoreboardView, calls: Seq<ScoreboardCall>) -> nat
    decreases calls.len(),
{
    if calls.len() == 0 {
        0
    } else {
        let before = replay(start, calls.drop_last());
        change_count(start, calls.drop_last()) + if after_call(before, calls.last()).state
            != before.state {
            1nat
        } else {
            0nat
        }
    }
}

/// The largest revision recorded as saved by a sequence of calls, 0 if none.
pub open spec fn max_marked(calls: Seq<ScoreboardCall>) -> nat
    decreases calls.len(),
{
    if calls.len() == 0 {
        0
    } else {
        let m = max_marked(calls.drop_last());
        match calls.last() {
            ScoreboardCall::MarkSaved(r) => if r > m {
                r as nat
            } else {
                m
            },
            ScoreboardCall::Operation(_) => m,
        }
    }
}

/// Each call of a sequence is one the scoreboard accepts where it is made:
/// an operation while the revision can still count up, a saved revision
/// no newer than the current one.
pub open spec fn calls_allowed(start: ScoreboardView, calls: Seq<ScoreboardCall>) -> bool {
    forall|i: int|
        0 <= i < calls.len() ==> match #[trigger] calls[i] {
            ScoreboardCall::Operation(_) => replay(start, calls.take(i)).revision < u64::MAX,
            ScoreboardCall::MarkSaved(r) => r <= replay(start, calls.take(i)).revision,
        }
}

/// An operation's contract, `applied`, fixes the view after it: the one of
/// the call with its outcome.
pub proof fn lemma_applied_is_call(
    before: ScoreboardView,
    outcome: Result<ScoreboardModel, ScoreboardErrorView>,
    after: ScoreboardView,
)
    requires
        applied(before, outcome, after),
    ensures
        after == after_call(before, ScoreboardCall::Operation(outcome)),
{
}

/// Over any sequence of calls on a new scoreboard, the revision counts the
/// calls that changed the state and the saved revision is the largest one
/// recorded, so a save is pending (`pending_save` gives a snapshot of the
/// current state at the current revision) exactly when more changes were
/// made than the newest saved revision covers. Marking an older snapshot
/// saved never hides a newer change.
pub proof fn lemma_pending_save_counts_changes(calls: Seq<ScoreboardCall>)
    requires
        calls_allowed(
            ScoreboardView { state: empty_model(), revision: 0, saved_revision: 0 },
            calls,
        ),
    ensures
        ({
            let start = ScoreboardView { state: empty_model(), revision: 0, saved_revision: 0 };
            let v = replay(start, calls);
            &&& v.revision == change_count(start, calls)
            &&& v.saved_revision == max_marked(calls)
            &&& v.saved_revision <= v.revision
            &&& (v.revision != v.saved_revision) == (change_count(start, calls) > max_marked(calls))
        }),
    decreases calls.len(),
{
    let start = ScoreboardView { state: empty_model(), revision: 0, saved_revision: 0 };
    if calls.len() > 0 {
        let rest = calls.drop_last();
        assert(calls_allowed(start, rest)) by {
            assert forall|i: int| 0 <= i < rest.len() implies match #[trigger] rest[i] {
                ScoreboardCall::Operation(_) => replay(start, rest.take(i)).revision < u64::MAX,
                ScoreboardCall::MarkSaved(r) => r <= replay(start, rest.take(i)).revision,
            } by {
                assert(rest[i] == calls[i]);
                assert(rest.take(i) =~= calls.take(i));
            }
        }
        lemma_pending_save_counts_changes(rest);
        let n = calls.len() - 1;
        assert(calls.take(n) =~= rest);
        assert(calls[n] == calls.last());
    }
}

/// A successful operation that changes the state of a well-formed
/// scoreboard leaves a save pending, at a revision newer than any snapshot
/// taken before it.
pub proof fn lemma_change_leaves_pending(
    before: ScoreboardView,
    outcome: Result<ScoreboardModel, ScoreboardErrorView>,
    after: ScoreboardView,
)
    requires
        before.saved_revision <= before.revision,
        before.revision < u64::MAX,
        applied(before, outcome, after),
        outcome is Ok,
        outcome->Ok_0 != before.state,
    ensures
        after.revision == before.revision + 1,
        after.saved_revision < after.revision,
{
}

/// Adding an objective that succeeds always changes the state, so it
/// leaves a save pending.
pub proof fn lemma_added_objective_leaves_pending(
    before: ScoreboardView,
    name: Seq<char>,
    read_only: bool,
    after: ScoreboardView,
)
    requires
        before.saved_revision <= before.revision,
        before.revision < u64::MAX,
        applied(before, objective_added(before.state, name, read_only), after),
        objective_added(before.state, name, read_only) is Ok,
    ensures
        after.revision == before.revision + 1,
        after.saved_revision < after.revision,
{
    assert(objective_added(before.state, name, read_only)->Ok_0.objectives.contains_key(name));
}

/// The state of a well-formed scoreboard loads back: a saved state passes
/// validation.
pub proof fn lemma_snapshot_loads(s: Scoreboard, p: PersistentScoreboard)
    requires
        s.wf(),
        p.wf(),
        p@ == s@.state,
    ensures
        validation_error(p) is None,
{
    s.lemma_wf_valid();
    p.lemma_validation_iff_valid();
}

/// A finite set of names has one listing in increasing order.
pub proof fn lemma_enumeration_unique(a: Seq<Seq<char>>, b: Seq<Seq<char>>, d: Set<Seq<char>>)
    requires
        enumerates(a, d),
        enumerates(b, d),
    ensures
        a == b,
    decreases a.len(),
{
    if a.len() == 0 {
        if b.len() > 0 {
            assert(d.contains(b[0]));
        }
    } else if b.len() == 0 {
        assert(d.contains(a[0]));
    } else {
        // the first elements are both the least name of `d`
        assert(a[0] == b[0]) by {
            if a[0] != b[0] {
                lemma_name_lt_total(a[0], b[0]);
                assert(b.contains(a[0]));
                assert(a.contains(b[0]));
                let i = choose|i: int| 0 <= i < b.len() && b[i] == a[0];
                let j = choose|j: int| 0 <= j < a.len() && a[j] == b[0];
                if name_lt(a[0], b[0]) {
                    lemma_name_lt_irreflexive(a[0]);
                    if i > 0 {
                        lemma_name_lt_asymmetric(b[0], b[i]);
                    }
                } else {
                    lemma_name_lt_irreflexive(b[0]);
                    if j > 0 {
                        lemma_name_lt_asymmetric(a[0], a[j]);
                    }
                }
            }
        }
        let d2 = d.remove(a[0]);
        let a2 = a.drop_first();
        let b2 = b.drop_first();
        assert(enumerates(a2, d2)) by {
            assert forall|i: int| 0 <= i < a2.len() implies d2.contains(#[trigger] a2[i]) by {
                assert(name_lt(a[0], a[i + 1]));
                lemma_name_lt_irreflexive(a[0]);
            }
            assert forall|k: Seq<char>| #[trigger] d2.contains(k) implies a2.contains(k) by {
                let i = choose|i: int| 0 <= i < a.len() && a[i] == k;
                assert(a2[i - 1] == k);
            }
        }
        assert(enumerates(b2, d2)) by {
            assert forall|i: int| 0 <= i < b2.len() implies d2.contains(#[trigger] b2[i]) by {
                assert(name_lt(b[0], b[i + 1]));
                lemma_name_lt_irreflexive(b[0]);
            }
            assert forall|k: Seq<char>| #[trigger] d2.contains(k) implies b2.contains(k) by {
                let i = choose|i: int| 0 <= i < b.len() && b[i] == k;
                assert(b2[i - 1] == k);
            }
        }
        lemma_enumeration_unique(a2, b2, d2);
        assert(a =~= seq![a[0]] + a2);
        assert(b =~= seq![b[0]] + b2);
    }
}

} // verus!
