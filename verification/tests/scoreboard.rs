use steel_core::domain::DomainScoreboards;
use steel_core::scoreboard::{
    validate_persistent_scoreboard, PersistentScoreboard, ScoreHolder, Scoreboard, ScoreboardError,
    ScoreboardScore,
};

#[test]
fn score_value_and_lock_state_are_independent() {
    let mut scoreboard = Scoreboard::new();
    let objective = scoreboard
        .add_objective("kills")
        .expect("objective should be added");
    let holder = ScoreHolder::new("Steve");

    scoreboard
        .set_score(&holder, &objective, 7)
        .expect("score should be writable");
    scoreboard
        .set_score_locked(&holder, &objective, false)
        .expect("score lock should change");
    scoreboard
        .set_score(&holder, &objective, 9)
        .expect("score should remain writable");

    let entry = scoreboard
        .score_entry(&holder, &objective)
        .expect("score should exist");
    assert_eq!(entry.value(), 9);
    assert!(!entry.is_locked());
}

#[test]
fn read_only_objective_rejects_score_writes() {
    let mut scoreboard = Scoreboard::new();
    let objective = scoreboard
        .add_objective_with_read_only("health", true)
        .expect("objective should be added");

    assert_eq!(
        scoreboard.set_score(&ScoreHolder::new("Steve"), &objective, 20),
        Err(ScoreboardError::ReadOnlyObjective("health".to_owned()))
    );
}

#[test]
fn team_assignment_replaces_prior_membership() {
    let mut scoreboard = Scoreboard::new();
    let red = scoreboard
        .add_team("red")
        .expect("red team should be added");
    let blue = scoreboard
        .add_team("blue")
        .expect("blue team should be added");
    let holder = ScoreHolder::new("Steve");

    scoreboard
        .add_holder_to_team(&holder, &red)
        .expect("holder should join red");
    scoreboard
        .add_holder_to_team(&holder, &blue)
        .expect("holder should move to blue");

    assert_eq!(
        scoreboard.holder_team_name(&holder).as_deref(),
        Some("blue")
    );
}

#[test]
fn mutation_after_snapshot_remains_dirty_when_snapshot_is_marked_saved() {
    let mut scoreboard = Scoreboard::new();
    scoreboard
        .add_objective("kills")
        .expect("objective should be added");
    let snapshot = scoreboard
        .pending_save()
        .expect("scoreboard should be dirty");

    scoreboard
        .add_objective("deaths")
        .expect("second objective should be added");
    scoreboard.mark_saved(snapshot.revision);

    let pending = scoreboard
        .pending_save()
        .expect("newer mutation should remain dirty");
    assert!(pending.revision > snapshot.revision);
    assert!(pending.state.objectives.contains_key("deaths"));
}

#[test]
fn domains_keep_independent_scoreboards() {
    let mut scoreboards = DomainScoreboards::new();
    scoreboards.insert("alpha".to_owned(), Scoreboard::new());
    scoreboards.insert("beta".to_owned(), Scoreboard::new());
    scoreboards
        .get_mut("alpha")
        .expect("alpha scoreboard should exist")
        .add_objective("kills")
        .expect("alpha objective should be added");

    assert!(
        scoreboards
            .get("beta")
            .expect("beta scoreboard should exist")
            .objective("kills")
            .is_none()
    );
}

#[test]
fn snapshot_round_trips_and_becomes_clean_after_save() {
    let mut scoreboard = Scoreboard::new();
    let objective = scoreboard
        .add_objective("kills")
        .expect("objective should be added");
    let holder = ScoreHolder::new("Steve");
    scoreboard
        .set_score(&holder, &objective, 5)
        .expect("score should be writable");

    let snapshot = scoreboard
        .pending_save()
        .expect("scoreboard should be dirty");
    scoreboard.mark_saved(snapshot.revision);
    assert!(scoreboard.pending_save().is_none());

    let restored = Scoreboard::from_persistent(snapshot.state).expect("scoreboard should validate");
    let restored_objective = restored
        .objective("kills")
        .expect("objective should persist");
    assert_eq!(restored.score(&holder, &restored_objective), Some(5));
    assert!(restored.pending_save().is_none());
}

#[test]
fn empty_names_are_rejected() {
    let mut scoreboard = Scoreboard::new();
    assert_eq!(
        scoreboard.add_objective(""),
        Err(ScoreboardError::EmptyObjectiveName)
    );
    assert_eq!(scoreboard.add_team(""), Err(ScoreboardError::EmptyTeamName));
    let objective = scoreboard.add_objective("kills").unwrap();
    let team = scoreboard.add_team("red").unwrap();
    let nobody = ScoreHolder::new("");
    assert_eq!(
        scoreboard.set_score(&nobody, &objective, 1),
        Err(ScoreboardError::EmptyScoreHolderName)
    );
    assert_eq!(
        scoreboard.set_score_locked(&nobody, &objective, false),
        Err(ScoreboardError::EmptyScoreHolderName)
    );
    assert_eq!(
        scoreboard.add_holder_to_team(&nobody, &team),
        Err(ScoreboardError::EmptyScoreHolderName)
    );
    assert!(scoreboard.pending_save().unwrap().revision == 2);
}

#[test]
fn duplicates_are_rejected_and_leave_the_state_clean() {
    let mut scoreboard = Scoreboard::new();
    scoreboard.add_objective("kills").unwrap();
    scoreboard.add_team("red").unwrap();
    let snapshot = scoreboard.pending_save().unwrap();
    scoreboard.mark_saved(snapshot.revision);
    assert_eq!(
        scoreboard.add_objective_with_read_only("kills", true),
        Err(ScoreboardError::DuplicateObjective("kills".to_owned()))
    );
    assert_eq!(
        scoreboard.add_team("red"),
        Err(ScoreboardError::DuplicateTeam("red".to_owned()))
    );
    assert!(scoreboard.pending_save().is_none());
    assert!(!scoreboard.objective("kills").unwrap().is_read_only());
}

#[test]
fn missing_objective_and_team_are_reported() {
    let mut scoreboard = Scoreboard::new();
    let mut other = Scoreboard::new();
    let stray_objective = other.add_objective("stray").unwrap();
    let stray_team = other.add_team("ghosts").unwrap();
    let holder = ScoreHolder::new("Alex");
    assert_eq!(
        scoreboard.set_score(&holder, &stray_objective, 3),
        Err(ScoreboardError::MissingObjective("stray".to_owned()))
    );
    assert_eq!(
        scoreboard.set_score_locked(&holder, &stray_objective, true),
        Err(ScoreboardError::MissingObjective("stray".to_owned()))
    );
    assert_eq!(
        scoreboard.add_holder_to_team(&holder, &stray_team),
        Err(ScoreboardError::MissingTeam("ghosts".to_owned()))
    );
}

#[test]
fn unchanged_writes_do_not_mark_dirty() {
    let mut scoreboard = Scoreboard::new();
    let objective = scoreboard.add_objective("kills").unwrap();
    let team = scoreboard.add_team("red").unwrap();
    let holder = ScoreHolder::new("Steve");
    scoreboard.set_score(&holder, &objective, 4).unwrap();
    scoreboard.add_holder_to_team(&holder, &team).unwrap();
    let snapshot = scoreboard.pending_save().unwrap();
    assert_eq!(snapshot.revision, 4);
    scoreboard.mark_saved(snapshot.revision);
    scoreboard.set_score(&holder, &objective, 4).unwrap();
    scoreboard.set_score_locked(&holder, &objective, true).unwrap();
    scoreboard.add_holder_to_team(&holder, &team).unwrap();
    assert!(scoreboard.pending_save().is_none());
    scoreboard.set_score(&holder, &objective, 5).unwrap();
    assert_eq!(scoreboard.pending_save().unwrap().revision, 5);
}

#[test]
fn new_scores_start_locked_and_new_locks_start_at_zero() {
    let mut scoreboard = Scoreboard::new();
    let objective = scoreboard.add_objective("kills").unwrap();
    let steve = ScoreHolder::new("Steve");
    let alex = ScoreHolder::new("Alex");
    scoreboard.set_score(&steve, &objective, -3).unwrap();
    scoreboard.set_score_locked(&alex, &objective, false).unwrap();
    let s = scoreboard.score_entry(&steve, &objective).unwrap();
    assert_eq!((s.value(), s.is_locked()), (-3, true));
    let a = scoreboard.score_entry(&alex, &objective).unwrap();
    assert_eq!((a.value(), a.is_locked()), (0, false));
    let default = ScoreboardScore::default();
    assert_eq!((default.value(), default.is_locked()), (0, true));
}

#[test]
fn lists_come_in_name_order() {
    let mut scoreboard = Scoreboard::new();
    for name in ["zeta", "alpha", "Beta", "m"] {
        scoreboard.add_objective(name).unwrap();
        scoreboard.add_team(name).unwrap();
    }
    let sorted = vec!["Beta", "alpha", "m", "zeta"];
    assert_eq!(scoreboard.objective_names(), sorted);
    assert_eq!(scoreboard.team_names(), sorted);
    let alpha = scoreboard.objective("alpha").unwrap();
    let zeta = scoreboard.objective("zeta").unwrap();
    for holder in ["Steve", "Alex", "Zed"] {
        scoreboard
            .set_score(&ScoreHolder::new(holder), &zeta, 1)
            .unwrap();
    }
    scoreboard
        .set_score(&ScoreHolder::new("Steve"), &alpha, 2)
        .unwrap();
    let holders: Vec<String> = scoreboard
        .tracked_holders()
        .iter()
        .map(|h| h.name().to_owned())
        .collect();
    assert_eq!(holders, vec!["Alex", "Steve", "Zed"]);
    assert_eq!(
        scoreboard.holder_objectives(&ScoreHolder::new("Steve")),
        vec!["alpha", "zeta"]
    );
    assert!(scoreboard
        .holder_objectives(&ScoreHolder::new("Nobody"))
        .is_empty());
}

#[test]
fn score_writes_touch_one_entry() {
    let mut scoreboard = Scoreboard::new();
    let kills = scoreboard.add_objective("kills").unwrap();
    let deaths = scoreboard.add_objective("deaths").unwrap();
    let steve = ScoreHolder::new("Steve");
    let alex = ScoreHolder::new("Alex");
    scoreboard.set_score(&steve, &kills, 1).unwrap();
    scoreboard.set_score(&alex, &kills, 2).unwrap();
    scoreboard.set_score(&steve, &deaths, 3).unwrap();
    scoreboard.set_score(&steve, &kills, 10).unwrap();
    assert_eq!(scoreboard.score(&alex, &kills), Some(2));
    assert_eq!(scoreboard.score(&steve, &deaths), Some(3));
    assert_eq!(scoreboard.score(&steve, &kills), Some(10));
    assert_eq!(scoreboard.score(&alex, &deaths), None);
}

#[test]
fn invalid_stored_states_are_refused() {
    let mut state = PersistentScoreboard::new();
    state.objectives.insert("kills".to_owned(), false);
    let mut scores = steel_core::name_map::NameMap::new();
    scores.insert("deaths".to_owned(), ScoreboardScore::with_fields(1, true));
    scores.insert("assists".to_owned(), ScoreboardScore::with_fields(1, true));
    state.scores.insert("Steve".to_owned(), scores);
    assert_eq!(
        validate_persistent_scoreboard(&state),
        Err(ScoreboardError::MissingObjective("assists".to_owned()))
    );

    let mut state = PersistentScoreboard::new();
    state.teams.insert("red".to_owned(), ());
    state.holder_teams.insert("Steve".to_owned(), "blue".to_owned());
    assert!(matches!(
        Scoreboard::from_persistent(state),
        Err(ScoreboardError::MissingTeam(t)) if t == "blue"
    ));

    let mut state = PersistentScoreboard::new();
    state.objectives.insert(String::new(), false);
    state.teams.insert(String::new(), ());
    assert_eq!(
        validate_persistent_scoreboard(&state),
        Err(ScoreboardError::EmptyObjectiveName)
    );

    let mut state = PersistentScoreboard::new();
    state.holder_teams.insert(String::new(), "red".to_owned());
    assert_eq!(
        validate_persistent_scoreboard(&state),
        Err(ScoreboardError::EmptyScoreHolderName)
    );
}

#[test]
fn error_messages_name_the_entry() {
    assert_eq!(
        ScoreboardError::DuplicateObjective("kills".to_owned()).message(),
        "objective 'kills' already exists"
    );
    assert_eq!(
        ScoreboardError::MissingTeam("red".to_owned()).message(),
        "team 'red' does not exist"
    );
    assert_eq!(
        ScoreboardError::ReadOnlyObjective("health".to_owned()).message(),
        "objective 'health' is read-only"
    );
    assert_eq!(
        ScoreboardError::EmptyScoreHolderName.message(),
        "score holder name cannot be empty"
    );
}

#[test]
fn pending_saves_list_dirty_domains() {
    let mut scoreboards = DomainScoreboards::new();
    for d in ["gamma", "alpha", "beta"] {
        scoreboards.insert(d.to_owned(), Scoreboard::new());
    }
    scoreboards.get_mut("gamma").unwrap().add_team("red").unwrap();
    scoreboards.get_mut("alpha").unwrap().add_team("blue").unwrap();
    let saves = scoreboards.pending_saves();
    let names: Vec<&str> = saves.iter().map(|(d, _)| d.as_str()).collect();
    assert_eq!(names, vec!["alpha", "gamma"]);
    for (d, snapshot) in saves {
        scoreboards.mark_saved(&d, snapshot.revision);
    }
    assert!(scoreboards.pending_saves().is_empty());
    assert_eq!(scoreboards.domain_names(), vec!["alpha", "beta", "gamma"]);
}

#[test]
fn tracked_holders_are_those_with_a_score() {
    let mut scoreboard = Scoreboard::new();
    let kills = scoreboard.add_objective("kills").unwrap();
    let deaths = scoreboard.add_objective("deaths").unwrap();
    let red = scoreboard.add_team("red").unwrap();
    scoreboard
        .add_holder_to_team(&ScoreHolder::new("Teammate"), &red)
        .unwrap();
    scoreboard
        .set_score(&ScoreHolder::new("Steve"), &kills, 3)
        .unwrap();
    scoreboard
        .set_score_locked(&ScoreHolder::new("Alex"), &deaths, false)
        .unwrap();
    let holders: Vec<String> = scoreboard
        .tracked_holders()
        .iter()
        .map(|h| h.name().to_owned())
        .collect();
    assert_eq!(holders, vec!["Alex", "Steve"]);
    for name in &holders {
        let h = ScoreHolder::new(name);
        assert!(
            scoreboard.score_entry(&h, &kills).is_some()
                || scoreboard.score_entry(&h, &deaths).is_some()
        );
    }
    assert!(scoreboard
        .score_entry(&ScoreHolder::new("Teammate"), &kills)
        .is_none());
}

#[test]
fn revision_counts_changes_and_saved_revision_keeps_the_largest() {
    let mut scoreboard = Scoreboard::new();
    let kills = scoreboard.add_objective("kills").unwrap();
    assert!(scoreboard.add_objective("kills").is_err());
    let steve = ScoreHolder::new("Steve");
    scoreboard.set_score(&steve, &kills, 4).unwrap();
    let first = scoreboard.pending_save().expect("two changes made");
    assert_eq!(first.revision, 2);
    scoreboard.set_score(&steve, &kills, 5).unwrap();
    let second = scoreboard.pending_save().expect("three changes made");
    assert_eq!(second.revision, 3);
    scoreboard.mark_saved(second.revision);
    assert!(scoreboard.pending_save().is_none());
    scoreboard.mark_saved(first.revision);
    assert!(scoreboard.pending_save().is_none());
    scoreboard.add_team("red").unwrap();
    let third = scoreboard.pending_save().expect("a change after the save");
    assert!(third.revision > second.revision);
    assert_eq!(third.revision, 4);
}
