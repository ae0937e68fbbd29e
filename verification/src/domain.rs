//! Loaded command scoreboards keyed by domain.
use crate::name_map::{enumerates, NameMap};
use crate::scoreboard::{Scoreboard, ScoreboardSaveSnapshot, ScoreboardView};
use crate::text::{name_lt, names_sorted, views_of};
use vstd::prelude::*;

verus! {

/// The views of a map's scoreboards.
pub open spec fn scoreboard_views(m: Map<Seq<char>, Scoreboard>) -> Map<Seq<char>, ScoreboardView> {
    m.map_values(|s: Scoreboard| s@)
}

/// Whether a scoreboard has changes that are not known to be saved.
pub open spec fn is_dirty(s: ScoreboardView) -> bool {
    s.revision != s.saved_revision
}

/// The domains whose scoreboards have changes that are not known to be saved.
pub open spec fn dirty_domains(m: Map<Seq<char>, ScoreboardView>) -> Set<Seq<char>> {
    m.dom().filter(|d: Seq<char>| is_dirty(m[d]))
}

/// The domain names of a list of snapshots.
pub open spec fn save_domains(r: Seq<(String, ScoreboardSaveSnapshot)>) -> Seq<Seq<char>> {
    r.map_values(|e: (String, ScoreboardSaveSnapshot)| e.0@)
}

/// Loaded command scoreboards keyed by domain.
pub struct DomainScoreboards {
    scoreboards: NameMap<Scoreboard>,
}

impl View for DomainScoreboards {
    type V = Map<Seq<char>, ScoreboardView>;

    closed spec fn view(&self) -> Map<Seq<char>, ScoreboardView> {
        scoreboard_views(self.scoreboards@)
    }
}

impl DomainScoreboards {
    /// The map is sorted and every scoreboard is well formed.
    pub closed spec fn wf(&self) -> bool {
        &&& self.scoreboards.wf()
        &&& forall|d: Seq<char>| #[trigger] self.scoreboards@.contains_key(d) ==> self.scoreboards@[d].wf()
    }

    /// No scoreboards yet.
    pub fn new() -> (r: Self)
        ensures
            r.wf(),
            r@ == Map::<Seq<char>, ScoreboardView>::empty(),
    {
        let r = DomainScoreboards { scoreboards: NameMap::new() };
        assert(r@ =~= Map::<Seq<char>, ScoreboardView>::empty());
        r
    }

    /// Sets the scoreboard of a domain.
    pub fn insert(&mut self, domain: String, scoreboard: Scoreboard)
        requires
            old(self).wf(),
            scoreboard.wf(),
        ensures
            final(self).wf(),
            final(self)@ == old(self)@.insert(domain@, scoreboard@),
    {
        let ghost v = scoreboard@;
        let ghost before = self@;
        self.scoreboards.insert(domain, scoreboard);
        assert(self@ =~= before.insert(domain@, v));
    }

    /// Returns the scoreboard for a domain.
    pub fn get(&self, domain: &str) -> (r: Option<&Scoreboard>)
        requires
            self.wf(),
        ensures
            match r {
                Some(s) => self@.contains_key(domain@) && s@ == self@[domain@] && s.wf(),
                None => !self@.contains_key(domain@),
            },
    {
        self.scoreboards.get(domain)
    }

    /// Returns the scoreboard for a domain, to change it.
    pub fn get_mut(&mut self, domain: &str) -> (r: Option<&mut Scoreboard>)
        requires
            old(self).wf(),
        ensures
            match r {
                Some(s) => {
                    &&& old(self)@.contains_key(domain@)
                    &&& s@ == old(self)@[domain@]
                    &&& s.wf()
                    &&& final(self)@ == old(self)@.insert(domain@, final(s)@)
                    &&& final(s).wf() ==> final(self).wf()
                },
                None => !old(self)@.contains_key(domain@) && final(self)@ == old(self)@
                    && final(self).wf(),
            },
    {
        self.scoreboards.get_mut(domain)
    }

    /// Returns domain names in increasing order.
    pub fn domain_names(&self) -> (r: Vec<String>)
        requires
            self.wf(),
        ensures
            enumerates(views_of(r@), self@.dom()),
    {
        self.scoreboards.key_list()
    }

    /// The domains whose scoreboards have changes to save, in increasing
    /// order, each with a snapshot of its state.
    pub fn pending_saves(&self) -> (r: Vec<(String, ScoreboardSaveSnapshot)>)
        requires
            self.wf(),
        ensures
            enumerates(
                save_domains(r@),
                dirty_domains(self@),
            ),
            forall|i: int|
                0 <= i < r@.len() ==> {
                    let d = (#[trigger] r@[i]).0@;
                    &&& r@[i].1.revision == self@[d].revision
                    &&& r@[i].1.state.wf()
                    &&& r@[i].1.state@ == self@[d].state
                },
    {
        proof {
            self.scoreboards.lemma_layout();
        }
        let ghost names = self.scoreboards.names();
        let mut r: Vec<(String, ScoreboardSaveSnapshot)> = Vec::new();
        let n = self.scoreboards.len();
        let mut i: usize = 0;
        while i < n
            invariant
                self.wf(),
                names == self.scoreboards.names(),
                n == names.len(),
                i <= n,
                enumerates(self.scoreboards.names(), self.scoreboards@.dom()),
                forall|j: int| 0 <= j < n ==> #[trigger] self.scoreboards@[names[j]] == self.scoreboards.values()[j],
                names_sorted(save_domains(r@)),
                forall|m: int|
                    0 <= m < r@.len() ==> exists|j: int|
                        0 <= j < i && names[j] == #[trigger] save_domains(r@)[m],
                forall|j: int|
                    0 <= j < i && is_dirty(self@[#[trigger] names[j]]) ==> save_domains(
                        r@,
                    ).contains(names[j]),
                forall|m: int| 0 <= m < r@.len() ==> is_dirty(self@[#[trigger] save_domains(r@)[m]]),
                forall|j: int|
                    0 <= j < r@.len() ==> {
                        let d = (#[trigger] r@[j]).0@;
                        &&& r@[j].1.revision == self@[d].revision
                        &&& r@[j].1.state.wf()
                        &&& r@[j].1.state@ == self@[d].state
                    },
            decreases n - i,
        {
            assert(self@[names[i as int]] == self.scoreboards@[names[i as int]]@);
            let sb = self.scoreboards.value_at(i);
            let ghost r0 = r@;
            match sb.pending_save() {
                Some(snapshot) => {
                    let k = self.scoreboards.key_at(i).clone();
                    r.push((k, snapshot));
                    proof {
                        let d0 = save_domains(r0);
                        let d1 = save_domains(r@);
                        assert(d1 =~= d0.push(names[i as int]));
                        assert forall|m: int| 0 <= m < d0.len() implies name_lt(
                            #[trigger] d0[m],
                            names[i as int],
                        ) by {
                            let j = choose|j: int| 0 <= j < i && names[j] == d0[m];
                        }
                        assert forall|a: int, b: int| 0 <= a < b < d1.len() implies name_lt(
                            #[trigger] d1[a],
                            #[trigger] d1[b],
                        ) by {
                            if b == d0.len() {
                                assert(d1[a] == d0[a]);
                            } else {
                                assert(d1[a] == d0[a]);
                                assert(d1[b] == d0[b]);
                            }
                        }
                        assert forall|m: int| 0 <= m < r@.len() implies exists|j: int|
                            0 <= j < i + 1 && names[j] == #[trigger] save_domains(r@)[m] by {
                            if m < d0.len() {
                                assert(d1[m] == d0[m]);
                                let j = choose|j: int| 0 <= j < i && names[j] == d0[m];
                                assert(names[j] == d1[m]);
                            } else {
                                assert(names[i as int] == d1[m]);
                            }
                        }
                        assert forall|j: int|
                            0 <= j < i + 1 && is_dirty(self@[#[trigger] names[j]]) implies d1.contains(
                            names[j],
                        ) by {
                            if j < i {
                                let m = choose|m: int| 0 <= m < d0.len() && d0[m] == names[j];
                                assert(d1[m] == names[j]);
                            } else {
                                assert(d1[d0.len() as int] == names[j]);
                            }
                        }
                        assert forall|m: int| 0 <= m < r@.len() implies is_dirty(
                            self@[#[trigger] save_domains(r@)[m]],
                        ) by {
                            if m < d0.len() {
                                assert(d1[m] == d0[m]);
                            }
                        }
                        assert forall|j: int| 0 <= j < r@.len() implies {
                            let d = (#[trigger] r@[j]).0@;
                            &&& r@[j].1.revision == self@[d].revision
                            &&& r@[j].1.state.wf()
                            &&& r@[j].1.state@ == self@[d].state
                        } by {
                            if j < r0.len() {
                                assert(r@[j] == r0[j]);
                            }
                        }
                    }
                },
                None => {
                    proof {
                        assert forall|m: int| 0 <= m < r@.len() implies exists|j: int|
                            0 <= j < i + 1 && names[j] == #[trigger] save_domains(r@)[m] by {
                            let j = choose|j: int| 0 <= j < i && names[j] == save_domains(r@)[m];
                            assert(names[j] == save_domains(r@)[m]);
                        }
                    }
                },
            }
            i = i + 1;
        }
        proof {
            let d = save_domains(r@);
            assert forall|i: int| 0 <= i < d.len() implies dirty_domains(self@).contains(
                #[trigger] d[i],
            ) by {
                let j = choose|j: int| 0 <= j < n && names[j] == d[i];
                assert(self.scoreboards@.contains_key(names[j]));
            }
            assert forall|k: Seq<char>| #[trigger] dirty_domains(self@).contains(k) implies d.contains(
                k,
            ) by {
                let j = choose|j: int| 0 <= j < n && names[j] == k;
                assert(is_dirty(self@[names[j]]));
            }
        }
        r
    }

    /// Records that a domain's state of a revision was saved.
    pub fn mark_saved(&mut self, domain: &str, revision: u64)
        requires
            old(self).wf(),
            old(self)@.contains_key(domain@) ==> revision <= old(self)@[domain@].revision,
        ensures
            final(self).wf(),
            final(self)@.dom() == old(self)@.dom(),
            forall|d: Seq<char>|
                #[trigger] final(self)@.contains_key(d) ==> final(self)@[d] == if d == domain@ {
                    ScoreboardView {
                        saved_revision: if revision > old(self)@[d].saved_revision {
                            revision
                        } else {
                            old(self)@[d].saved_revision
                        },
                        ..old(self)@[d]
                    }
                } else {
                    old(self)@[d]
                },
    {
        match self.scoreboards.get_mut(domain) {
            Some(s) => {
                s.mark_saved(revision);
            },
            None => {},
        }
    }
}

} // verus!
