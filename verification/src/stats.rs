//! Tallies over a player's recent ranked solo-queue matches.

use vstd::prelude::*;

verus! {

/// The sum of a sequence of integers.
pub open spec fn seq_sum(s: Seq<int>) -> int
    decreases s.len(),
{
    if s.len() == 0 {
        0
    } else {
        seq_sum(s.drop_last()) + s.last()
    }
}

proof fn lemma_sum_push(s: Seq<int>, x: int)
    ensures
        seq_sum(s.push(x)) == seq_sum(s) + x,
{
    assert(s.push(x).drop_last() =~= s);
}

proof fn lemma_sum_update(s: Seq<int>, i: int, x: int)
    requires
        0 <= i < s.len(),
    ensures
        seq_sum(s.update(i, x)) == seq_sum(s) - s[i] + x,
    decreases s.len(),
{
    if i == s.len() - 1 {
        assert(s.update(i, x).drop_last() =~= s.drop_last());
    } else {
        lemma_sum_update(s.drop_last(), i, x);
        assert(s.update(i, x).drop_last() =~= s.drop_last().update(i, x));
    }
}

proof fn lemma_sum_nonneg(s: Seq<int>)
    requires
        forall|k: int| 0 <= k < s.len() ==> s[k] >= 0,
    ensures
        seq_sum(s) >= 0,
    decreases s.len(),
{
    if s.len() > 0 {
        assert(forall|k: int| 0 <= k < s.drop_last().len() ==> s.drop_last()[k] == s[k]);
        lemma_sum_nonneg(s.drop_last());
    }
}

proof fn lemma_sum_nonneg_bound(s: Seq<int>, i: int)
    requires
        0 <= i < s.len(),
        forall|k: int| 0 <= k < s.len() ==> s[k] >= 0,
    ensures
        s[i] <= seq_sum(s),
    decreases s.len(),
{
    assert(forall|k: int| 0 <= k < s.drop_last().len() ==> s.drop_last()[k] == s[k]);
    lemma_sum_nonneg(s.drop_last());
    if i < s.len() - 1 {
        lemma_sum_nonneg_bound(s.drop_last(), i);
    }
}

/// The number of `true` entries.
pub open spec fn count_true(s: Seq<bool>) -> int
    decreases s.len(),
{
    if s.len() == 0 {
        0
    } else {
        count_true(s.drop_last()) + if s.last() {
            1int
        } else {
            0
        }
    }
}

/// What one counted match contributes to the tallies.
pub struct MatchRecord {
    pub kills: u32,
    pub deaths: u32,
    pub assists: u32,
    pub win: bool,
    pub champion_id: i64,
    /// The position played (`teamPosition`).
    pub position: String,
}

/// The tallies over the counted matches.
pub struct PlayerStats {
    pub games: u32,
    pub wins: u32,
    pub kills: u32,
    pub deaths: u32,
    pub assists: u32,
    /// Games per position, each position once.
    pub role_games: Vec<(String, u32)>,
    /// `(champion id, games, wins)`, each champion once.
    pub champ_games: Vec<(i64, u32, u32)>,
    /// Win or loss of each counted match, in order.
    pub recent_results: Vec<bool>,
    /// Wins with low kill participation and low damage share.
    pub low_impact_wins: u32,
    /// Losses with few deaths, high kill participation and high damage share.
    pub good_losses: u32,
    /// Matches with eight deaths or more.
    pub death_heavy: u32,
}

/// Positions and their game counts.
pub open spec fn roles_view(v: Seq<(String, u32)>) -> Seq<(Seq<char>, u32)> {
    v.map_values(|p: (String, u32)| (p.0@, p.1))
}

/// The game counts of the positions.
pub open spec fn role_counts(v: Seq<(Seq<char>, u32)>) -> Seq<int> {
    v.map_values(|p: (Seq<char>, u32)| p.1 as int)
}

/// The game counts of the champions.
pub open spec fn champ_counts(v: Seq<(i64, u32, u32)>) -> Seq<int> {
    v.map_values(|p: (i64, u32, u32)| p.1 as int)
}

/// The position tally after one more game at `pos`.
pub open spec fn bump_role(roles: Seq<(Seq<char>, u32)>, pos: Seq<char>) -> Seq<(Seq<char>, u32)> {
    if exists|i: int| 0 <= i < roles.len() && roles[i].0 == pos {
        let i = choose|i: int| 0 <= i < roles.len() && roles[i].0 == pos;
        roles.update(i, (pos, (roles[i].1 + 1) as u32))
    } else {
        roles.push((pos, 1u32))
    }
}

/// The champion tally after one more game with champion `id`.
pub open spec fn bump_champ(champs: Seq<(i64, u32, u32)>, id: i64, win: bool) -> Seq<
    (i64, u32, u32),
> {
    let w: u32 = if win {
        1
    } else {
        0
    };
    if exists|i: int| 0 <= i < champs.len() && champs[i].0 == id {
        let i = choose|i: int| 0 <= i < champs.len() && champs[i].0 == id;
        champs.update(i, (id, (champs[i].1 + 1) as u32, (champs[i].2 + w) as u32))
    } else {
        champs.push((id, 1u32, w))
    }
}

/// The counts that a match adds, as integers (1 or 0).
pub open spec fn flag(b: bool) -> int {
    if b {
        1
    } else {
        0
    }
}

/// Whether a match is a win with little impact, given whether its kill
/// participation and damage share were both low.
pub open spec fn is_low_impact_win(m: MatchRecord, low_shape: bool) -> bool {
    m.win && low_shape
}

/// Whether a match is a loss played well, given whether its kill
/// participation and damage share were both high.
pub open spec fn is_good_loss(m: MatchRecord, good_shape: bool) -> bool {
    !m.win && good_shape && m.deaths <= 5
}

impl PlayerStats {
    /// The tallies agree with each other: every counted match appears once in
    /// the results, once in the position tally and once in the champion tally.
    pub open spec fn wf(&self) -> bool {
        &&& self.wins <= self.games
        &&& self.recent_results@.len() == self.games
        &&& count_true(self.recent_results@) == self.wins
        &&& self.low_impact_wins <= self.wins
        &&& self.good_losses + self.wins <= self.games
        &&& self.death_heavy <= self.games
        &&& forall|i: int, j: int|
            0 <= i < j < self.role_games@.len() ==> self.role_games@[i].0@
                != self.role_games@[j].0@
        &&& seq_sum(role_counts(roles_view(self.role_games@))) == self.games
        &&& forall|i: int, j: int|
            0 <= i < j < self.champ_games@.len() ==> self.champ_games@[i].0
                != self.champ_games@[j].0
        &&& seq_sum(champ_counts(self.champ_games@)) == self.games
        &&& forall|i: int|
            0 <= i < self.champ_games@.len() ==> #[trigger] self.champ_games@[i].2
                <= self.champ_games@[i].1
    }

    /// No match counted yet.
    pub fn new() -> (s: PlayerStats)
        ensures
            s.wf(),
            s.games == 0,
            s.wins == 0,
            s.kills == 0,
            s.deaths == 0,
            s.assists == 0,
            s.role_games@.len() == 0,
            s.champ_games@.len() == 0,
            s.recent_results@.len() == 0,
            s.low_impact_wins == 0,
            s.good_losses == 0,
            s.death_heavy == 0,
    {
        let s = PlayerStats {
            games: 0,
            wins: 0,
            kills: 0,
            deaths: 0,
            assists: 0,
            role_games: Vec::new(),
            champ_games: Vec::new(),
            recent_results: Vec::new(),
            low_impact_wins: 0,
            good_losses: 0,
            death_heavy: 0,
        };
        assert(roles_view(s.role_games@) =~= Seq::<(Seq<char>, u32)>::empty());
        assert(role_counts(roles_view(s.role_games@)) =~= Seq::<int>::empty());
        assert(champ_counts(s.champ_games@) =~= Seq::<int>::empty());
        s
    }

    /// Whether one more match fits the `u32` counters.
    pub open spec fn fits(&self, m: MatchRecord) -> bool {
        &&& self.games < u32::MAX
        &&& self.kills + m.kills <= u32::MAX
        &&& self.deaths + m.deaths <= u32::MAX
        &&& self.assists + m.assists <= u32::MAX
    }

    /// The tallies after counting match `m`.
    pub open spec fn recorded(&self, next: PlayerStats, m: MatchRecord, low_shape: bool, good_shape: bool) -> bool {
        &&& next.games == self.games + 1
        &&& next.wins == self.wins + flag(m.win)
        &&& next.kills == self.kills + m.kills
        &&& next.deaths == self.deaths + m.deaths
        &&& next.assists == self.assists + m.assists
        &&& next.recent_results@ == self.recent_results@.push(m.win)
        &&& next.low_impact_wins == self.low_impact_wins + flag(is_low_impact_win(m, low_shape))
        &&& next.good_losses == self.good_losses + flag(is_good_loss(m, good_shape))
        &&& next.death_heavy == self.death_heavy + flag(m.deaths >= 8)
        &&& roles_view(next.role_games@) == bump_role(roles_view(self.role_games@), m.position@)
        &&& next.champ_games@ == bump_champ(self.champ_games@, m.champion_id, m.win)
    }

    /// Counts one match. `low_shape` tells whether its kill participation
    /// was under 0.35 and its damage share under 0.18; `good_shape` whether
    /// they were over 0.55 and 0.22. Returns `false`, counting nothing, when
    /// a counter would overflow.
    pub fn record_match(&mut self, m: &MatchRecord, low_shape: bool, good_shape: bool) -> (ok: bool)
        requires
            old(self).wf(),
        ensures
            final(self).wf(),
            ok == old(self).fits(*m),
            ok ==> old(self).recorded(*final(self), *m, low_shape, good_shape),
            !ok ==> *final(self) == *old(self),
    {
        if self.games == u32::MAX || self.kills > u32::MAX - m.kills || self.deaths > u32::MAX
            - m.deaths || self.assists > u32::MAX - m.assists {
            return false;
        }
        let ghost pre = *self;
        self.games = self.games + 1;
        if m.win {
            self.wins = self.wins + 1;
        }
        self.kills = self.kills + m.kills;
        self.deaths = self.deaths + m.deaths;
        self.assists = self.assists + m.assists;
        self.recent_results.push(m.win);
        proof {
            assert(self.recent_results@.drop_last() =~= pre.recent_results@);
        }
        if m.win && low_shape {
            self.low_impact_wins = self.low_impact_wins + 1;
        }
        if !m.win && good_shape && m.deaths <= 5 {
            self.good_losses = self.good_losses + 1;
        }
        if m.deaths >= 8 {
            self.death_heavy = self.death_heavy + 1;
        }
        self.bump_role_games(&m.position);
        self.bump_champ_games(m.champion_id, m.win);
        true
    }

    fn bump_role_games(&mut self, pos: &String)
        requires
            forall|i: int, j: int|
                0 <= i < j < old(self).role_games@.len() ==> old(self).role_games@[i].0@
                    != old(self).role_games@[j].0@,
            seq_sum(role_counts(roles_view(old(self).role_games@))) < u32::MAX,
        ensures
            forall|i: int, j: int|
                0 <= i < j < final(self).role_games@.len() ==> final(self).role_games@[i].0@
                    != final(self).role_games@[j].0@,
            seq_sum(role_counts(roles_view(final(self).role_games@))) == seq_sum(
                role_counts(roles_view(old(self).role_games@)),
            ) + 1,
            roles_view(final(self).role_games@) == bump_role(
                roles_view(old(self).role_games@),
                pos@,
            ),
            final(self).games == old(self).games,
            final(self).wins == old(self).wins,
            final(self).kills == old(self).kills,
            final(self).deaths == old(self).deaths,
            final(self).assists == old(self).assists,
            final(self).recent_results == old(self).recent_results,
            final(self).low_impact_wins == old(self).low_impact_wins,
            final(self).good_losses == old(self).good_losses,
            final(self).death_heavy == old(self).death_heavy,
            final(self).champ_games == old(self).champ_games,
    {
        let ghost old_view = roles_view(self.role_games@);
        match find_role(&self.role_games, pos) {
            Some(i) => {
                let key = self.role_games[i].0.clone();
                let c = self.role_games[i].1;
                proof {
                    let cs = role_counts(old_view);
                    assert(forall|k: int| 0 <= k < cs.len() ==> cs[k] >= 0);
                    lemma_sum_nonneg_bound(cs, i as int);
                    assert(cs[i as int] == c);
                }
                self.role_games.set(i, (key, c + 1));
                proof {
                    assert(old_view[i as int].0 == pos@);
                    let j = choose|j: int| 0 <= j < old_view.len() && old_view[j].0 == pos@;
                    assert(old_view[j].0 == old(self).role_games@[j].0@);
                    assert(j == i as int);
                    assert(roles_view(self.role_games@) =~= old_view.update(
                        i as int,
                        (pos@, (c + 1) as u32),
                    ));
                    assert(role_counts(roles_view(self.role_games@)) =~= role_counts(
                        old_view,
                    ).update(i as int, (c + 1) as int));
                    lemma_sum_update(role_counts(old_view), i as int, (c + 1) as int);
                }
            },
            None => {
                self.role_games.push((pos.clone(), 1));
                proof {
                    assert(!(exists|j: int| 0 <= j < old_view.len() && old_view[j].0 == pos@));
                    assert(roles_view(self.role_games@) =~= old_view.push((pos@, 1u32)));
                    assert(role_counts(roles_view(self.role_games@)) =~= role_counts(
                        old_view,
                    ).push(1));
                    lemma_sum_push(role_counts(old_view), 1);
                }
            },
        }
    }

    fn bump_champ_games(&mut self, id: i64, win: bool)
        requires
            forall|i: int, j: int|
                0 <= i < j < old(self).champ_games@.len() ==> old(self).champ_games@[i].0
                    != old(self).champ_games@[j].0,
            seq_sum(champ_counts(old(self).champ_games@)) < u32::MAX,
            forall|i: int|
                0 <= i < old(self).champ_games@.len() ==> #[trigger] old(self).champ_games@[i].2
                    <= old(self).champ_games@[i].1,
        ensures
            forall|i: int, j: int|
                0 <= i < j < final(self).champ_games@.len() ==> final(self).champ_games@[i].0
                    != final(self).champ_games@[j].0,
            forall|i: int|
                0 <= i < final(self).champ_games@.len() ==> #[trigger] final(self).champ_games@[i].2
                    <= final(self).champ_games@[i].1,
            seq_sum(champ_counts(final(self).champ_games@)) == seq_sum(
                champ_counts(old(self).champ_games@),
            ) + 1,
            final(self).champ_games@ == bump_champ(old(self).champ_games@, id, win),
            final(self).games == old(self).games,
            final(self).wins == old(self).wins,
            final(self).kills == old(self).kills,
            final(self).deaths == old(self).deaths,
            final(self).assists == old(self).assists,
            final(self).recent_results == old(self).recent_results,
            final(self).low_impact_wins == old(self).low_impact_wins,
            final(self).good_losses == old(self).good_losses,
            final(self).death_heavy == old(self).death_heavy,
            final(self).role_games == old(self).role_games,
    {
        let ghost old_champs = self.champ_games@;
        match find_champ(&self.champ_games, id) {
            Some(i) => {
                let (cid, g, w) = self.champ_games[i];
                proof {
                    let cs = champ_counts(old_champs);
                    assert(forall|k: int| 0 <= k < cs.len() ==> cs[k] >= 0);
                    lemma_sum_nonneg_bound(cs, i as int);
                    assert(cs[i as int] == g);
                    assert(old_champs[i as int].2 <= old_champs[i as int].1);
                }
                let nw = if win {
                    w + 1
                } else {
                    w
                };
                self.champ_games.set(i, (cid, g + 1, nw));
                proof {
                    let j = choose|j: int| 0 <= j < old_champs.len() && old_champs[j].0 == id;
                    assert(j == i as int);
                    assert(champ_counts(self.champ_games@) =~= champ_counts(old_champs).update(
                        i as int,
                        (g + 1) as int,
                    ));
                    lemma_sum_update(champ_counts(old_champs), i as int, (g + 1) as int);
                    assert(self.champ_games@ =~= bump_champ(old_champs, id, win));
                }
            },
            None => {
                let w: u32 = if win {
                    1
                } else {
                    0
                };
                self.champ_games.push((id, 1, w));
                proof {
                    assert(!(exists|j: int| 0 <= j < old_champs.len() && old_champs[j].0 == id));
                    assert(champ_counts(self.champ_games@) =~= champ_counts(old_champs).push(1));
                    lemma_sum_push(champ_counts(old_champs), 1);
                }
            },
        }
    }
}

fn find_role(roles: &Vec<(String, u32)>, pos: &String) -> (r: Option<usize>)
    ensures
        match r {
            Some(i) => i < roles@.len() && roles@[i as int].0@ == pos@,
            None => forall|k: int| 0 <= k < roles@.len() ==> roles@[k].0@ != pos@,
        },
{
    let n = roles.len();
    let mut i: usize = 0;
    while i < n
        invariant
            n == roles@.len(),
            i <= n,
            forall|k: int| 0 <= k < i ==> roles@[k].0@ != pos@,
        decreases n - i,
    {
        if roles[i].0 == *pos {
            return Some(i);
        }
        i = i + 1;
    }
    None
}

fn find_champ(champs: &Vec<(i64, u32, u32)>, id: i64) -> (r: Option<usize>)
    ensures
        match r {
            Some(i) => i < champs@.len() && champs@[i as int].0 == id,
            None => forall|k: int| 0 <= k < champs@.len() ==> champs@[k].0 != id,
        },
{
    let n = champs.len();
    let mut i: usize = 0;
    while i < n
        invariant
            n == champs@.len(),
            i <= n,
            forall|k: int| 0 <= k < i ==> champs@[k].0 != id,
        decreases n - i,
    {
        if champs[i].0 == id {
            return Some(i);
        }
        i = i + 1;
    }
    None
}

} // verus!
