//! A player's profile drawn from the tallies: main role, comfort champions,
//! tags, the overall verdict and how much to trust it.

use vstd::prelude::*;
use crate::ddragon::{catalog_view, champion_names, DdragonCache};
use crate::labels::{role_label, role_label_spec};
use crate::stats::{roles_view, PlayerStats};
use crate::urls::{champion_icon_url, profile_links, site_slug};
use crate::labels::opgg_region_spec;
use crate::text::{decimal, decimal_spec};

verus! {

/// The main role: the display name of a position with the most games, or
/// "Unknown" when no match was counted. Among positions with equally many
/// games any may be taken (the tally's order is that of a hash map).
pub open spec fn is_main_role(roles: Seq<(Seq<char>, u32)>, r: Seq<char>) -> bool {
    if roles.len() == 0 {
        r == "Unknown"@
    } else {
        exists|i: int|
            #![trigger roles[i]]
            0 <= i < roles.len() && r == role_label_spec(roles[i].0) && forall|j: int|
                #![trigger roles[j]]
                0 <= j < roles.len() ==> roles[j].1 <= roles[i].1
    }
}

fn max_role_index(roles: &Vec<(String, u32)>) -> (r: usize)
    requires
        roles@.len() > 0,
    ensures
        r < roles@.len(),
        forall|j: int| 0 <= j < roles@.len() ==> roles@[j].1 <= roles@[r as int].1,
{
    let n = roles.len();
    let mut best: usize = 0;
    let mut i: usize = 1;
    while i < n
        invariant
            n == roles@.len(),
            1 <= i <= n,
            best < i,
            forall|j: int| 0 <= j < i ==> roles@[j].1 <= roles@[best as int].1,
        decreases n - i,
    {
        if roles[i].1 >= roles[best].1 {
            best = i;
        }
        i = i + 1;
    }
    best
}

/// The display name of the position played most.
pub fn main_role(stats: &PlayerStats) -> (r: String)
    ensures
        is_main_role(roles_view(stats.role_games@), r@),
{
    if stats.role_games.len() == 0 {
        return String::from_str("Unknown");
    }
    let i = max_role_index(&stats.role_games);
    let r = role_label(stats.role_games[i].0.as_str());
    proof {
        let rv = roles_view(stats.role_games@);
        assert(rv[i as int].0 == stats.role_games@[i as int].0@);
        assert(forall|j: int| 0 <= j < rv.len() ==> rv[j].1 <= rv[i as int].1);
        assert(r@ == role_label_spec(rv[i as int].0));
    }
    r
}

/// The most games played in a single position (0 when none were counted).
pub fn top_role_games(stats: &PlayerStats) -> (r: u32)
    ensures
        stats.role_games@.len() == 0 ==> r == 0,
        stats.role_games@.len() > 0 ==> (exists|i: int|
            0 <= i < stats.role_games@.len() && r == stats.role_games@[i].1) && forall|j: int|
            0 <= j < stats.role_games@.len() ==> stats.role_games@[j].1 <= r,
{
    if stats.role_games.len() == 0 {
        0
    } else {
        let i = max_role_index(&stats.role_games);
        stats.role_games[i].1
    }
}

/// `idx` picks up to three champions, most played first: each pick has at
/// least as many games as every champion not picked before it.
pub open spec fn is_top_three(champs: Seq<(i64, u32, u32)>, idx: Seq<usize>) -> bool {
    &&& idx.len() == if champs.len() < 3 {
        champs.len()
    } else {
        3
    }
    &&& forall|j: int| 0 <= j < idx.len() ==> idx[j] < champs.len()
    &&& forall|j: int, k: int| 0 <= j < k < idx.len() ==> idx[j] != idx[k]
    &&& forall|j: int, i: int|
        #![trigger champs[i], idx[j]]
        0 <= j < idx.len() && 0 <= i < champs.len() && !idx.subrange(0, j).contains(i as usize)
            ==> champs[i].1 <= champs[idx[j] as int].1
}

/// Indices of the (up to) three most played champions, most played first.
pub fn top_champion_indices(champs: &Vec<(i64, u32, u32)>) -> (r: Vec<usize>)
    ensures
        is_top_three(champs@, r@),
{
    let n = champs.len();
    let want: usize = if n < 3 {
        n
    } else {
        3
    };
    let mut picked: Vec<usize> = Vec::new();
    while picked.len() < want
        invariant
            n == champs@.len(),
            want == if n < 3 {
                n
            } else {
                3
            },
            picked@.len() <= want,
            forall|j: int| 0 <= j < picked@.len() ==> picked@[j] < n,
            forall|j: int, k: int| 0 <= j < k < picked@.len() ==> picked@[j] != picked@[k],
            forall|j: int, i: int|
                #![trigger champs@[i], picked@[j]]
                0 <= j < picked@.len() && 0 <= i < n && !picked@.subrange(0, j).contains(
                    i as usize,
                ) ==> champs@[i].1 <= champs@[picked@[j] as int].1,
        decreases want - picked@.len(),
    {
        let ghost before = picked@;
        let mut best: Option<usize> = None;
        let mut i: usize = 0;
        while i < n
            invariant
                n == champs@.len(),
                i <= n,
                picked@ == before,
                match best {
                    Some(b) => b < i && !before.contains(b) && forall|k: int|
                        0 <= k < i && !before.contains(k as usize) ==> champs@[k].1 <= champs@[b as int].1,
                    None => forall|k: usize| k < i ==> #[trigger] before.contains(k),
                },
            decreases n - i,
        {
            let mut taken = false;
            let mut j: usize = 0;
            while j < picked.len()
                invariant
                    picked@ == before,
                    j <= before.len(),
                    taken == (exists|k: int| 0 <= k < j && before[k] == i),
                decreases before.len() - j,
            {
                if picked[j] == i {
                    taken = true;
                }
                j = j + 1;
            }
            assert(taken == before.contains(i));
            if !taken {
                match best {
                    Some(b) => {
                        if champs[i].1 > champs[b].1 {
                            best = Some(i);
                        }
                    },
                    None => {
                        best = Some(i);
                    },
                }
            }
            i = i + 1;
        }
        match best {
            Some(b) => {
                picked.push(b);
                proof {
                    assert(picked@.subrange(0, before.len() as int) =~= before);
                    assert forall|j: int, k: int|
                        #![trigger champs@[k], picked@[j]]
                        0 <= j < picked@.len() && 0 <= k < n && !picked@.subrange(0, j).contains(
                            k as usize,
                        ) implies champs@[k].1 <= champs@[picked@[j] as int].1 by {
                        if j < before.len() {
                            assert(picked@.subrange(0, j) =~= before.subrange(0, j));
                        } else {
                            assert(picked@.subrange(0, j) =~= before);
                        }
                    }
                }
            },
            None => {
                proof {
                    // every index is already picked, so more than `want` were picked
                    assert(forall|k: usize| k < n ==> #[trigger] before.contains(k));
                    lemma_distinct_cover(before, n as int);
                }
            },
        }
    }
    picked
}

/// Distinct indices that cover `0..n` number at least `n`.
proof fn lemma_distinct_cover(s: Seq<usize>, n: int)
    requires
        0 <= n <= usize::MAX,
        forall|k: usize| (k as int) < n ==> #[trigger] s.contains(k),
        forall|j: int, k: int| 0 <= j < k < s.len() ==> s[j] != s[k],
    ensures
        s.len() >= n,
{
    let f = |k: int| s.index_of(k as usize);
    assert forall|k: int| 0 <= k < n implies 0 <= #[trigger] f(k) < s.len() && s[f(k)] == k
        as usize by {
        assert(s.contains(k as usize));
    }
    let dom = vstd::set_lib::set_int_range(0, n);
    let img = dom.map(f);
    let all = vstd::set_lib::set_int_range(0, s.len() as int);
    vstd::set_lib::lemma_int_range(0, n);
    vstd::set_lib::lemma_int_range(0, s.len() as int);
    assert forall|a: int, b: int| dom.contains(a) && dom.contains(b) && #[trigger] f(a) == #[trigger] f(b) implies a == b by {
        assert(s[f(a)] == a as usize);
        assert(s[f(b)] == b as usize);
    }
    assert(vstd::relations::injective_on(f, dom));
    vstd::set_lib::lemma_map_size(dom, img, f);
    assert forall|j: int| img.contains(j) implies all.contains(j) by {
        let k = choose|k: int| dom.contains(k) && f(k) == j;
    }
    vstd::set_lib::lemma_len_subset(img, all);
}


/// Comparisons of a player's floating-point ratios with the profile
/// thresholds: the share of games in the most played position, the win rate
/// in percent, and (kills + assists) / deaths.
pub struct FormSignals {
    /// Position share at least 0.70.
    pub role_share_main: bool,
    /// Position share under 0.45.
    pub role_share_mixed: bool,
    /// Position share at least 0.6.
    pub role_share_steady: bool,
    /// Win rate at least 58.
    pub win_rate_strong: bool,
    /// Win rate under 42.
    pub win_rate_weak: bool,
    /// Win rate at least 50.
    pub win_rate_even: bool,
    /// KDA at least 2.7.
    pub kda_strong: bool,
}

/// `tags` with `tag` added when `cond` holds.
pub open spec fn tag_if(tags: Seq<Seq<char>>, cond: bool, tag: Seq<char>) -> Seq<Seq<char>> {
    if cond {
        tags.push(tag)
    } else {
        tags
    }
}

/// The profile tags, in order: main role or mixed roles, strong recent win
/// rate, falling form (weak win rate over at least 8 games), often carried
/// (3 or more low-impact wins), good losses (2 or more), death-heavy (4 or
/// more), comfort champion (the most played champion has 4 games or more).
pub open spec fn tags_spec(
    games: u32,
    low_impact_wins: u32,
    good_losses: u32,
    death_heavy: u32,
    s: FormSignals,
    top_champion_games: Option<u32>,
) -> Seq<Seq<char>> {
    let t0 = tag_if(Seq::empty(), s.role_share_main, "main role"@);
    let t1 = tag_if(t0, !s.role_share_main && s.role_share_mixed, "mixed roles"@);
    let t2 = tag_if(t1, s.win_rate_strong, "strong recent WR"@);
    let t3 = tag_if(t2, s.win_rate_weak && games >= 8, "spadkowa forma"@);
    let t4 = tag_if(t3, low_impact_wins >= 3, "często carrowany"@);
    let t5 = tag_if(t4, good_losses >= 2, "dobre staty w porażkach"@);
    let t6 = tag_if(t5, death_heavy >= 4, "death-heavy"@);
    tag_if(
        t6,
        match top_champion_games {
            Some(g) => g >= 4,
            None => false,
        },
        "comfort champ"@,
    )
}

fn push_tag(tags: &mut Vec<String>, cond: bool, tag: &str)
    ensures
        final(tags)@.map_values(|t: String| t@) == tag_if(
            old(tags)@.map_values(|t: String| t@),
            cond,
            tag@,
        ),
{
    if cond {
        let ghost before = tags@;
        tags.push(String::from_str(tag));
        assert(tags@.map_values(|t: String| t@) =~= before.map_values(|t: String| t@).push(tag@));
    }
}

/// The profile tags.
pub fn profile_tags(stats: &PlayerStats, s: &FormSignals, top_champion_games: Option<u32>) -> (r: Vec<
    String,
>)
    ensures
        r@.map_values(|t: String| t@) == tags_spec(
            stats.games,
            stats.low_impact_wins,
            stats.good_losses,
            stats.death_heavy,
            *s,
            top_champion_games,
        ),
{
    let mut tags: Vec<String> = Vec::new();
    assert(tags@.map_values(|t: String| t@) =~= Seq::<Seq<char>>::empty());
    push_tag(&mut tags, s.role_share_main, "main role");
    push_tag(&mut tags, !s.role_share_main && s.role_share_mixed, "mixed roles");
    push_tag(&mut tags, s.win_rate_strong, "strong recent WR");
    push_tag(&mut tags, s.win_rate_weak && stats.games >= 8, "spadkowa forma");
    push_tag(&mut tags, stats.low_impact_wins >= 3, "często carrowany");
    push_tag(&mut tags, stats.good_losses >= 2, "dobre staty w porażkach");
    push_tag(&mut tags, stats.death_heavy >= 4, "death-heavy");
    let comfort = match top_champion_games {
        Some(g) => g >= 4,
        None => false,
    };
    push_tag(&mut tags, comfort, "comfort champ");
    tags
}

/// A tag is in `tag_if(tags, cond, tag)` only if it was in `tags`, or it is
/// `tag` and `cond` holds.
proof fn lemma_tag_if_contains(tags: Seq<Seq<char>>, cond: bool, tag: Seq<char>, x: Seq<char>)
    ensures
        tag_if(tags, cond, tag).contains(x) ==> tags.contains(x) || (cond && x == tag),
        tags.contains(x) ==> tag_if(tags, cond, tag).contains(x),
        cond ==> tag_if(tags, cond, tag).contains(tag),
{
    if cond {
        let t = tags.push(tag);
        if t.contains(x) {
            let i = choose|i: int| 0 <= i < t.len() && t[i] == x;
            if i < tags.len() {
                assert(tags[i] == x);
            }
        }
        if tags.contains(x) {
            let i = choose|i: int| 0 <= i < tags.len() && tags[i] == x;
            assert(t[i] == x);
        }
        assert(t[tags.len() as int] == tag);
    }
}

/// The falling-form tag ("spadkowa forma") is given exactly to a profile
/// with at least 8 counted games and a weak win rate.
pub proof fn law_falling_form_tag(
    games: u32,
    low_impact_wins: u32,
    good_losses: u32,
    death_heavy: u32,
    s: FormSignals,
    top_champion_games: Option<u32>,
)
    ensures
        tags_spec(games, low_impact_wins, good_losses, death_heavy, s, top_champion_games).contains(
            "spadkowa forma"@,
        ) <==> games >= 8 && s.win_rate_weak,
{
    let x = "spadkowa forma"@;
    reveal_strlit("spadkowa forma");
    reveal_strlit("main role");
    reveal_strlit("mixed roles");
    reveal_strlit("strong recent WR");
    reveal_strlit("często carrowany");
    reveal_strlit("dobre staty w porażkach");
    reveal_strlit("death-heavy");
    reveal_strlit("comfort champ");
    let t0 = tag_if(Seq::empty(), s.role_share_main, "main role"@);
    let t1 = tag_if(t0, !s.role_share_main && s.role_share_mixed, "mixed roles"@);
    let t2 = tag_if(t1, s.win_rate_strong, "strong recent WR"@);
    let c3 = s.win_rate_weak && games >= 8;
    let t3 = tag_if(t2, c3, x);
    let t4 = tag_if(t3, low_impact_wins >= 3, "często carrowany"@);
    let t5 = tag_if(t4, good_losses >= 2, "dobre staty w porażkach"@);
    let t6 = tag_if(t5, death_heavy >= 4, "death-heavy"@);
    let cc = match top_champion_games {
        Some(g) => g >= 4,
        None => false,
    };
    let t7 = tag_if(t6, cc, "comfort champ"@);
    lemma_tag_if_contains(Seq::empty(), s.role_share_main, "main role"@, x);
    lemma_tag_if_contains(t0, !s.role_share_main && s.role_share_mixed, "mixed roles"@, x);
    lemma_tag_if_contains(t1, s.win_rate_strong, "strong recent WR"@, x);
    lemma_tag_if_contains(t2, c3, x, x);
    lemma_tag_if_contains(t3, low_impact_wins >= 3, "często carrowany"@, x);
    lemma_tag_if_contains(t4, good_losses >= 2, "dobre staty w porażkach"@, x);
    lemma_tag_if_contains(t5, death_heavy >= 4, "death-heavy"@, x);
    lemma_tag_if_contains(t6, cc, "comfort champ"@, x);
    assert(x.len() == 14);
    assert("main role"@.len() != 14);
    assert("mixed roles"@.len() != 14);
    assert("strong recent WR"@.len() != 14);
    assert("często carrowany"@.len() != 14);
    assert("dobre staty w porażkach"@.len() != 14);
    assert("death-heavy"@.len() != 14);
    assert("comfort champ"@.len() != 14);
    assert(!Seq::<Seq<char>>::empty().contains(x));
    assert(t7 == tags_spec(games, low_impact_wins, good_losses, death_heavy, s, top_champion_games));
}

proof fn lemma_verdict_literals()
    ensures
        "Mało danych"@ != "Winnable"@,
        "Mało danych"@ != "Carried wins"@,
        "Mało danych"@ != "Risky"@,
        "Mało danych"@ != "Playable"@,
        "Winnable"@ != "Carried wins"@,
        "Winnable"@ != "Risky"@,
        "Winnable"@ != "Playable"@,
        "Carried wins"@ != "Risky"@,
        "Carried wins"@ != "Playable"@,
        "Risky"@ != "Playable"@,
        "negative"@ != "neutral"@,
        "negative"@ != "positive"@,
{
    reveal_strlit("Mało danych");
    reveal_strlit("Winnable");
    reveal_strlit("Carried wins");
    reveal_strlit("Risky");
    reveal_strlit("Playable");
    reveal_strlit("negative");
    reveal_strlit("neutral");
    reveal_strlit("positive");
    assert("Mało danych"@[0] != "Winnable"@[0]);
    assert("Mało danych"@[0] != "Carried wins"@[0]);
    assert("Mało danych"@[0] != "Risky"@[0]);
    assert("Mało danych"@[0] != "Playable"@[0]);
    assert("Winnable"@[0] != "Carried wins"@[0]);
    assert("Winnable"@[0] != "Risky"@[0]);
    assert("Winnable"@[0] != "Playable"@[0]);
    assert("Carried wins"@[0] != "Risky"@[0]);
    assert("Carried wins"@[0] != "Playable"@[0]);
    assert("Risky"@[0] != "Playable"@[0]);
    assert("negative"@.len() != "neutral"@.len());
    assert("negative"@[0] != "positive"@[0]);
}

/// The verdict rules seen from their outcomes: "Carried wins" needs at least
/// 5 games, 3 low-impact wins and a win rate of at least 50; with at least 5
/// games a weak win rate is never "Playable", and unless the "Winnable" rule
/// holds or the win rate is at least 50 with 3 low-impact wins, it is "Risky"
/// with a negative tone; "Risky" needs at least 5 games and a weak win rate or
/// 4 death-heavy games; "Playable" needs at least 5 games, no weak win rate
/// and fewer than 4 death-heavy games.
pub proof fn law_verdict_rules(games: u32, low_impact_wins: u32, death_heavy: u32, s: FormSignals)
    ensures
        verdict_spec(games, low_impact_wins, death_heavy, s).0 == "Carried wins"@ ==> games >= 5
            && low_impact_wins >= 3 && s.win_rate_even,
        games >= 5 && s.win_rate_weak ==> verdict_spec(games, low_impact_wins, death_heavy, s).0
            != "Playable"@,
        games >= 5 && s.win_rate_weak && !(s.win_rate_strong && s.kda_strong && s.role_share_steady)
            && !(low_impact_wins >= 3 && s.win_rate_even) ==> verdict_spec(
            games,
            low_impact_wins,
            death_heavy,
            s,
        ).0 == "Risky"@ && verdict_spec(games, low_impact_wins, death_heavy, s).1 == "negative"@,
        verdict_spec(games, low_impact_wins, death_heavy, s).0 == "Risky"@ ==> games >= 5 && (
        s.win_rate_weak || death_heavy >= 4),
        verdict_spec(games, low_impact_wins, death_heavy, s).0 == "Playable"@ ==> games >= 5
            && !s.win_rate_weak && death_heavy < 4,
        games < 5 <==> verdict_spec(games, low_impact_wins, death_heavy, s).0 == "Mało danych"@,
{
    lemma_verdict_literals();
}

/// How a profile is judged: a label, a tone and a short description.
pub struct Verdict {
    pub label: String,
    pub tone: String,
    pub summary: String,
}

/// The verdict, by the first rule that applies: under 5 games "Mało danych";
/// strong win rate, strong KDA and a steady position "Winnable"; 3 or more
/// low-impact wins with an even win rate "Carried wins"; a weak win rate or 4
/// or more death-heavy games "Risky"; otherwise "Playable".
pub open spec fn verdict_spec(games: u32, low_impact_wins: u32, death_heavy: u32, s: FormSignals) -> (
    Seq<char>,
    Seq<char>,
    Seq<char>,
) {
    if games < 5 {
        (
            "Mało danych"@,
            "neutral"@,
            "Profil ma mało ostatnich gier SoloQ, więc ocena jest ostrożna."@,
        )
    } else if s.win_rate_strong && s.kda_strong && s.role_share_steady {
        (
            "Winnable"@,
            "positive"@,
            "Wygląda stabilnie: dobra recent forma, sensowny impact i najczęściej gra swoją rolę."@,
        )
    } else if low_impact_wins >= 3 && s.win_rate_even {
        (
            "Carried wins"@,
            "neutral"@,
            "Wyniki wyglądają ok, ale część wygranych ma niski indywidualny impact."@,
        )
    } else if s.win_rate_weak || death_heavy >= 4 {
        (
            "Risky"@,
            "negative"@,
            "Ryzykowny profil: słabsza recent forma lub dużo gier z wysoką liczbą śmierci."@,
        )
    } else {
        (
            "Playable"@,
            "neutral"@,
            "Profil wygląda grywalnie, bez dużych czerwonych flag w ostatnich SoloQ."@,
        )
    }
}

fn verdict_of(label: &str, tone: &str, summary: &str) -> (r: Verdict)
    ensures
        r.label@ == label@,
        r.tone@ == tone@,
        r.summary@ == summary@,
{
    Verdict {
        label: String::from_str(label),
        tone: String::from_str(tone),
        summary: String::from_str(summary),
    }
}

/// The profile's verdict.
pub fn profile_verdict(stats: &PlayerStats, s: &FormSignals) -> (r: Verdict)
    ensures
        (r.label@, r.tone@, r.summary@) == verdict_spec(
            stats.games,
            stats.low_impact_wins,
            stats.death_heavy,
            *s,
        ),
{
    if stats.games < 5 {
        verdict_of(
            "Mało danych",
            "neutral",
            "Profil ma mało ostatnich gier SoloQ, więc ocena jest ostrożna.",
        )
    } else if s.win_rate_strong && s.kda_strong && s.role_share_steady {
        verdict_of(
            "Winnable",
            "positive",
            "Wygląda stabilnie: dobra recent forma, sensowny impact i najczęściej gra swoją rolę.",
        )
    } else if stats.low_impact_wins >= 3 && s.win_rate_even {
        verdict_of(
            "Carried wins",
            "neutral",
            "Wyniki wyglądają ok, ale część wygranych ma niski indywidualny impact.",
        )
    } else if s.win_rate_weak || stats.death_heavy >= 4 {
        verdict_of(
            "Risky",
            "negative",
            "Ryzykowny profil: słabsza recent forma lub dużo gier z wysoką liczbą śmierci.",
        )
    } else {
        verdict_of(
            "Playable",
            "neutral",
            "Profil wygląda grywalnie, bez dużych czerwonych flag w ostatnich SoloQ.",
        )
    }
}

/// How far the profile can be trusted: "high" from 15 games, "medium" from 8,
/// "low" below.
pub open spec fn confidence_spec(games: u32) -> Seq<char> {
    if games >= 15 {
        "high"@
    } else if games >= 8 {
        "medium"@
    } else {
        "low"@
    }
}

/// How far the profile can be trusted.
pub fn confidence(games: u32) -> (r: String)
    ensures
        r@ == confidence_spec(games),
{
    if games >= 15 {
        String::from_str("high")
    } else if games >= 8 {
        String::from_str("medium")
    } else {
        String::from_str("low")
    }
}

/// A champion on a profile card.
pub struct ChampionMini {
    pub name: String,
    pub key: String,
    pub games: u32,
    pub wins: u32,
    pub icon_url: String,
}

/// Whether `c` shows champion `(id, games, wins)` by the catalog: its key and
/// name from the catalog (both "Unknown" when missing) and the icon of the key.
pub open spec fn shows_champion(cache: DdragonCache, entry: (i64, u32, u32), c: ChampionMini) -> bool {
    let cat = catalog_view(cache.id_to_key@);
    let (key, name) = if cat.contains_key(entry.0) {
        cat[entry.0]
    } else {
        ("Unknown"@, "Unknown"@)
    };
    &&& c.key@ == key
    &&& c.name@ == name
    &&& c.games == entry.1
    &&& c.wins == entry.2
    &&& c.icon_url@ == "https://ddragon.leagueoflegends.com/cdn/"@ + cache.version@
        + "/img/champion/"@ + key + ".png"@
}

/// The (up to) three most played champions, most played first, named by the catalog.
pub fn top_champions(stats: &PlayerStats, cache: &DdragonCache) -> (r: Vec<ChampionMini>)
    ensures
        exists|idx: Seq<usize>|
            #![trigger is_top_three(stats.champ_games@, idx)]
            is_top_three(stats.champ_games@, idx) && idx.len() == r@.len() && forall|j: int|
                0 <= j < idx.len() ==> shows_champion(
                    *cache,
                    stats.champ_games@[idx[j] as int],
                    #[trigger] r@[j],
                ),
{
    let idx = top_champion_indices(&stats.champ_games);
    let mut out: Vec<ChampionMini> = Vec::new();
    let mut j: usize = 0;
    while j < idx.len()
        invariant
            is_top_three(stats.champ_games@, idx@),
            j <= idx@.len(),
            out@.len() == j,
            forall|k: int|
                0 <= k < j ==> shows_champion(
                    *cache,
                    stats.champ_games@[idx@[k] as int],
                    #[trigger] out@[k],
                ),
        decreases idx@.len() - j,
    {
        let (id, g, w) = stats.champ_games[idx[j]];
        let (key, name) = champion_names(cache, id);
        let icon_url = champion_icon_url(cache.version.as_str(), key.as_str());
        out.push(ChampionMini { name, key, games: g, wins: w, icon_url });
        j = j + 1;
    }
    out
}

/// A player's card in the lobby scan.
pub struct PlayerCard {
    pub riot_id: String,
    pub puuid: String,
    pub opgg_url: String,
    pub ugg_url: String,
    pub deeplol_url: String,
    pub mmradar_url: String,
    pub rank_text: String,
    pub main_role: String,
    pub profile_label: String,
    pub profile_tone: String,
    pub summary: String,
    pub confidence: String,
    /// `(name, shown value)` pairs.
    pub metrics: Vec<(String, String)>,
    pub tags: Vec<String>,
    pub champions: Vec<ChampionMini>,
}

/// The card shown when scanning a player failed.
pub fn error_card(riot_id: String, message: String) -> (r: PlayerCard)
    ensures
        r.riot_id == riot_id,
        r.puuid@ == Seq::<char>::empty(),
        r.opgg_url@ == Seq::<char>::empty(),
        r.ugg_url@ == Seq::<char>::empty(),
        r.deeplol_url@ == Seq::<char>::empty(),
        r.mmradar_url@ == Seq::<char>::empty(),
        r.rank_text@ == "error"@,
        r.main_role@ == "Unknown"@,
        r.profile_label@ == "Błąd"@,
        r.profile_tone@ == "negative"@,
        r.summary == message,
        r.confidence@ == "low"@,
        r.metrics@.len() == 0,
        r.tags@.map_values(|t: String| t@) == seq!["scan error"@],
        r.champions@.len() == 0,
{
    let mut tags: Vec<String> = Vec::new();
    tags.push(String::from_str("scan error"));
    assert(tags@.map_values(|t: String| t@) =~= seq!["scan error"@]);
    PlayerCard {
        riot_id,
        puuid: String::new(),
        opgg_url: String::new(),
        ugg_url: String::new(),
        deeplol_url: String::new(),
        mmradar_url: String::new(),
        rank_text: String::from_str("error"),
        main_role: String::from_str("Unknown"),
        profile_label: String::from_str("Błąd"),
        profile_tone: String::from_str("negative"),
        summary: message,
        confidence: String::from_str("low"),
        metrics: Vec::new(),
        tags,
        champions: Vec::new(),
    }
}


/// The games of the most played champion on a card, if it shows any.
pub open spec fn first_champion_games(champions: Seq<ChampionMini>) -> Option<u32> {
    if champions.len() > 0 {
        Some(champions[0].games)
    } else {
        None
    }
}

/// The card of a scanned player: links by platform and Riot ID, the main
/// role, the verdict, the confidence, the tags and the three most played
/// champions, with the given rank line; the metrics are the given ratio
/// metrics followed by the number of games counted.
pub fn profile_card(
    riot_id: String,
    puuid: String,
    platform: &str,
    rank_text: String,
    stats: &PlayerStats,
    signals: &FormSignals,
    cache: &DdragonCache,
    metrics: Vec<(String, String)>,
) -> (r: PlayerCard)
    ensures
        r.riot_id == riot_id,
        r.puuid == puuid,
        r.opgg_url@ == "https://op.gg/lol/summoners/"@ + opgg_region_spec(platform@) + "/"@
            + site_slug(riot_id@),
        r.ugg_url@ == "https://u.gg/lol/profile/"@ + platform@ + "/"@ + site_slug(riot_id@)
            + "//overview"@,
        r.deeplol_url@ == "https://www.deeplol.gg/summoner/"@ + opgg_region_spec(platform@) + "/"@
            + site_slug(riot_id@),
        r.mmradar_url@ == "https://mmradar.gg/summoner/"@ + site_slug(riot_id@) + "?search=1"@,
        r.rank_text == rank_text,
        is_main_role(roles_view(stats.role_games@), r.main_role@),
        (r.profile_label@, r.profile_tone@, r.summary@) == verdict_spec(
            stats.games,
            stats.low_impact_wins,
            stats.death_heavy,
            *signals,
        ),
        r.confidence@ == confidence_spec(stats.games),
        r.metrics@.len() == metrics@.len() + 1,
        r.metrics@.subrange(0, metrics@.len() as int) == metrics@,
        r.metrics@.last().0@ == "Games"@,
        r.metrics@.last().1@ == decimal_spec(stats.games as nat),
        r.tags@.map_values(|t: String| t@) == tags_spec(
            stats.games,
            stats.low_impact_wins,
            stats.good_losses,
            stats.death_heavy,
            *signals,
            first_champion_games(r.champions@),
        ),
        exists|idx: Seq<usize>|
            #![trigger is_top_three(stats.champ_games@, idx)]
            is_top_three(stats.champ_games@, idx) && idx.len() == r.champions@.len() && forall|j: int|
                0 <= j < idx.len() ==> shows_champion(
                    *cache,
                    stats.champ_games@[idx[j] as int],
                    #[trigger] r.champions@[j],
                ),
{
    let links = profile_links(platform, riot_id.as_str());
    let champions = top_champions(stats, cache);
    let top_games = if champions.len() > 0 {
        Some(champions[0].games)
    } else {
        None
    };
    let tags = profile_tags(stats, signals, top_games);
    let verdict = profile_verdict(stats, signals);
    let mut metrics = metrics;
    let ghost given = metrics@;
    metrics.push((String::from_str("Games"), decimal(stats.games as u64)));
    assert(metrics@.subrange(0, given.len() as int) =~= given);
    PlayerCard {
        riot_id,
        puuid,
        opgg_url: links.opgg_url,
        ugg_url: links.ugg_url,
        deeplol_url: links.deeplol_url,
        mmradar_url: links.mmradar_url,
        rank_text,
        main_role: main_role(stats),
        profile_label: verdict.label,
        profile_tone: verdict.tone,
        summary: verdict.summary,
        confidence: confidence(stats.games),
        metrics,
        tags,
        champions,
    }
}

} // verus!
