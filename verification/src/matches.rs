//! Reading a player's account, rank and matches out of Riot API answers.

use vstd::prelude::*;
use crate::champ_select::str_at;
use crate::json::{scalar_bool, scalar_i64, scalar_str, scalar_u64, JsonRecord, JsonScalar};
use crate::riot_id::{join_riot_id, riot_id_spec};
use crate::stats::MatchRecord;
use crate::text::{signed_decimal, signed_decimal_spec, str_eq};

verus! {

/// How many recent matches to look at: 30 on a forced refresh, else 12.
pub fn match_count(force_refresh: bool) -> (r: u32)
    ensures
        r == if force_refresh {
            30u32
        } else {
            12u32
        },
{
    if force_refresh {
        30
    } else {
        12
    }
}

/// PUUID and cleaned Riot ID from an account answer: the Riot ID takes the
/// account's `gameName` and `tagLine` where present, else the ones asked for.
pub open spec fn account_identity_spec(account: JsonRecord, game_name: Seq<char>, tag_line: Seq<char>) -> Result<
    (Seq<char>, Seq<char>),
    Seq<char>,
> {
    match str_at(account, "puuid"@) {
        Some(p) => Ok(
            (
                p,
                riot_id_spec(
                    match str_at(account, "gameName"@) {
                        Some(g) => g,
                        None => game_name,
                    },
                    match str_at(account, "tagLine"@) {
                        Some(t) => t,
                        None => tag_line,
                    },
                ),
            ),
        ),
        None => Err("Brak PUUID"@),
    }
}

/// PUUID and cleaned Riot ID from an account answer.
pub fn account_identity(account: &JsonRecord, game_name: &str, tag_line: &str) -> (r: Result<
    (String, String),
    String,
>)
    ensures
        match r {
            Ok((p, id)) => account_identity_spec(*account, game_name@, tag_line@) == Ok::<
                (Seq<char>, Seq<char>),
                Seq<char>,
            >((p@, id@)),
            Err(e) => account_identity_spec(*account, game_name@, tag_line@) == Err::<
                (Seq<char>, Seq<char>),
                Seq<char>,
            >(e@),
        },
{
    let puuid = match account.get_str("puuid") {
        Some(p) => String::from_str(p),
        None => {
            return Err(String::from_str("Brak PUUID"));
        },
    };
    let g = match account.get_str("gameName") {
        Some(g) => g,
        None => game_name,
    };
    let t = match account.get_str("tagLine") {
        Some(t) => t,
        None => tag_line,
    };
    Ok((puuid, join_riot_id(g, t)))
}

/// The encrypted summoner id (`id`), or the empty string when the summoner
/// answer is missing or has none.
pub fn encrypted_summoner_id(summoner: Option<&JsonRecord>) -> (r: String)
    ensures
        r@ == match summoner {
            Some(s) => match str_at(*s, "id"@) {
                Some(i) => i,
                None => Seq::<char>::empty(),
            },
            None => Seq::<char>::empty(),
        },
{
    match summoner {
        Some(s) => match s.get_str("id") {
            Some(i) => String::from_str(i),
            None => String::new(),
        },
        None => String::new(),
    }
}

/// A ranked solo-queue league entry.
pub struct RankedEntry {
    pub tier: String,
    pub rank: String,
    pub league_points: i64,
    pub wins: i64,
    pub losses: i64,
}

/// The string at `key`, or the empty string.
pub open spec fn str_or_empty_at(v: JsonRecord, key: Seq<char>) -> Seq<char> {
    match str_at(v, key) {
        Some(s) => s,
        None => Seq::<char>::empty(),
    }
}

/// The integer at `key` as an `i64`, or 0.
pub open spec fn i64_or_zero(v: JsonRecord, key: Seq<char>) -> i64 {
    match scalar_i64(v.field(key)) {
        Some(x) => x,
        None => 0,
    }
}

/// The integer at `key` as a `u64`, or 0.
pub open spec fn u64_or_zero(v: JsonRecord, key: Seq<char>) -> u64 {
    match scalar_u64(v.field(key)) {
        Some(x) => x,
        None => 0,
    }
}

/// Whether a league entry is the ranked solo queue.
pub open spec fn is_solo_queue(v: JsonRecord) -> bool {
    str_at(v, "queueType"@) == Some("RANKED_SOLO_5x5"@)
}

fn str_or_empty<'a>(v: &'a JsonRecord, key: &str) -> (r: String)
    ensures
        r@ == str_or_empty_at(*v, key@),
{
    match v.get_str(key) {
        Some(s) => String::from_str(s),
        None => String::new(),
    }
}

fn i64_or_zero_at(v: &JsonRecord, key: &str) -> (r: i64)
    ensures
        r == i64_or_zero(*v, key@),
{
    match v.get_i64(key) {
        Some(x) => x,
        None => 0,
    }
}

fn u64_or_zero_at(v: &JsonRecord, key: &str) -> (r: u64)
    ensures
        r == u64_or_zero(*v, key@),
{
    match v.get_u64(key) {
        Some(x) => x,
        None => 0,
    }
}

/// The first ranked solo-queue entry among a summoner's league entries.
pub fn solo_queue_entry(entries: &Vec<JsonRecord>) -> (r: Option<RankedEntry>)
    ensures
        match r {
            Some(e) => exists|i: int|
                0 <= i < entries@.len() && is_solo_queue(entries@[i]) && (forall|k: int|
                    0 <= k < i ==> !is_solo_queue(#[trigger] entries@[k])) && e.tier@
                    == str_or_empty_at(entries@[i], "tier"@) && e.rank@ == str_or_empty_at(
                    entries@[i],
                    "rank"@,
                ) && e.league_points == i64_or_zero(entries@[i], "leaguePoints"@) && e.wins
                    == i64_or_zero(entries@[i], "wins"@) && e.losses == i64_or_zero(
                    entries@[i],
                    "losses"@,
                ),
            None => forall|k: int| 0 <= k < entries@.len() ==> !is_solo_queue(#[trigger] entries@[k]),
        },
{
    let n = entries.len();
    let mut i: usize = 0;
    while i < n
        invariant
            n == entries@.len(),
            i <= n,
            forall|k: int| 0 <= k < i ==> !is_solo_queue(#[trigger] entries@[k]),
        decreases n - i,
    {
        let e = &entries[i];
        let is_solo = match e.get_str("queueType") {
            Some(q) => str_eq(q, "RANKED_SOLO_5x5"),
            None => false,
        };
        if is_solo {
            return Some(
                RankedEntry {
                    tier: str_or_empty(e, "tier"),
                    rank: str_or_empty(e, "rank"),
                    league_points: i64_or_zero_at(e, "leaguePoints"),
                    wins: i64_or_zero_at(e, "wins"),
                    losses: i64_or_zero_at(e, "losses"),
                },
            );
        }
        i = i + 1;
    }
    None
}

/// The rank line of a card: "Unranked" without a solo-queue entry, else
/// tier, division, league points and the given rounded win rate.
pub open spec fn rank_text_spec(solo: Option<RankedEntry>, win_rate: Seq<char>) -> Seq<char> {
    match solo {
        Some(e) => e.tier@ + " "@ + e.rank@ + " · "@ + signed_decimal_spec(e.league_points as int)
            + " LP · "@ + win_rate + "% WR"@,
        None => "Unranked"@,
    }
}

/// The rank line of a card; `win_rate` is the win rate in percent as shown.
pub fn rank_text(solo: Option<&RankedEntry>, win_rate: &str) -> (r: String)
    ensures
        r@ == rank_text_spec(
            match solo {
                Some(e) => Some(*e),
                None => None,
            },
            win_rate@,
        ),
{
    match solo {
        Some(e) => {
            let mut r = e.tier.clone();
            r.append(" ");
            r.append(e.rank.as_str());
            r.append(" · ");
            r.append(signed_decimal(e.league_points).as_str());
            r.append(" LP · ");
            r.append(win_rate);
            r.append("% WR");
            r
        },
        None => String::from_str("Unranked"),
    }
}

/// The match ids among the items of the match-id list: the strings, in order.
pub open spec fn match_ids_spec(items: Seq<JsonScalar>) -> Seq<Seq<char>>
    decreases items.len(),
{
    if items.len() == 0 {
        Seq::empty()
    } else {
        let prev = match_ids_spec(items.drop_last());
        match scalar_str(Some(items.last())) {
            Some(s) => prev.push(s),
            None => prev,
        }
    }
}

/// The match ids among the items of the match-id list.
pub fn match_ids(items: &Vec<JsonScalar>) -> (r: Vec<String>)
    ensures
        r@.map_values(|s: String| s@) == match_ids_spec(items@),
{
    let mut out: Vec<String> = Vec::new();
    let n = items.len();
    let mut i: usize = 0;
    assert(items@.subrange(0, 0) =~= Seq::<JsonScalar>::empty());
    while i < n
        invariant
            n == items@.len(),
            i <= n,
            out@.map_values(|s: String| s@) == match_ids_spec(items@.subrange(0, i as int)),
        decreases n - i,
    {
        let ghost prefix = items@.subrange(0, (i + 1) as int);
        assert(prefix.drop_last() =~= items@.subrange(0, i as int));
        match &items[i] {
            JsonScalar::Str(s) => {
                let ghost before = out@;
                out.push(s.clone());
                assert(out@.map_values(|s: String| s@) =~= before.map_values(|s: String| s@).push(
                    s@,
                ));
            },
            _ => {},
        }
        i = i + 1;
    }
    assert(items@.subrange(0, n as int) =~= items@);
    out
}

/// The team of a participant (`teamId`, 0 when missing).
pub open spec fn team_of(p: JsonRecord) -> i64 {
    i64_or_zero(p, "teamId"@)
}

/// What participant `p` adds to its team's total of `key`.
pub open spec fn team_share(p: JsonRecord, team: i64, key: Seq<char>) -> int {
    if team_of(p) == team {
        i64_or_zero(p, key) as int
    } else {
        0
    }
}

/// The total of `key` over the participants of `team`.
pub open spec fn team_sum(ps: Seq<JsonRecord>, team: i64, key: Seq<char>) -> int
    decreases ps.len(),
{
    if ps.len() == 0 {
        0
    } else {
        team_sum(ps.drop_last(), team, key) + team_share(ps.last(), team, key)
    }
}

/// Whether every running total of `key` over the team's participants fits
/// an `i64`, as summing them in order requires.
pub open spec fn team_sum_fits(ps: Seq<JsonRecord>, team: i64, key: Seq<char>) -> bool {
    forall|k: int|
        0 <= k <= ps.len() ==> i64::MIN <= #[trigger] team_sum(ps.subrange(0, k), team, key)
            <= i64::MAX
}

/// The total of `key` over the participants of `team`, or `None` when a
/// running total leaves the `i64` range.
pub fn team_total(ps: &Vec<JsonRecord>, team: i64, key: &str) -> (r: Option<i64>)
    ensures
        match r {
            Some(v) => team_sum_fits(ps@, team, key@) && v == team_sum(ps@, team, key@),
            None => !team_sum_fits(ps@, team, key@),
        },
{
    let n = ps.len();
    let mut acc: i64 = 0;
    let mut i: usize = 0;
    assert(ps@.subrange(0, 0) =~= Seq::<JsonRecord>::empty());
    while i < n
        invariant
            n == ps@.len(),
            i <= n,
            acc == team_sum(ps@.subrange(0, i as int), team, key@),
            forall|k: int|
                0 <= k <= i ==> i64::MIN <= #[trigger] team_sum(ps@.subrange(0, k), team, key@)
                    <= i64::MAX,
        decreases n - i,
    {
        let ghost prefix = ps@.subrange(0, (i + 1) as int);
        assert(prefix.drop_last() =~= ps@.subrange(0, i as int));
        assert(prefix.last() == ps@[i as int]);
        let p = &ps[i];
        let t = i64_or_zero_at(p, "teamId");
        if t == team {
            let x = i64_or_zero_at(p, key);
            match acc.checked_add(x) {
                Some(s) => {
                    acc = s;
                },
                None => {
                    assert(!(i64::MIN <= team_sum(ps@.subrange(0, (i + 1) as int), team, key@)
                        <= i64::MAX));
                    return None;
                },
            }
        }
        i = i + 1;
    }
    assert(ps@.subrange(0, n as int) =~= ps@);
    Some(acc)
}

/// Whether participant `p` is the player with `puuid`.
pub open spec fn is_player(p: JsonRecord, puuid: Seq<char>) -> bool {
    str_at(p, "puuid"@) == Some(puuid)
}

/// The first participant that is the player with `puuid`.
pub fn find_participant(ps: &Vec<JsonRecord>, puuid: &str) -> (r: Option<usize>)
    ensures
        match r {
            Some(i) => i < ps@.len() && is_player(ps@[i as int], puuid@) && forall|k: int|
                0 <= k < i ==> !is_player(#[trigger] ps@[k], puuid@),
            None => forall|k: int| 0 <= k < ps@.len() ==> !is_player(#[trigger] ps@[k], puuid@),
        },
{
    let n = ps.len();
    let mut i: usize = 0;
    while i < n
        invariant
            n == ps@.len(),
            i <= n,
            forall|k: int| 0 <= k < i ==> !is_player(#[trigger] ps@[k], puuid@),
        decreases n - i,
    {
        let found = match ps[i].get_str("puuid") {
            Some(p) => str_eq(p, puuid),
            None => false,
        };
        if found {
            return Some(i);
        }
        i = i + 1;
    }
    None
}

/// What the player's participant record contributes to the tallies: kills,
/// deaths and assists (non-negative integers, else 0, cut to 32 bits), the
/// win flag (false when missing), the champion id and the position
/// ("UNKNOWN" when missing).
pub open spec fn match_record_spec(me: JsonRecord, r: MatchRecord) -> bool {
    &&& r.kills == u64_or_zero(me, "kills"@) as u32
    &&& r.deaths == u64_or_zero(me, "deaths"@) as u32
    &&& r.assists == u64_or_zero(me, "assists"@) as u32
    &&& r.win == match scalar_bool(me.field("win"@)) {
        Some(b) => b,
        None => false,
    }
    &&& r.champion_id == i64_or_zero(me, "championId"@)
    &&& r.position@ == match str_at(me, "teamPosition"@) {
        Some(p) => p,
        None => "UNKNOWN"@,
    }
}

/// What the player's participant record contributes to the tallies.
pub fn match_record(me: &JsonRecord) -> (r: MatchRecord)
    ensures
        match_record_spec(*me, r),
{
    let kills = u64_or_zero_at(me, "kills") as u32;
    let deaths = u64_or_zero_at(me, "deaths") as u32;
    let assists = u64_or_zero_at(me, "assists") as u32;
    let win = match me.get_bool("win") {
        Some(b) => b,
        None => false,
    };
    let position = match me.get_str("teamPosition") {
        Some(p) => String::from_str(p),
        None => String::from_str("UNKNOWN"),
    };
    MatchRecord {
        kills,
        deaths,
        assists,
        win,
        champion_id: i64_or_zero_at(me, "championId"),
        position,
    }
}

/// What one match gives for the player.
pub enum MatchScan {
    /// The player is not among the participants: the match is skipped.
    Absent,
    /// A team total leaves the `i64` range.
    Overflow,
    /// The player's participant index, the team's kills and damage to
    /// champions, and the player's record.
    Counted { me: usize, team_kills: i64, team_damage: i64, record: MatchRecord },
}

/// Finds the player among a match's participants and reads what the match
/// contributes.
pub fn scan_match(ps: &Vec<JsonRecord>, puuid: &str) -> (r: MatchScan)
    ensures
        match r {
            MatchScan::Absent => forall|k: int|
                0 <= k < ps@.len() ==> !is_player(#[trigger] ps@[k], puuid@),
            MatchScan::Overflow => exists|i: int|
                0 <= i < ps@.len() && is_player(ps@[i], puuid@) && (forall|k: int|
                    0 <= k < i ==> !is_player(#[trigger] ps@[k], puuid@)) && (!team_sum_fits(
                    ps@,
                    team_of(ps@[i]),
                    "kills"@,
                ) || !team_sum_fits(ps@, team_of(ps@[i]), "totalDamageDealtToChampions"@)),
            MatchScan::Counted { me, team_kills, team_damage, record } => {
                &&& me < ps@.len()
                &&& is_player(ps@[me as int], puuid@)
                &&& forall|k: int| 0 <= k < me ==> !is_player(#[trigger] ps@[k], puuid@)
                &&& team_sum_fits(ps@, team_of(ps@[me as int]), "kills"@)
                &&& team_kills == team_sum(ps@, team_of(ps@[me as int]), "kills"@)
                &&& team_sum_fits(ps@, team_of(ps@[me as int]), "totalDamageDealtToChampions"@)
                &&& team_damage == team_sum(
                    ps@,
                    team_of(ps@[me as int]),
                    "totalDamageDealtToChampions"@,
                )
                &&& match_record_spec(ps@[me as int], record)
            },
        },
{
    let me = match find_participant(ps, puuid) {
        Some(i) => i,
        None => {
            return MatchScan::Absent;
        },
    };
    let team = i64_or_zero_at(&ps[me], "teamId");
    let team_kills = match team_total(ps, team, "kills") {
        Some(v) => v,
        None => {
            return MatchScan::Overflow;
        },
    };
    let team_damage = match team_total(ps, team, "totalDamageDealtToChampions") {
        Some(v) => v,
        None => {
            return MatchScan::Overflow;
        },
    };
    let record = match_record(&ps[me]);
    MatchScan::Counted { me, team_kills, team_damage, record }
}

} // verus!
