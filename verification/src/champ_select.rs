//! Players found in champion select and in the lobby chats of the local
//! client, each named by Riot ID, PUUID or summoner name.

use vstd::prelude::*;
use crate::json::{scalar_bool, scalar_str, JsonRecord};
use crate::riot_id::{join_riot_id, riot_id_spec};
use crate::text::{
    contains, contains_spec, lowercase, str_eq, strip_leading_spec, to_lowercase, trim_start_char,
};

verus! {

/// A player seen in champion select or in a lobby chat.
pub struct RevealPlayer {
    pub riot_id: Option<String>,
    pub game_name: Option<String>,
    pub tag_line: Option<String>,
    pub puuid: Option<String>,
    pub summoner_name: Option<String>,
    pub is_self: bool,
}

/// A player as character sequences.
pub struct RevealView {
    pub riot_id: Option<Seq<char>>,
    pub game_name: Option<Seq<char>>,
    pub tag_line: Option<Seq<char>>,
    pub puuid: Option<Seq<char>>,
    pub summoner_name: Option<Seq<char>>,
    pub is_self: bool,
}

/// The characters of an optional string.
pub open spec fn opt_view(o: Option<String>) -> Option<Seq<char>> {
    match o {
        Some(s) => Some(s@),
        None => None,
    }
}

/// A player as character sequences.
pub open spec fn player_view(p: RevealPlayer) -> RevealView {
    RevealView {
        riot_id: opt_view(p.riot_id),
        game_name: opt_view(p.game_name),
        tag_line: opt_view(p.tag_line),
        puuid: opt_view(p.puuid),
        summoner_name: opt_view(p.summoner_name),
        is_self: p.is_self,
    }
}

/// `a`, or `b` when `a` is absent.
pub open spec fn or_else(a: Option<Seq<char>>, b: Option<Seq<char>>) -> Option<Seq<char>> {
    match a {
        Some(x) => Some(x),
        None => b,
    }
}

/// The string at `key` of a record.
pub open spec fn str_at(v: JsonRecord, key: Seq<char>) -> Option<Seq<char>> {
    scalar_str(v.field(key))
}

/// The player that a participant record describes: the game name from
/// `gameName`, `game_name` or `name`; the tag line from `gameTag`, `tagLine` or
/// `tag_line` without leading `#`; the summoner name from `summonerName` or
/// `summonerInternalName`; the Riot ID `name#tag` when both parts are present
/// and non-empty; `isSelf` when it is a boolean, else false.
pub open spec fn extract_spec(v: JsonRecord) -> RevealView {
    let game_name = or_else(
        str_at(v, "gameName"@),
        or_else(str_at(v, "game_name"@), str_at(v, "name"@)),
    );
    let raw_tag = or_else(
        str_at(v, "gameTag"@),
        or_else(str_at(v, "tagLine"@), str_at(v, "tag_line"@)),
    );
    let tag_line = match raw_tag {
        Some(t) => Some(strip_leading_spec(t, '#')),
        None => None,
    };
    let riot_id = match (game_name, tag_line) {
        (Some(g), Some(t)) => if g.len() > 0 && t.len() > 0 {
            Some(riot_id_spec(g, t))
        } else {
            None
        },
        _ => None,
    };
    RevealView {
        riot_id,
        game_name,
        tag_line,
        puuid: str_at(v, "puuid"@),
        summoner_name: or_else(
            str_at(v, "summonerName"@),
            str_at(v, "summonerInternalName"@),
        ),
        is_self: match scalar_bool(v.field("isSelf"@)) {
            Some(b) => b,
            None => false,
        },
    }
}

fn first_of<'a>(a: Option<&'a str>, b: Option<&'a str>) -> (r: Option<&'a str>)
    ensures
        r == match a {
            Some(x) => Some(x),
            None => b,
        },
{
    match a {
        Some(x) => Some(x),
        None => b,
    }
}

fn owned(o: Option<&str>) -> (r: Option<String>)
    ensures
        opt_view(r) == match o {
            Some(s) => Some(s@),
            None => None::<Seq<char>>,
        },
{
    match o {
        Some(s) => Some(String::from_str(s)),
        None => None,
    }
}

/// The player that a participant record describes.
pub fn extract_riot_id(v: &JsonRecord) -> (r: RevealPlayer)
    ensures
        player_view(r) == extract_spec(*v),
{
    let game_name = owned(first_of(v.get_str("gameName"), first_of(v.get_str("game_name"), v.get_str("name"))));
    let raw_tag = first_of(v.get_str("gameTag"), first_of(v.get_str("tagLine"), v.get_str("tag_line")));
    let tag_line = match raw_tag {
        Some(t) => Some(String::from_str(trim_start_char(t, '#'))),
        None => None,
    };
    let puuid = owned(v.get_str("puuid"));
    let summoner_name = owned(first_of(v.get_str("summonerName"), v.get_str("summonerInternalName")));
    let riot_id = match (&game_name, &tag_line) {
        (Some(g), Some(t)) => {
            if !g.as_str().is_empty() && !t.as_str().is_empty() {
                Some(join_riot_id(g.as_str(), t.as_str()))
            } else {
                None
            }
        },
        _ => None,
    };
    let is_self = match v.get_bool("isSelf") {
        Some(b) => b,
        None => false,
    };
    RevealPlayer { riot_id, game_name, tag_line, puuid, summoner_name, is_self }
}

/// The preferred members of a participant record win: a string `gameName`
/// is the game name, a string `gameTag` (less its leading `#`) the tag line, a
/// string `puuid` the PUUID, a string `summonerName` the summoner name, and
/// with a non-empty game name and tag line the Riot ID is `gameName#tag`. The
/// fallback members count only when the preferred ones are not strings.
pub proof fn law_preferred_members(v: JsonRecord)
    ensures
        forall|g: Seq<char>|
            str_at(v, "gameName"@) == Some(g) ==> #[trigger] extract_spec(v).game_name == Some(g),
        str_at(v, "gameName"@) is None && str_at(v, "game_name"@) is Some ==> extract_spec(
            v,
        ).game_name == str_at(v, "game_name"@),
        str_at(v, "gameName"@) is None && str_at(v, "game_name"@) is None ==> extract_spec(
            v,
        ).game_name == str_at(v, "name"@),
        forall|t: Seq<char>|
            str_at(v, "gameTag"@) == Some(t) ==> #[trigger] extract_spec(v).tag_line == Some(
                strip_leading_spec(t, '#'),
            ),
        forall|g: Seq<char>, t: Seq<char>|
            str_at(v, "gameName"@) == Some(g) && str_at(v, "gameTag"@) == Some(t) && g.len() > 0
                && strip_leading_spec(t, '#').len() > 0 ==> #[trigger] extract_spec(v).riot_id
                == Some(#[trigger] (g + seq!['#'] + strip_leading_spec(t, '#'))),
        extract_spec(v).puuid == str_at(v, "puuid"@),
        forall|n: Seq<char>|
            str_at(v, "summonerName"@) == Some(n) ==> #[trigger] extract_spec(v).summoner_name
                == Some(n),
        extract_spec(v).riot_id is Some ==> extract_spec(v).game_name is Some
            && extract_spec(v).tag_line is Some,
{
}

/// The name by which players are told apart: the Riot ID, else the PUUID,
/// else the summoner name, else nothing.
pub open spec fn key_spec(p: RevealView) -> Seq<char> {
    match p.riot_id {
        Some(r) => r,
        None => match p.puuid {
            Some(x) => x,
            None => match p.summoner_name {
                Some(s) => s,
                None => Seq::<char>::empty(),
            },
        },
    }
}

/// The name by which players are told apart.
pub fn reveal_key(p: &RevealPlayer) -> (r: &str)
    ensures
        r@ == key_spec(player_view(*p)),
{
    match &p.riot_id {
        Some(r) => r.as_str(),
        None => match &p.puuid {
            Some(x) => x.as_str(),
            None => match &p.summoner_name {
                Some(s) => s.as_str(),
                None => {
                    proof {
                        reveal_strlit("");
                    }
                    ""
                },
            },
        },
    }
}

/// The players in order, dropping those without a name and those whose name
/// is in `seen` or was seen before.
pub open spec fn dedup_spec(ps: Seq<RevealView>, seen: Set<Seq<char>>) -> Seq<RevealView>
    decreases ps.len(),
{
    if ps.len() == 0 {
        Seq::empty()
    } else {
        let k = key_spec(ps[0]);
        if k.len() == 0 || seen.contains(k) {
            dedup_spec(ps.drop_first(), seen)
        } else {
            seq![ps[0]] + dedup_spec(ps.drop_first(), seen.insert(k))
        }
    }
}

/// Players as character sequences.
pub open spec fn players_view(ps: Seq<RevealPlayer>) -> Seq<RevealView> {
    ps.map_values(|p: RevealPlayer| player_view(p))
}

fn seen_before(seen: &Vec<String>, k: &str) -> (r: bool)
    ensures
        r == seen@.map_values(|s: String| s@).contains(k@),
{
    let n = seen.len();
    let mut i: usize = 0;
    while i < n
        invariant
            n == seen@.len(),
            i <= n,
            forall|j: int| 0 <= j < i ==> seen@[j]@ != k@,
        decreases n - i,
    {
        if str_eq(seen[i].as_str(), k) {
            assert(seen@.map_values(|s: String| s@)[i as int] == k@);
            return true;
        }
        i = i + 1;
    }
    false
}

/// Keeps the first player of each name and drops the players without one.
pub fn dedup_players(players: Vec<RevealPlayer>) -> (r: Vec<RevealPlayer>)
    ensures
        players_view(r@) == dedup_spec(players_view(players@), Set::empty()),
{
    let ghost all = players_view(players@);
    let mut rest = players;
    let mut out: Vec<RevealPlayer> = Vec::new();
    let mut seen: Vec<String> = Vec::new();
    assert(players_view(out@) =~= Seq::<RevealView>::empty());
    assert(seen@.map_values(|s: String| s@).to_set() =~= Set::<Seq<char>>::empty());
    while rest.len() > 0
        invariant
            dedup_spec(all, Set::empty()) == players_view(out@) + dedup_spec(
                players_view(rest@),
                seen@.map_values(|s: String| s@).to_set(),
            ),
        decreases rest@.len(),
    {
        let ghost before_rest = players_view(rest@);
        let ghost before_out = players_view(out@);
        let ghost before_seen = seen@.map_values(|s: String| s@);
        let p = rest.remove(0);
        assert(players_view(rest@) =~= before_rest.drop_first());
        assert(before_rest[0] == player_view(p));
        let k = reveal_key(&p);
        let known = seen_before(&seen, k);
        proof {
            assert(known == before_seen.to_set().contains(k@));
        }
        if !k.is_empty() && !known {
            let ks = String::from_str(k);
            seen.push(ks);
            assert(seen@.map_values(|s: String| s@) =~= before_seen.push(k@));
            proof {
                before_seen.lemma_push_to_set_commute(k@);
            }
            out.push(p);
            assert(players_view(out@) =~= before_out.push(player_view(p)));
            assert(seq![player_view(p)] + dedup_spec(before_rest.drop_first(), before_seen.to_set().insert(k@))
                == dedup_spec(before_rest, before_seen.to_set()));
            assert(players_view(out@) + dedup_spec(players_view(rest@), seen@.map_values(|s: String| s@).to_set())
                =~= before_out + (seq![player_view(p)] + dedup_spec(before_rest.drop_first(), before_seen.to_set().insert(k@))));
        }
    }
    assert(players_view(rest@) =~= Seq::<RevealView>::empty());
    assert(players_view(out@) + Seq::<RevealView>::empty() =~= players_view(out@));
    out
}

/// The players of champion select (the `myTeam` members of the session) and
/// of the lobby chats, in that order, each name kept once.
pub fn reveal_like_players(team: &Vec<JsonRecord>, chat_participants: &Vec<JsonRecord>) -> (r: Vec<
    RevealPlayer,
>)
    ensures
        players_view(r@) == dedup_spec(
            (team@ + chat_participants@).map_values(|v: JsonRecord| extract_spec(v)),
            Set::empty(),
        ),
{
    let mut out: Vec<RevealPlayer> = Vec::new();
    let ghost src = team@ + chat_participants@;
    let mut i: usize = 0;
    while i < team.len()
        invariant
            i <= team@.len(),
            src == team@ + chat_participants@,
            players_view(out@) =~= src.subrange(0, i as int).map_values(|v: JsonRecord| extract_spec(v)),
        decreases team@.len() - i,
    {
        let p = extract_riot_id(&team[i]);
        let ghost before = out@;
        out.push(p);
        assert(players_view(out@) =~= players_view(before).push(player_view(p)));
        assert(src.subrange(0, i + 1) =~= src.subrange(0, i as int).push(team@[i as int]));
        i = i + 1;
    }
    let mut j: usize = 0;
    while j < chat_participants.len()
        invariant
            j <= chat_participants@.len(),
            src == team@ + chat_participants@,
            players_view(out@) =~= src.subrange(0, team@.len() + j).map_values(|v: JsonRecord| extract_spec(v)),
        decreases chat_participants@.len() - j,
    {
        let p = extract_riot_id(&chat_participants[j]);
        let ghost before = out@;
        out.push(p);
        assert(players_view(out@) =~= players_view(before).push(player_view(p)));
        assert(src.subrange(0, team@.len() + j + 1) =~= src.subrange(0, team@.len() + j).push(
            chat_participants@[j as int],
        ));
        j = j + 1;
    }
    assert(src.subrange(0, src.len() as int) =~= src);
    dedup_players(out)
}

/// Whether a chat belongs to a lobby or champion select, judged by its
/// lower-cased type and name.
pub open spec fn is_draft_chat_spec(lower_type: Seq<char>, lower_name: Seq<char>) -> bool {
    ||| contains_spec(lower_type, "champ"@)
    ||| contains_spec(lower_name, "champ"@)
    ||| contains_spec(lower_name, "select"@)
    ||| contains_spec(lower_name, "lobby"@)
}

/// Whether a chat belongs to a lobby or champion select.
pub fn is_draft_chat(lower_type: &str, lower_name: &str) -> (r: bool)
    ensures
        r == is_draft_chat_spec(lower_type@, lower_name@),
{
    contains(lower_type, "champ") || contains(lower_name, "champ") || contains(lower_name, "select")
        || contains(lower_name, "lobby")
}

/// The string at `key`, or the empty string.
pub open spec fn str_or_empty(v: JsonRecord, key: Seq<char>) -> Seq<char> {
    match str_at(v, key) {
        Some(s) => s,
        None => Seq::<char>::empty(),
    }
}

/// The client endpoint listing the participants of a conversation, when the
/// conversation has an id and is a lobby or champion select chat.
pub open spec fn draft_chat_endpoint_spec(conv: JsonRecord) -> Option<Seq<char>> {
    let id = str_or_empty(conv, "id"@);
    if id.len() == 0 {
        None
    } else if is_draft_chat_spec(
        lowercase(str_or_empty(conv, "type"@)),
        lowercase(str_or_empty(conv, "name"@)),
    ) {
        Some("/lol-chat/v1/conversations/"@ + id + "/participants"@)
    } else {
        None
    }
}

fn get_or_empty<'a>(v: &'a JsonRecord, key: &str) -> (r: &'a str)
    ensures
        r@ == str_or_empty(*v, key@),
{
    match v.get_str(key) {
        Some(s) => s,
        None => {
            proof {
                reveal_strlit("");
            }
            ""
        },
    }
}

/// The endpoint listing the participants of a lobby or champion select chat.
pub fn draft_chat_endpoint(conv: &JsonRecord) -> (r: Option<String>)
    ensures
        opt_view(r) == draft_chat_endpoint_spec(*conv),
{
    let id = get_or_empty(conv, "id");
    let typ = to_lowercase(get_or_empty(conv, "type"));
    let name = to_lowercase(get_or_empty(conv, "name"));
    if id.is_empty() {
        return None;
    }
    if is_draft_chat(typ.as_str(), name.as_str()) {
        let mut e = String::from_str("/lol-chat/v1/conversations/");
        e.append(id);
        e.append("/participants");
        Some(e)
    } else {
        None
    }
}


proof fn lemma_dedup(ps: Seq<RevealView>, seen: Set<Seq<char>>)
    ensures
        forall|j: int|
            0 <= j < dedup_spec(ps, seen).len() ==> key_spec(#[trigger] dedup_spec(ps, seen)[j]).len()
                > 0 && !seen.contains(key_spec(dedup_spec(ps, seen)[j])) && ps.contains(
                dedup_spec(ps, seen)[j],
            ),
        forall|i: int, j: int|
            0 <= i < j < dedup_spec(ps, seen).len() ==> key_spec(#[trigger] dedup_spec(ps, seen)[i])
                != key_spec(#[trigger] dedup_spec(ps, seen)[j]),
        forall|i: int|
            0 <= i < ps.len() && key_spec(#[trigger] ps[i]).len() > 0 && !seen.contains(
                key_spec(ps[i]),
            ) ==> exists|j: int|
                0 <= j < dedup_spec(ps, seen).len() && key_spec(
                    #[trigger] dedup_spec(ps, seen)[j],
                ) == key_spec(ps[i]),
    decreases ps.len(),
{
    if ps.len() > 0 {
        let k = key_spec(ps[0]);
        let tail = ps.drop_first();
        let out = dedup_spec(ps, seen);
        assert forall|i: int| 0 <= i < tail.len() implies #[trigger] tail[i] == ps[i + 1] by {}
        if k.len() == 0 || seen.contains(k) {
            lemma_dedup(tail, seen);
            assert(out == dedup_spec(tail, seen));
            assert forall|j: int| 0 <= j < out.len() implies ps.contains(#[trigger] out[j]) by {
                let i = choose|i: int| 0 <= i < tail.len() && tail[i] == out[j];
                assert(ps[i + 1] == out[j]);
            }
            assert forall|i: int|
                0 <= i < ps.len() && key_spec(#[trigger] ps[i]).len() > 0 && !seen.contains(
                    key_spec(ps[i]),
                ) implies exists|j: int| 0 <= j < out.len() && key_spec(#[trigger] out[j]) == key_spec(ps[i]) by {
                assert(i > 0);
                assert(tail[i - 1] == ps[i]);
            }
        } else {
            let seen2 = seen.insert(k);
            let rest = dedup_spec(tail, seen2);
            lemma_dedup(tail, seen2);
            assert(out == seq![ps[0]] + rest);
            assert forall|j: int| 1 <= j < out.len() implies #[trigger] out[j] == rest[j - 1] by {}
            assert forall|j: int|
                0 <= j < out.len() implies key_spec(#[trigger] out[j]).len() > 0 && !seen.contains(
                    key_spec(out[j]),
                ) && ps.contains(out[j]) by {
                if j == 0 {
                    assert(ps[0] == out[0]);
                } else {
                    assert(out[j] == rest[j - 1]);
                    let i = choose|i: int| 0 <= i < tail.len() && tail[i] == rest[j - 1];
                    assert(ps[i + 1] == out[j]);
                }
            }
            assert forall|i: int, j: int|
                0 <= i < j < out.len() implies key_spec(#[trigger] out[i]) != key_spec(#[trigger] out[j]) by {
                assert(out[j] == rest[j - 1]);
                if i == 0 {
                    assert(!seen2.contains(key_spec(rest[j - 1])));
                } else {
                    assert(out[i] == rest[i - 1]);
                }
            }
            assert forall|i: int|
                0 <= i < ps.len() && key_spec(#[trigger] ps[i]).len() > 0 && !seen.contains(
                    key_spec(ps[i]),
                ) implies exists|j: int| 0 <= j < out.len() && key_spec(#[trigger] out[j]) == key_spec(ps[i]) by {
                if i == 0 || key_spec(ps[i]) == k {
                    assert(out[0] == ps[0]);
                } else {
                    assert(tail[i - 1] == ps[i]);
                    let j = choose|j: int| 0 <= j < rest.len() && key_spec(#[trigger] rest[j]) == key_spec(tail[i - 1]);
                    assert(out[j + 1] == rest[j]);
                }
            }
        }
    }
}

/// Each player found in champion select or the lobby chats is listed once:
/// every listed player has a name, no two share one, every listed player was
/// found, and every found player with a name is listed under that name.
pub proof fn law_each_player_listed_once(found: Seq<RevealView>)
    ensures
        forall|j: int|
            0 <= j < dedup_spec(found, Set::empty()).len() ==> key_spec(
                #[trigger] dedup_spec(found, Set::empty())[j],
            ).len() > 0 && found.contains(dedup_spec(found, Set::empty())[j]),
        forall|i: int, j: int|
            0 <= i < j < dedup_spec(found, Set::empty()).len() ==> key_spec(
                #[trigger] dedup_spec(found, Set::empty())[i],
            ) != key_spec(#[trigger] dedup_spec(found, Set::empty())[j]),
        forall|i: int|
            0 <= i < found.len() && key_spec(#[trigger] found[i]).len() > 0 ==> exists|j: int|
                0 <= j < dedup_spec(found, Set::empty()).len() && key_spec(
                    #[trigger] dedup_spec(found, Set::empty())[j],
                ) == key_spec(found[i]),
{
    lemma_dedup(found, Set::empty());
}

} // verus!
