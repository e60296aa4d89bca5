//! The verdict on a whole lobby from its players' cards.

use vstd::prelude::*;
use crate::profile::PlayerCard;
use crate::text::{eq_ignore_ascii_case, eq_ignore_ascii_case_spec, str_eq, trim, trim_spec};

verus! {

/// A scan needs a Riot API key that is not blank.
pub fn check_api_key(api_key: &str) -> (r: Result<(), String>)
    ensures
        match r {
            Ok(()) => trim_spec(api_key@).len() > 0,
            Err(e) => trim_spec(api_key@).len() == 0 && e@ == "Brak Riot API key"@,
        },
{
    if trim(api_key).is_empty() {
        Err(String::from_str("Brak Riot API key"))
    } else {
        Ok(())
    }
}

/// The Riot IDs to scan: the first five.
pub fn scan_targets(riot_ids: &Vec<String>) -> (r: Vec<String>)
    ensures
        r@ == riot_ids@.take(if riot_ids@.len() < 5 {
            riot_ids@.len() as int
        } else {
            5
        }),
{
    let n: usize = if riot_ids.len() < 5 {
        riot_ids.len()
    } else {
        5
    };
    let mut out: Vec<String> = Vec::new();
    let mut i: usize = 0;
    while i < n
        invariant
            n <= riot_ids@.len(),
            i <= n,
            out@ == riot_ids@.take(i as int),
        decreases n - i,
    {
        out.push(riot_ids[i].clone());
        assert(riot_ids@.take(i + 1) =~= riot_ids@.take(i as int).push(riot_ids@[i as int]));
        i = i + 1;
    }
    out
}

/// Whether a card is the user's own profile that is to be hidden: hiding is
/// on, the user's Riot ID is set and equals the card's up to ASCII case.
pub open spec fn is_hidden(card: PlayerCard, my_riot_id: Seq<char>, hide_own_profile: bool) -> bool {
    hide_own_profile && my_riot_id.len() > 0 && eq_ignore_ascii_case_spec(card.riot_id@, my_riot_id)
}

/// The number of shown cards with the given tone.
pub open spec fn tone_count(cards: Seq<PlayerCard>, my_riot_id: Seq<char>, hide_own_profile: bool, tone: Seq<char>) -> nat
    decreases cards.len(),
{
    if cards.len() == 0 {
        0
    } else {
        tone_count(cards.drop_last(), my_riot_id, hide_own_profile, tone) + if !is_hidden(
            cards.last(),
            my_riot_id,
            hide_own_profile,
        ) && cards.last().profile_tone@ == tone {
            1nat
        } else {
            0nat
        }
    }
}

/// The number of shown cards with the given tone.
pub fn count_tone(cards: &Vec<PlayerCard>, my_riot_id: &str, hide_own_profile: bool, tone: &str) -> (r:
    usize)
    ensures
        r == tone_count(cards@, my_riot_id@, hide_own_profile, tone@),
{
    let n = cards.len();
    let mut count: usize = 0;
    let mut i: usize = 0;
    assert(cards@.subrange(0, 0) =~= Seq::<PlayerCard>::empty());
    while i < n
        invariant
            n == cards@.len(),
            i <= n,
            count <= i,
            count == tone_count(cards@.subrange(0, i as int), my_riot_id@, hide_own_profile, tone@),
        decreases n - i,
    {
        let ghost prefix = cards@.subrange(0, (i + 1) as int);
        assert(prefix.drop_last() =~= cards@.subrange(0, i as int));
        assert(prefix.last() == cards@[i as int]);
        let c = &cards[i];
        let hidden = hide_own_profile && !my_riot_id.is_empty() && eq_ignore_ascii_case(
            c.riot_id.as_str(),
            my_riot_id,
        );
        if !hidden && str_eq(c.profile_tone.as_str(), tone) {
            count = count + 1;
        }
        i = i + 1;
    }
    assert(cards@.subrange(0, n as int) =~= cards@);
    count
}

/// The lobby's status, advice, pressure and summary.
pub struct TeamVerdict {
    pub team_status: String,
    pub team_summary: String,
    pub dodge_label: String,
    pub eomm_pressure: String,
}

/// The lobby status from the numbers of risky and positive shown cards.
pub open spec fn team_status_spec(risky: nat, positive: nat) -> Seq<char> {
    if risky >= 2 {
        "Ryzykowne lobby"@
    } else if positive >= 2 && risky == 0 {
        "Winnable lobby"@
    } else {
        "Playable lobby"@
    }
}

/// Whether to consider dodging, from the number of risky shown cards.
pub open spec fn dodge_label_spec(risky: nat) -> Seq<char> {
    if risky >= 2 {
        "Dodge consider"@
    } else if risky == 1 {
        "Uważaj"@
    } else {
        "Grywalne"@
    }
}

/// The matchmaking pressure, from the number of risky shown cards.
pub open spec fn eomm_pressure_spec(risky: nat) -> Seq<char> {
    if risky >= 2 {
        "high-pressure pattern"@
    } else if risky == 1 {
        "medium"@
    } else {
        "low"@
    }
}

/// The lobby summary from the numbers of risky and positive shown cards.
pub open spec fn team_summary_spec(risky: nat, positive: nat) -> Seq<char> {
    if risky >= 2 {
        "Kilka profili ma słabszą recent formę albo wysokie ryzyko. To nie dowód na losers queue, ale lobby wygląda presyjnie."@
    } else if positive >= 2 {
        "Team wygląda solidnie: kilka profili ma dobrą recent formę i sensowne role/champion comfort."@
    } else {
        "Lobby wygląda neutralnie. Brak dużych czerwonych flag, ale też brak mocnego carry patternu."@
    }
}

/// The verdict on the lobby from the shown cards: risky cards are those of
/// negative tone, positive ones those of positive tone.
pub fn team_verdict(cards: &Vec<PlayerCard>, my_riot_id: &str, hide_own_profile: bool) -> (r:
    TeamVerdict)
    ensures
        ({
            let risky = tone_count(cards@, my_riot_id@, hide_own_profile, "negative"@);
            let positive = tone_count(cards@, my_riot_id@, hide_own_profile, "positive"@);
            &&& r.team_status@ == team_status_spec(risky, positive)
            &&& r.dodge_label@ == dodge_label_spec(risky)
            &&& r.eomm_pressure@ == eomm_pressure_spec(risky)
            &&& r.team_summary@ == team_summary_spec(risky, positive)
        }),
{
    let risky = count_tone(cards, my_riot_id, hide_own_profile, "negative");
    let positive = count_tone(cards, my_riot_id, hide_own_profile, "positive");
    let team_status = if risky >= 2 {
        "Ryzykowne lobby"
    } else if positive >= 2 && risky == 0 {
        "Winnable lobby"
    } else {
        "Playable lobby"
    };
    let dodge_label = if risky >= 2 {
        "Dodge consider"
    } else if risky == 1 {
        "Uważaj"
    } else {
        "Grywalne"
    };
    let eomm_pressure = if risky >= 2 {
        "high-pressure pattern"
    } else if risky == 1 {
        "medium"
    } else {
        "low"
    };
    let team_summary = if risky >= 2 {
        "Kilka profili ma słabszą recent formę albo wysokie ryzyko. To nie dowód na losers queue, ale lobby wygląda presyjnie."
    } else if positive >= 2 {
        "Team wygląda solidnie: kilka profili ma dobrą recent formę i sensowne role/champion comfort."
    } else {
        "Lobby wygląda neutralnie. Brak dużych czerwonych flag, ale też brak mocnego carry patternu."
    };
    TeamVerdict {
        team_status: String::from_str(team_status),
        team_summary: String::from_str(team_summary),
        dodge_label: String::from_str(dodge_label),
        eomm_pressure: String::from_str(eomm_pressure),
    }
}

/// The answer to a lobby scan: when it was made, the lobby verdict and all
/// the cards (the user's own included, whether or not it counts).
pub struct ScanResponse {
    pub generated_at: String,
    pub team_status: String,
    pub team_summary: String,
    pub dodge_label: String,
    pub eomm_pressure: String,
    pub players: Vec<PlayerCard>,
}

/// The answer to a lobby scan.
pub fn scan_response(generated_at: String, cards: Vec<PlayerCard>, my_riot_id: &str, hide_own_profile: bool) -> (r:
    ScanResponse)
    ensures
        r.generated_at == generated_at,
        r.players == cards,
        ({
            let risky = tone_count(cards@, my_riot_id@, hide_own_profile, "negative"@);
            let positive = tone_count(cards@, my_riot_id@, hide_own_profile, "positive"@);
            &&& r.team_status@ == team_status_spec(risky, positive)
            &&& r.dodge_label@ == dodge_label_spec(risky)
            &&& r.eomm_pressure@ == eomm_pressure_spec(risky)
            &&& r.team_summary@ == team_summary_spec(risky, positive)
        }),
{
    let v = team_verdict(&cards, my_riot_id, hide_own_profile);
    ScanResponse {
        generated_at,
        team_status: v.team_status,
        team_summary: v.team_summary,
        dodge_label: v.dodge_label,
        eomm_pressure: v.eomm_pressure,
        players: cards,
    }
}

/// A lobby is called winnable only when no shown player is risky and at least
/// two are positive; it is called risky, and a dodge is advised, exactly when
/// two or more shown players are risky; it is called playable without a
/// warning exactly when none is.
pub proof fn law_lobby_status(risky: nat, positive: nat)
    ensures
        team_status_spec(risky, positive) == "Winnable lobby"@ ==> risky == 0 && positive >= 2,
        (team_status_spec(risky, positive) == "Ryzykowne lobby"@) == (risky >= 2),
        (dodge_label_spec(risky) == "Dodge consider"@) == (risky >= 2),
        (dodge_label_spec(risky) == "Grywalne"@) == (risky == 0),
{
    reveal_strlit("Winnable lobby");
    reveal_strlit("Ryzykowne lobby");
    reveal_strlit("Playable lobby");
    reveal_strlit("Dodge consider");
    reveal_strlit("Uważaj");
    reveal_strlit("Grywalne");
    assert("Winnable lobby"@[0] != "Ryzykowne lobby"@[0]);
    assert("Winnable lobby"@[0] != "Playable lobby"@[0]);
    assert("Ryzykowne lobby"@[0] != "Playable lobby"@[0]);
    assert("Dodge consider"@[0] != "Uważaj"@[0]);
    assert("Dodge consider"@[0] != "Grywalne"@[0]);
    assert("Grywalne"@[0] != "Uważaj"@[0]);
}

/// The lobby summary speaks of pressure exactly when two or more shown cards
/// are risky, whatever the number of positive ones; it calls the team solid
/// exactly when fewer than two are risky and two or more are positive; and it
/// is neutral otherwise.
pub proof fn law_team_summary(risky: nat, positive: nat)
    ensures
        (team_summary_spec(risky, positive)
            == "Kilka profili ma słabszą recent formę albo wysokie ryzyko. To nie dowód na losers queue, ale lobby wygląda presyjnie."@)
            == (risky >= 2),
        (team_summary_spec(risky, positive)
            == "Team wygląda solidnie: kilka profili ma dobrą recent formę i sensowne role/champion comfort."@)
            == (risky < 2 && positive >= 2),
        (team_summary_spec(risky, positive)
            == "Lobby wygląda neutralnie. Brak dużych czerwonych flag, ale też brak mocnego carry patternu."@)
            == (risky < 2 && positive < 2),
{
    reveal_strlit("Kilka profili ma słabszą recent formę albo wysokie ryzyko. To nie dowód na losers queue, ale lobby wygląda presyjnie.");
    reveal_strlit("Team wygląda solidnie: kilka profili ma dobrą recent formę i sensowne role/champion comfort.");
    reveal_strlit("Lobby wygląda neutralnie. Brak dużych czerwonych flag, ale też brak mocnego carry patternu.");
    assert("Kilka profili ma słabszą recent formę albo wysokie ryzyko. To nie dowód na losers queue, ale lobby wygląda presyjnie."@[0]
        != "Team wygląda solidnie: kilka profili ma dobrą recent formę i sensowne role/champion comfort."@[0]);
    assert("Kilka profili ma słabszą recent formę albo wysokie ryzyko. To nie dowód na losers queue, ale lobby wygląda presyjnie."@[0]
        != "Lobby wygląda neutralnie. Brak dużych czerwonych flag, ale też brak mocnego carry patternu."@[0]);
    assert("Team wygląda solidnie: kilka profili ma dobrą recent formę i sensowne role/champion comfort."@[0]
        != "Lobby wygląda neutralnie. Brak dużych czerwonych flag, ale też brak mocnego carry patternu."@[0]);
}

/// Hiding the user's own profile counts the other cards exactly as if the
/// own ones were not in the lobby.
pub proof fn law_hidden_profile_not_counted(cards: Seq<PlayerCard>, my_riot_id: Seq<char>, tone: Seq<char>)
    ensures
        tone_count(cards, my_riot_id, true, tone) == tone_count(
            cards.filter(|c: PlayerCard| !is_hidden(c, my_riot_id, true)),
            my_riot_id,
            false,
            tone,
        ),
    decreases cards.len(),
{
    let keep = |c: PlayerCard| !is_hidden(c, my_riot_id, true);
    if cards.len() > 0 {
        law_hidden_profile_not_counted(cards.drop_last(), my_riot_id, tone);
        let f = cards.drop_last().filter(keep);
        reveal(Seq::filter);
        assert(cards.filter(keep) == if keep(cards.last()) {
            f.push(cards.last())
        } else {
            f
        });
        if keep(cards.last()) {
            assert(cards.filter(keep).drop_last() =~= f);
        }
    } else {
        assert(cards.filter(keep) =~= Seq::<PlayerCard>::empty());
    }
}

} // verus!
