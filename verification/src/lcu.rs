//! The state of the local League client as the dashboard shows it.

use vstd::prelude::*;
use crate::champ_select::{opt_view, str_at, RevealPlayer};
use crate::json::JsonRecord;
use crate::lockfile::Lockfile;
use crate::text::{decimal, decimal_spec, str_eq};

verus! {

/// What the dashboard shows about the local client.
pub struct LcuState {
    pub ok: bool,
    pub lockfile_found: bool,
    pub phase: String,
    pub message: String,
    pub current_summoner: Option<String>,
    pub champion_select_active: bool,
    pub revealed_players: Vec<RevealPlayer>,
    pub raw_count: usize,
}

/// The parts of a client state agree: the count is the number of players
/// listed, the state is connected exactly when a lockfile was found, and no
/// player is listed unless champion select is active.
pub open spec fn state_consistent(s: LcuState) -> bool {
    &&& s.raw_count == s.revealed_players@.len()
    &&& s.ok == s.lockfile_found
    &&& !s.champion_select_active ==> s.revealed_players@.len() == 0
}

/// The address of a client endpoint: `protocol://127.0.0.1:port` then the endpoint.
pub fn lcu_url(lock: &Lockfile, endpoint: &str) -> (r: String)
    ensures
        r@ == lock.protocol@ + "://127.0.0.1:"@ + lock.port@ + endpoint@,
{
    let mut r = lock.protocol.clone();
    r.append("://127.0.0.1:");
    r.append(lock.port.as_str());
    r.append(endpoint);
    r
}

/// The error for a client answer whose status is not a success.
pub fn lcu_status_error(endpoint: &str, status: &str) -> (r: String)
    ensures
        r@ == "LCU "@ + endpoint@ + " zwróciło "@ + status@,
{
    let mut r = String::from_str("LCU ");
    r.append(endpoint);
    r.append(" zwróciło ");
    r.append(status);
    r
}

/// The state shown when the client's lockfile cannot be had.
pub fn offline_state(message: String) -> (r: LcuState)
    ensures
        !r.ok,
        !r.lockfile_found,
        r.phase@ == "Offline"@,
        r.message == message,
        r.current_summoner is None,
        !r.champion_select_active,
        r.revealed_players@.len() == 0,
        r.raw_count == 0,
        state_consistent(r),
{
    LcuState {
        ok: false,
        lockfile_found: false,
        phase: String::from_str("Offline"),
        message,
        current_summoner: None,
        champion_select_active: false,
        revealed_players: Vec::new(),
        raw_count: 0,
    }
}

/// The game-flow phase from the game-flow session, "Unknown" when the
/// session or its `phase` string is missing.
pub open spec fn phase_spec(gameflow: Option<JsonRecord>) -> Seq<char> {
    match gameflow {
        Some(g) => match str_at(g, "phase"@) {
            Some(p) => p,
            None => "Unknown"@,
        },
        None => "Unknown"@,
    }
}

/// The game-flow phase.
pub fn gameflow_phase(gameflow: Option<&JsonRecord>) -> (r: String)
    ensures
        r@ == phase_spec(
            match gameflow {
                Some(g) => Some(*g),
                None => None,
            },
        ),
{
    match gameflow {
        Some(g) => match g.get_str("phase") {
            Some(p) => String::from_str(p),
            None => String::from_str("Unknown"),
        },
        None => String::from_str("Unknown"),
    }
}

/// The signed-in summoner's display name, when the summoner record has one.
pub fn current_summoner_name(summoner: Option<&JsonRecord>) -> (r: Option<String>)
    ensures
        opt_view(r) == match summoner {
            Some(s) => str_at(*s, "displayName"@),
            None => None,
        },
{
    match summoner {
        Some(s) => match s.get_str("displayName") {
            Some(n) => Some(String::from_str(n)),
            None => None,
        },
        None => None,
    }
}

/// Whether the phase alone shows champion select; when it does not, the
/// client is asked for a champion-select session.
pub fn phase_is_champ_select(phase: &str) -> (r: bool)
    ensures
        r == (phase@ == "ChampSelect"@),
{
    str_eq(phase, "ChampSelect")
}

/// The status line of a connected client.
pub open spec fn lcu_message_spec(phase: Seq<char>, champion_select_active: bool, players: nat) -> Seq<char> {
    if champion_select_active {
        "Champ select aktywny · wykryto "@ + decimal_spec(players) + " graczy"@
    } else if phase == "InProgress"@ {
        "Jesteś w grze / Practice Tool — draft nieaktywny"@
    } else {
        "Klient wykryty · faza: "@ + phase
    }
}

/// The state shown for a connected client. The players found are listed only
/// while champion select is active; otherwise none are.
pub fn online_state(
    phase: String,
    current_summoner: Option<String>,
    champion_select_active: bool,
    players: Vec<RevealPlayer>,
) -> (r: LcuState)
    ensures
        r.ok,
        r.lockfile_found,
        r.phase == phase,
        r.message@ == lcu_message_spec(phase@, champion_select_active, players@.len()),
        r.current_summoner == current_summoner,
        r.champion_select_active == champion_select_active,
        champion_select_active ==> r.revealed_players == players,
        !champion_select_active ==> r.revealed_players@.len() == 0,
        state_consistent(r),
{
    let players = if champion_select_active {
        players
    } else {
        Vec::new()
    };
    let count = players.len();
    let message = if champion_select_active {
        let mut m = String::from_str("Champ select aktywny · wykryto ");
        m.append(decimal(count as u64).as_str());
        m.append(" graczy");
        m
    } else if str_eq(phase.as_str(), "InProgress") {
        String::from_str("Jesteś w grze / Practice Tool — draft nieaktywny")
    } else {
        let mut m = String::from_str("Klient wykryty · faza: ");
        m.append(phase.as_str());
        m
    };
    LcuState {
        ok: true,
        lockfile_found: true,
        phase,
        message,
        current_summoner,
        champion_select_active,
        revealed_players: players,
        raw_count: count,
    }
}

} // verus!
