use revwlol::champ_select::{
    dedup_players, draft_chat_endpoint, extract_riot_id, is_draft_chat, reveal_key,
    reveal_like_players, RevealPlayer,
};
use revwlol::json::{JsonRecord, JsonScalar};
use revwlol::lcu::{
    current_summoner_name, gameflow_phase, lcu_status_error, lcu_url, offline_state,
    online_state, phase_is_champ_select,
};
use revwlol::lockfile::Lockfile;

fn s(v: &str) -> JsonScalar {
    JsonScalar::Str(v.to_string())
}

fn rec(members: Vec<(&str, JsonScalar)>) -> JsonRecord {
    JsonRecord { members: members.into_iter().map(|(k, v)| (k.to_string(), v)).collect() }
}

fn player(riot_id: Option<&str>, puuid: Option<&str>, summoner: Option<&str>) -> RevealPlayer {
    RevealPlayer {
        riot_id: riot_id.map(|x| x.to_string()),
        game_name: None,
        tag_line: None,
        puuid: puuid.map(|x| x.to_string()),
        summoner_name: summoner.map(|x| x.to_string()),
        is_self: false,
    }
}

#[test]
fn json_record_lookups() {
    let r = rec(vec![
        ("a", s("x")),
        ("a", s("second")),
        ("n", JsonScalar::PosInt(5)),
        ("big", JsonScalar::PosInt(u64::MAX)),
        ("neg", JsonScalar::NegInt(-3)),
        ("f", JsonScalar::Float),
        ("b", JsonScalar::Bool(true)),
    ]);
    assert_eq!(r.get_str("a"), Some("x"));
    assert_eq!(r.get_str("n"), None);
    assert_eq!(r.get_i64("n"), Some(5));
    assert_eq!(r.get_u64("n"), Some(5));
    assert_eq!(r.get_i64("big"), None);
    assert_eq!(r.get_u64("big"), Some(u64::MAX));
    assert_eq!(r.get_i64("neg"), Some(-3));
    assert_eq!(r.get_u64("neg"), None);
    assert_eq!(r.get_i64("f"), None);
    assert_eq!(r.get_bool("b"), Some(true));
    assert_eq!(r.get_bool("missing"), None);
}

#[test]
fn extract_with_primary_keys() {
    let v = rec(vec![
        ("gameName", s("Faker")),
        ("gameTag", s("#KR1")),
        ("puuid", s("p-1")),
        ("summonerName", s("Hide on bush")),
        ("isSelf", JsonScalar::Bool(true)),
    ]);
    let p = extract_riot_id(&v);
    assert_eq!(p.riot_id.as_deref(), Some("Faker#KR1"));
    assert_eq!(p.game_name.as_deref(), Some("Faker"));
    assert_eq!(p.tag_line.as_deref(), Some("KR1"));
    assert_eq!(p.puuid.as_deref(), Some("p-1"));
    assert_eq!(p.summoner_name.as_deref(), Some("Hide on bush"));
    assert!(p.is_self);
}

#[test]
fn extract_with_fallback_keys() {
    let v = rec(vec![
        ("name", s("Caps")),
        ("tag_line", s("EUW")),
        ("summonerInternalName", s("caps")),
        ("isSelf", s("yes")),
    ]);
    let p = extract_riot_id(&v);
    assert_eq!(p.riot_id.as_deref(), Some("Caps#EUW"));
    assert_eq!(p.summoner_name.as_deref(), Some("caps"));
    assert!(!p.is_self);
    assert_eq!(p.puuid, None);
}

#[test]
fn extract_without_riot_id() {
    let v = rec(vec![("gameName", s("")), ("tagLine", s("EUW")), ("puuid", s("p"))]);
    let p = extract_riot_id(&v);
    assert_eq!(p.riot_id, None);
    assert_eq!(p.game_name.as_deref(), Some(""));
    let v = rec(vec![("gameName", s("A")), ("gameTag", s("###"))]);
    let p = extract_riot_id(&v);
    assert_eq!(p.tag_line.as_deref(), Some(""));
    assert_eq!(p.riot_id, None);
}

#[test]
fn key_prefers_riot_id_then_puuid() {
    assert_eq!(reveal_key(&player(Some("A#1"), Some("p"), Some("s"))), "A#1");
    assert_eq!(reveal_key(&player(None, Some("p"), Some("s"))), "p");
    assert_eq!(reveal_key(&player(None, None, Some("s"))), "s");
    assert_eq!(reveal_key(&player(None, None, None)), "");
}

#[test]
fn dedup_keeps_first_of_each_name() {
    let out = dedup_players(vec![
        player(Some("A#1"), Some("p1"), None),
        player(None, None, None),
        player(Some("B#2"), None, None),
        player(Some("A#1"), Some("other"), None),
        player(None, Some("p9"), None),
        player(None, Some("p9"), Some("x")),
    ]);
    let keys: Vec<&str> = out.iter().map(reveal_key).collect();
    assert_eq!(keys, vec!["A#1", "B#2", "p9"]);
    assert_eq!(out[0].puuid.as_deref(), Some("p1"));
}

#[test]
fn reveal_combines_team_and_chat() {
    let team = vec![
        rec(vec![("gameName", s("A")), ("tagLine", s("1"))]),
        rec(vec![("puuid", s("p2"))]),
    ];
    let chat = vec![
        rec(vec![("gameName", s("A")), ("tagLine", s("1"))]),
        rec(vec![("summonerName", s("C"))]),
        rec(vec![]),
    ];
    let out = reveal_like_players(&team, &chat);
    let keys: Vec<&str> = out.iter().map(reveal_key).collect();
    assert_eq!(keys, vec!["A#1", "p2", "C"]);
}

#[test]
fn draft_chat_detection() {
    assert!(is_draft_chat("championselect", ""));
    assert!(is_draft_chat("", "post-lobby"));
    assert!(is_draft_chat("", "team-select"));
    assert!(!is_draft_chat("party", "friends"));
}

#[test]
fn draft_chat_endpoint_lowercases() {
    let conv = rec(vec![("id", s("abc@champ-select.pvp.net")), ("type", s("CHAMPSELECT")), ("name", s(""))]);
    assert_eq!(
        draft_chat_endpoint(&conv).as_deref(),
        Some("/lol-chat/v1/conversations/abc@champ-select.pvp.net/participants")
    );
    let conv = rec(vec![("id", s("x")), ("type", s("chat")), ("name", s("Post-LOBBY"))]);
    assert!(draft_chat_endpoint(&conv).is_some());
    let conv = rec(vec![("id", s("")), ("type", s("championSelect"))]);
    assert!(draft_chat_endpoint(&conv).is_none());
    let conv = rec(vec![("id", s("y")), ("type", s("chat")), ("name", s("Friends"))]);
    assert!(draft_chat_endpoint(&conv).is_none());
}

#[test]
fn lcu_addresses_and_errors() {
    let l = Lockfile { port: "54321".into(), password: "pw".into(), protocol: "https".into() };
    assert_eq!(lcu_url(&l, "/lol-gameflow/v1/session"), "https://127.0.0.1:54321/lol-gameflow/v1/session");
    assert_eq!(lcu_status_error("/x", "404 Not Found"), "LCU /x zwróciło 404 Not Found");
}

#[test]
fn lcu_states() {
    let off = offline_state("Nie znaleziono lockfile klienta LoL".to_string());
    assert!(!off.ok && !off.lockfile_found && !off.champion_select_active);
    assert_eq!(off.phase, "Offline");
    assert_eq!(off.raw_count, 0);

    let g = rec(vec![("phase", s("ChampSelect"))]);
    assert_eq!(gameflow_phase(Some(&g)), "ChampSelect");
    assert_eq!(gameflow_phase(None), "Unknown");
    assert_eq!(gameflow_phase(Some(&rec(vec![("phase", JsonScalar::Null)]))), "Unknown");
    assert!(phase_is_champ_select("ChampSelect"));
    assert!(!phase_is_champ_select("Lobby"));
    assert_eq!(current_summoner_name(Some(&rec(vec![("displayName", s("Me"))]))).as_deref(), Some("Me"));
    assert_eq!(current_summoner_name(None), None);

    let on = online_state("ChampSelect".into(), Some("Me".into()), true, vec![player(Some("A#1"), None, None), player(Some("B#2"), None, None)]);
    assert!(on.ok && on.lockfile_found);
    assert_eq!(on.message, "Champ select aktywny · wykryto 2 graczy");
    assert_eq!(on.raw_count, 2);
    let on = online_state("InProgress".into(), None, false, vec![]);
    assert_eq!(on.message, "Jesteś w grze / Practice Tool — draft nieaktywny");
    let on = online_state("Lobby".into(), None, false, vec![player(Some("A#1"), None, None)]);
    assert!(on.revealed_players.is_empty());
    assert_eq!(on.raw_count, 0);
    assert_eq!(on.message, "Klient wykryty · faza: Lobby");
}
