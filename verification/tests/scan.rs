use revwlol::ddragon::{build_catalog, champion_entry, champion_names, ddragon_version, parse_i64};
use revwlol::json::{JsonRecord, JsonScalar};
use revwlol::lobby::{check_api_key, count_tone, scan_response, scan_targets, team_verdict};
use revwlol::matches::{
    account_identity, encrypted_summoner_id, find_participant, match_count, match_ids,
    match_record, rank_text, scan_match, solo_queue_entry, team_total, MatchScan,
};
use revwlol::profile::{
    confidence, error_card, main_role, profile_card, profile_tags, profile_verdict,
    top_champion_indices, top_champions, top_role_games, FormSignals, PlayerCard,
};
use revwlol::stats::{MatchRecord, PlayerStats};
use revwlol::urls::{
    account_url, champion_data_url, champion_icon_url, league_url, match_ids_url, match_url,
    profile_links, riot_status_error, summoner_url,
};

fn s(v: &str) -> JsonScalar {
    JsonScalar::Str(v.to_string())
}

fn rec(members: Vec<(&str, JsonScalar)>) -> JsonRecord {
    JsonRecord { members: members.into_iter().map(|(k, v)| (k.to_string(), v)).collect() }
}

fn m(kills: u32, deaths: u32, assists: u32, win: bool, champ: i64, pos: &str) -> MatchRecord {
    MatchRecord { kills, deaths, assists, win, champion_id: champ, position: pos.to_string() }
}

fn no_signals() -> FormSignals {
    FormSignals {
        role_share_main: false,
        role_share_mixed: false,
        role_share_steady: false,
        win_rate_strong: false,
        win_rate_weak: false,
        win_rate_even: false,
        kda_strong: false,
    }
}

fn card(id: &str, tone: &str) -> PlayerCard {
    let mut c = error_card(id.to_string(), String::new());
    c.profile_tone = tone.to_string();
    c
}

#[test]
fn parse_i64_matches_std() {
    let cases = [
        "0", "42", "+7", "-7", "-", "+", "", " 1", "1 ", "12a", "9223372036854775807",
        "9223372036854775808", "-9223372036854775808", "-9223372036854775809",
        "99999999999999999999999", "007", "--1",
    ];
    for c in cases {
        assert_eq!(parse_i64(c), c.parse::<i64>().ok(), "{c:?}");
    }
}

#[test]
fn catalog_from_data() {
    assert_eq!(ddragon_version(&vec!["14.2.1".into(), "14.1.1".into()]), "14.2.1");
    assert_eq!(ddragon_version(&vec![]), "15.1.1");
    let data = vec![
        ("Aatrox".to_string(), rec(vec![("key", s("266")), ("name", s("Aatrox"))])),
        ("MonkeyKing".to_string(), rec(vec![("key", s("62")), ("name", s("Wukong"))])),
        ("NoName".to_string(), rec(vec![("key", s("7"))])),
        ("Bad".to_string(), rec(vec![("key", s("x"))])),
        ("Num".to_string(), rec(vec![("key", JsonScalar::PosInt(8))])),
    ];
    let cache = build_catalog("14.2.1".into(), &data);
    assert_eq!(cache.version, "14.2.1");
    assert_eq!(cache.id_to_key.len(), 3);
    assert_eq!(champion_names(&cache, 62), ("MonkeyKing".to_string(), "Wukong".to_string()));
    assert_eq!(champion_names(&cache, 7), ("NoName".to_string(), "NoName".to_string()));
    assert_eq!(champion_names(&cache, 8), ("Unknown".to_string(), "Unknown".to_string()));
    assert!(champion_entry("Bad", &data[3].1).is_none());
}

#[test]
fn urls_are_built() {
    assert_eq!(
        account_url("europe", "Some Player", "EUW"),
        "https://europe.api.riotgames.com/riot/account/v1/accounts/by-riot-id/Some%20Player/EUW"
    );
    assert_eq!(
        account_url("asia", "페이커", "KR1"),
        format!("https://asia.api.riotgames.com/riot/account/v1/accounts/by-riot-id/{}/KR1", urlencoding::encode("페이커"))
    );
    assert_eq!(summoner_url("euw1", "P"), "https://euw1.api.riotgames.com/lol/summoner/v4/summoners/by-puuid/P");
    assert_eq!(league_url("euw1", "S"), "https://euw1.api.riotgames.com/lol/league/v4/entries/by-summoner/S");
    assert_eq!(
        match_ids_url("europe", "P", 12),
        "https://europe.api.riotgames.com/lol/match/v5/matches/by-puuid/P/ids?queue=420&start=0&count=12"
    );
    assert_eq!(match_url("europe", "EUW1_1"), "https://europe.api.riotgames.com/lol/match/v5/matches/EUW1_1");
    assert_eq!(champion_data_url("14.2.1"), "https://ddragon.leagueoflegends.com/cdn/14.2.1/data/en_US/champion.json");
    assert_eq!(champion_icon_url("14.2.1", "Ahri"), "https://ddragon.leagueoflegends.com/cdn/14.2.1/img/champion/Ahri.png");
    assert_eq!(riot_status_error("u", "403 Forbidden"), "Riot API u -> 403 Forbidden");
}

#[test]
fn profile_links_encode_riot_id() {
    let l = profile_links("eun1", "Zed Main#ö~1");
    assert_eq!(l.opgg_url, "https://op.gg/lol/summoners/eune/Zed%20Main-%C3%B6~1");
    assert_eq!(l.ugg_url, "https://u.gg/lol/profile/eun1/Zed%20Main-%C3%B6~1//overview");
    assert_eq!(l.deeplol_url, "https://www.deeplol.gg/summoner/eune/Zed%20Main-%C3%B6~1");
    assert_eq!(l.mmradar_url, "https://mmradar.gg/summoner/Zed%20Main-%C3%B6~1?search=1");
}

#[test]
fn account_and_summoner() {
    let acc = rec(vec![("puuid", s("P")), ("gameName", s("Real")), ("tagLine", s("T1"))]);
    assert_eq!(account_identity(&acc, "x", "y"), Ok(("P".to_string(), "Real#T1".to_string())));
    let acc = rec(vec![("puuid", s("P"))]);
    assert_eq!(account_identity(&acc, "x", "y"), Ok(("P".to_string(), "x#y".to_string())));
    assert_eq!(account_identity(&rec(vec![]), "x", "y"), Err("Brak PUUID".to_string()));
    assert_eq!(encrypted_summoner_id(Some(&rec(vec![("id", s("E"))]))), "E");
    assert_eq!(encrypted_summoner_id(None), "");
    assert_eq!(match_count(true), 30);
    assert_eq!(match_count(false), 12);
}

#[test]
fn solo_queue_is_found() {
    let entries = vec![
        rec(vec![("queueType", s("RANKED_FLEX_SR")), ("tier", s("GOLD"))]),
        rec(vec![
            ("queueType", s("RANKED_SOLO_5x5")),
            ("tier", s("DIAMOND")),
            ("rank", s("II")),
            ("leaguePoints", JsonScalar::PosInt(75)),
            ("wins", JsonScalar::PosInt(60)),
            ("losses", JsonScalar::PosInt(40)),
        ]),
    ];
    let e = solo_queue_entry(&entries).unwrap();
    assert_eq!((e.tier.as_str(), e.rank.as_str(), e.league_points, e.wins, e.losses), ("DIAMOND", "II", 75, 60, 40));
    assert!(solo_queue_entry(&vec![rec(vec![("queueType", s("RANKED_FLEX_SR"))])]).is_none());
    assert_eq!(rank_text(Some(&e), "60"), "DIAMOND II · 75 LP · 60% WR");
    assert_eq!(rank_text(None, ""), "Unranked");
    let only = vec![rec(vec![("queueType", s("RANKED_SOLO_5x5"))])];
    let e = solo_queue_entry(&only).unwrap();
    assert_eq!((e.tier.as_str(), e.league_points), ("", 0));
}

#[test]
fn match_ids_keep_strings() {
    let ids = match_ids(&vec![s("EUW1_1"), JsonScalar::PosInt(3), s("EUW1_2")]);
    assert_eq!(ids, vec!["EUW1_1".to_string(), "EUW1_2".to_string()]);
}

fn participant(puuid: &str, team: u64, kills: u64, dmg: u64) -> JsonRecord {
    rec(vec![
        ("puuid", s(puuid)),
        ("teamId", JsonScalar::PosInt(team)),
        ("kills", JsonScalar::PosInt(kills)),
        ("deaths", JsonScalar::PosInt(2)),
        ("assists", JsonScalar::PosInt(7)),
        ("totalDamageDealtToChampions", JsonScalar::PosInt(dmg)),
        ("win", JsonScalar::Bool(true)),
        ("championId", JsonScalar::PosInt(103)),
        ("teamPosition", s("MIDDLE")),
    ])
}

#[test]
fn matches_are_scanned() {
    let ps = vec![
        participant("a", 100, 3, 1000),
        participant("me", 100, 5, 2000),
        participant("b", 200, 9, 9000),
        participant("c", 100, 1, 500),
    ];
    assert_eq!(find_participant(&ps, "me"), Some(1));
    assert_eq!(find_participant(&ps, "zz"), None);
    assert_eq!(team_total(&ps, 100, "kills"), Some(9));
    assert_eq!(team_total(&ps, 200, "totalDamageDealtToChampions"), Some(9000));
    match scan_match(&ps, "me") {
        MatchScan::Counted { me, team_kills, team_damage, record } => {
            assert_eq!((me, team_kills, team_damage), (1, 9, 3500));
            assert_eq!((record.kills, record.deaths, record.assists, record.win), (5, 2, 7, true));
            assert_eq!((record.champion_id, record.position.as_str()), (103, "MIDDLE"));
        }
        _ => panic!("expected a counted match"),
    }
    assert!(matches!(scan_match(&ps, "zz"), MatchScan::Absent));

    let huge = vec![
        rec(vec![("puuid", s("me")), ("kills", JsonScalar::PosInt(i64::MAX as u64))]),
        rec(vec![("kills", JsonScalar::PosInt(1))]),
    ];
    assert_eq!(team_total(&huge, 0, "kills"), None);
    assert!(matches!(scan_match(&huge, "me"), MatchScan::Overflow));
}

#[test]
fn match_record_defaults_and_truncation() {
    let r = match_record(&rec(vec![("kills", JsonScalar::PosInt((1u64 << 32) + 3)), ("deaths", JsonScalar::NegInt(-1))]));
    assert_eq!((r.kills, r.deaths, r.assists, r.win, r.champion_id), (3, 0, 0, false, 0));
    assert_eq!(r.position, "UNKNOWN");
}

#[test]
fn stats_tally_matches() {
    let mut st = PlayerStats::new();
    assert!(st.record_match(&m(10, 9, 2, true, 1, "TOP"), true, false));
    assert!(st.record_match(&m(1, 3, 8, false, 2, "JUNGLE"), false, true));
    assert!(st.record_match(&m(0, 1, 1, false, 1, "TOP"), false, true));
    assert_eq!((st.games, st.wins, st.kills, st.deaths, st.assists), (3, 1, 11, 13, 11));
    assert_eq!(st.recent_results, vec![true, false, false]);
    assert_eq!((st.low_impact_wins, st.good_losses, st.death_heavy), (1, 2, 1));
    assert_eq!(st.role_games, vec![("TOP".to_string(), 2), ("JUNGLE".to_string(), 1)]);
    assert_eq!(st.champ_games, vec![(1, 2, 1), (2, 1, 0)]);
    let role_total: u32 = st.role_games.iter().map(|r| r.1).sum();
    let champ_total: u32 = st.champ_games.iter().map(|c| c.1).sum();
    assert_eq!((role_total, champ_total), (st.games, st.games));
    assert_eq!(main_role(&st), "Top");
    assert_eq!(top_role_games(&st), 2);
}

#[test]
fn stats_refuse_overflow() {
    let mut st = PlayerStats::new();
    assert!(st.record_match(&m(u32::MAX, 0, 0, true, 1, "TOP"), false, false));
    assert!(!st.record_match(&m(1, 0, 0, true, 1, "TOP"), false, false));
    assert_eq!(st.games, 1);
    assert_eq!(st.kills, u32::MAX);
}

#[test]
fn empty_stats() {
    let st = PlayerStats::new();
    assert_eq!(main_role(&st), "Unknown");
    assert_eq!(top_role_games(&st), 0);
    assert!(top_champion_indices(&st.champ_games).is_empty());
}

#[test]
fn top_three_champions() {
    let champs = vec![(1, 2, 0), (2, 5, 3), (3, 1, 1), (4, 5, 5), (5, 4, 2)];
    assert_eq!(top_champion_indices(&champs), vec![1, 3, 4]);
    assert_eq!(top_champion_indices(&vec![(9, 1, 0)]), vec![0]);

    let mut st = PlayerStats::new();
    for _ in 0..4 {
        assert!(st.record_match(&m(1, 1, 1, true, 62, "TOP"), false, false));
    }
    assert!(st.record_match(&m(1, 1, 1, false, 7, "TOP"), false, false));
    let data = vec![("MonkeyKing".to_string(), rec(vec![("key", s("62")), ("name", s("Wukong"))]))];
    let cache = build_catalog("14.2.1".into(), &data);
    let champs = top_champions(&st, &cache);
    assert_eq!(champs.len(), 2);
    assert_eq!((champs[0].name.as_str(), champs[0].key.as_str(), champs[0].games, champs[0].wins), ("Wukong", "MonkeyKing", 4, 4));
    assert_eq!(champs[0].icon_url, "https://ddragon.leagueoflegends.com/cdn/14.2.1/img/champion/MonkeyKing.png");
    assert_eq!((champs[1].name.as_str(), champs[1].games), ("Unknown", 1));
}

#[test]
fn verdicts_follow_rules() {
    let mut st = PlayerStats::new();
    let sig = FormSignals { win_rate_strong: true, kda_strong: true, role_share_steady: true, ..no_signals() };
    assert_eq!(profile_verdict(&st, &sig).label, "Mało danych");
    for _ in 0..5 {
        assert!(st.record_match(&m(1, 9, 1, false, 1, "TOP"), false, false));
    }
    let v = profile_verdict(&st, &sig);
    assert_eq!((v.label.as_str(), v.tone.as_str()), ("Winnable", "positive"));
    let v = profile_verdict(&st, &no_signals());
    assert_eq!((v.label.as_str(), v.tone.as_str()), ("Risky", "negative"));
    let v = profile_verdict(&PlayerStats { death_heavy: 0, ..st }, &no_signals());
    assert_eq!((v.label.as_str(), v.tone.as_str()), ("Playable", "neutral"));
    let st2 = {
        let mut st = PlayerStats::new();
        for _ in 0..5 {
            assert!(st.record_match(&m(1, 1, 1, true, 1, "TOP"), true, false));
        }
        st
    };
    let v = profile_verdict(&st2, &FormSignals { win_rate_even: true, ..no_signals() });
    assert_eq!(v.label, "Carried wins");
    assert_eq!(v.summary, "Wyniki wyglądają ok, ale część wygranych ma niski indywidualny impact.");
}

#[test]
fn confidence_levels() {
    assert_eq!(confidence(0), "low");
    assert_eq!(confidence(7), "low");
    assert_eq!(confidence(8), "medium");
    assert_eq!(confidence(14), "medium");
    assert_eq!(confidence(15), "high");
}

#[test]
fn tags_in_order() {
    let mut st = PlayerStats::new();
    for i in 0..8 {
        assert!(st.record_match(&m(1, 9, 1, i < 3, 1, "TOP"), true, true));
    }
    let sig = FormSignals { role_share_main: true, role_share_mixed: true, win_rate_weak: true, ..no_signals() };
    let tags = profile_tags(&st, &sig, Some(8));
    assert_eq!(tags, vec!["main role", "spadkowa forma", "często carrowany", "death-heavy", "comfort champ"]);
    let tags = profile_tags(&PlayerStats::new(), &FormSignals { role_share_mixed: true, win_rate_strong: true, ..no_signals() }, None);
    assert_eq!(tags, vec!["mixed roles", "strong recent WR"]);
}

#[test]
fn card_of_a_profile() {
    let mut st = PlayerStats::new();
    assert!(st.record_match(&m(1, 1, 1, true, 62, "UTILITY"), false, false));
    let cache = build_catalog("14.2.1".into(), &vec![]);
    let c = profile_card(
        "A b#EUW".into(),
        "P".into(),
        "euw1",
        "Unranked".into(),
        &st,
        &no_signals(),
        &cache,
        vec![("KDA".to_string(), "3.00".to_string())],
    );
    assert_eq!(c.opgg_url, "https://op.gg/lol/summoners/euw/A%20b-EUW");
    assert_eq!(c.main_role, "Support");
    assert_eq!(c.profile_label, "Mało danych");
    assert_eq!(c.confidence, "low");
    assert_eq!(c.champions.len(), 1);
    assert!(c.tags.is_empty());
    assert_eq!(c.metrics, vec![("KDA".to_string(), "3.00".to_string()), ("Games".to_string(), "1".to_string())]);
}

#[test]
fn error_cards() {
    let c = error_card("X#1".into(), "boom".into());
    assert_eq!((c.profile_label.as_str(), c.profile_tone.as_str(), c.rank_text.as_str()), ("Błąd", "negative", "error"));
    assert_eq!(c.tags, vec!["scan error"]);
    assert_eq!(c.summary, "boom");
}

#[test]
fn api_key_and_targets() {
    assert_eq!(check_api_key("  "), Err("Brak Riot API key".to_string()));
    assert_eq!(check_api_key("RGAPI-x"), Ok(()));
    let ids: Vec<String> = (0..7).map(|i| format!("P{i}#1")).collect();
    assert_eq!(scan_targets(&ids), ids[..5].to_vec());
    assert_eq!(scan_targets(&ids[..2].to_vec()), ids[..2].to_vec());
}

#[test]
fn lobby_verdicts() {
    let cards = vec![card("A#1", "negative"), card("Me#EUW", "negative"), card("C#1", "positive")];
    let v = team_verdict(&cards, "me#euw", false);
    assert_eq!((v.team_status.as_str(), v.dodge_label.as_str(), v.eomm_pressure.as_str()), ("Ryzykowne lobby", "Dodge consider", "high-pressure pattern"));
    let v = team_verdict(&cards, "me#euw", true);
    assert_eq!((v.team_status.as_str(), v.dodge_label.as_str(), v.eomm_pressure.as_str()), ("Playable lobby", "Uważaj", "medium"));
    assert_eq!(count_tone(&cards, "", true, "negative"), 2);

    let cards = vec![card("A#1", "positive"), card("B#1", "positive"), card("C#1", "neutral")];
    let v = team_verdict(&cards, "", false);
    assert_eq!((v.team_status.as_str(), v.dodge_label.as_str(), v.eomm_pressure.as_str()), ("Winnable lobby", "Grywalne", "low"));
    assert_eq!(v.team_summary, "Team wygląda solidnie: kilka profili ma dobrą recent formę i sensowne role/champion comfort.");

    let r = scan_response("2024-01-01T00:00:00+00:00".into(), cards, "", false);
    assert_eq!(r.players.len(), 3);
    assert_eq!(r.team_status, "Winnable lobby");
}
