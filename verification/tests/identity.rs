use revwlol::labels::{opgg_region, role_label};
use revwlol::lockfile::{
    candidate_lockfiles, choose_lockfile, lockfile_step, parse_lockfile, LockfileRead,
};
use revwlol::riot_id::{join_riot_id, split_riot_id};

#[test]
fn split_riot_id_trims_both_parts() {
    assert_eq!(split_riot_id(" Faker #KR1 "), Ok(("Faker".to_string(), "KR1".to_string())));
    assert_eq!(split_riot_id("Name#TAG"), Ok(("Name".to_string(), "TAG".to_string())));
}

#[test]
fn split_riot_id_refuses_malformed() {
    for bad in ["NoTag", "a#b#c", "#TAG", "Name#", "  #  ", ""] {
        assert_eq!(split_riot_id(bad), Err(format!("Niepoprawny Riot ID: {bad}")));
    }
}

#[test]
fn join_then_split_gives_parts_back() {
    let id = join_riot_id("Some Player", "EUW");
    assert_eq!(id, "Some Player#EUW");
    assert_eq!(split_riot_id(&id), Ok(("Some Player".to_string(), "EUW".to_string())));
}

#[test]
fn role_labels() {
    assert_eq!(role_label("TOP"), "Top");
    assert_eq!(role_label("JUNGLE"), "Jungle");
    assert_eq!(role_label("MIDDLE"), "Mid");
    assert_eq!(role_label("BOTTOM"), "ADC");
    assert_eq!(role_label("UTILITY"), "Support");
    assert_eq!(role_label("UNKNOWN"), "Mixed");
    assert_eq!(role_label("top"), "Mixed");
}

#[test]
fn opgg_regions() {
    let cases = [
        ("euw1", "euw"), ("eun1", "eune"), ("na1", "na"), ("kr", "kr"), ("br1", "br"),
        ("jp1", "jp"), ("tr1", "tr"), ("ru", "ru"), ("oc1", "oce"), ("la1", "lan"),
        ("la2", "las"), ("me1", "euw"), ("", "euw"),
    ];
    for (p, r) in cases {
        assert_eq!(opgg_region(p), r);
    }
}

#[test]
fn parse_lockfile_reads_fields() {
    let l = parse_lockfile("LeagueClient:1234:54321:s3cr3t:https\n").unwrap();
    assert_eq!(l.port, "54321");
    assert_eq!(l.password, "s3cr3t");
    assert_eq!(l.protocol, "https");
    assert!(parse_lockfile("LeagueClient:1234:54321:s3cr3t").is_none());
    assert!(parse_lockfile("").is_none());
}

#[test]
fn candidates_in_order() {
    let c = candidate_lockfiles("  D:\\Games\\LoL  ", true, Some("C:\\Users\\me\\AppData\\Local".to_string()));
    assert_eq!(c.len(), 5);
    assert_eq!(c[0].base, "D:\\Games\\LoL");
    assert_eq!(c[0].joined.as_deref(), Some("lockfile"));
    assert_eq!(c[1].base, "C:\\Riot Games\\League of Legends\\lockfile");
    assert_eq!(c[2].base, "C:\\Program Files\\Riot Games\\League of Legends\\lockfile");
    assert_eq!(c[3].base, "C:\\Program Files (x86)\\Riot Games\\League of Legends\\lockfile");
    assert_eq!(c[4].base, "C:\\Users\\me\\AppData\\Local");
    assert_eq!(c[4].joined.as_deref(), Some("Riot Games\\League of Legends\\lockfile"));

    let c = candidate_lockfiles("   ", false, None);
    assert_eq!(c.len(), 3);
    assert!(c.iter().all(|p| p.joined.is_none()));

    let c = candidate_lockfiles("x.txt", false, None);
    assert_eq!(c[0].base, "x.txt");
    assert!(c[0].joined.is_none());
}

#[test]
fn search_takes_first_decisive_candidate() {
    let reads = vec![
        LockfileRead::Missing,
        LockfileRead::Contents("broken".to_string()),
        LockfileRead::Contents("a:b:1:p:http".to_string()),
        LockfileRead::Unreadable("denied".to_string()),
    ];
    let l = choose_lockfile(&reads).unwrap();
    assert_eq!((l.port.as_str(), l.password.as_str(), l.protocol.as_str()), ("1", "p", "http"));

    let reads = vec![LockfileRead::Missing, LockfileRead::Unreadable("denied".to_string())];
    assert_eq!(choose_lockfile(&reads).err(), Some("Nie mogę odczytać lockfile: denied".to_string()));

    let reads = vec![LockfileRead::Missing, LockfileRead::Contents("x".to_string())];
    assert_eq!(choose_lockfile(&reads).err(), Some("Nie znaleziono lockfile klienta LoL".to_string()));
    assert_eq!(choose_lockfile(&vec![]).err(), Some("Nie znaleziono lockfile klienta LoL".to_string()));
    assert!(lockfile_step(&LockfileRead::Missing).is_none());
}
