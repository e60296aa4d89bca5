//! The League client's lockfile: where to look for it and what it holds.

use vstd::prelude::*;
use crate::text::{
    lemma_split_append, lemma_split_without, split_char, split_spec, strings_view, trim, trim_spec,
};

verus! {

/// Connection data of the running client: `name:pid:port:password:protocol`.
pub struct Lockfile {
    pub port: String,
    pub password: String,
    pub protocol: String,
}

/// Port, password and protocol of a lockfile.
pub open spec fn lockfile_view(l: Lockfile) -> (Seq<char>, Seq<char>, Seq<char>) {
    (l.port@, l.password@, l.protocol@)
}

/// What a lockfile's text holds: after trimming, at least five `:`-separated
/// fields, of which the third, fourth and fifth are port, password and protocol.
pub open spec fn parse_lockfile_spec(raw: Seq<char>) -> Option<(Seq<char>, Seq<char>, Seq<char>)> {
    let parts = split_spec(trim_spec(raw), ':');
    if parts.len() >= 5 {
        Some((parts[2], parts[3], parts[4]))
    } else {
        None
    }
}

/// Reads port, password and protocol from a lockfile's text.
pub fn parse_lockfile(raw: &str) -> (r: Option<Lockfile>)
    ensures
        match r {
            Some(l) => parse_lockfile_spec(raw@) == Some(lockfile_view(l)),
            None => parse_lockfile_spec(raw@) is None,
        },
{
    let parts = split_char(trim(raw), ':');
    proof {
        assert(strings_view(parts@).len() == parts@.len());
    }
    if parts.len() >= 5 {
        proof {
            assert(strings_view(parts@)[2] == parts@[2]@);
            assert(strings_view(parts@)[3] == parts@[3]@);
            assert(strings_view(parts@)[4] == parts@[4]@);
        }
        Some(
            Lockfile {
                port: parts[2].clone(),
                password: parts[3].clone(),
                protocol: parts[4].clone(),
            },
        )
    } else {
        None
    }
}

/// A place where the lockfile may be: `base`, or `base` joined with `joined`.
pub struct LockfilePath {
    pub base: String,
    pub joined: Option<String>,
}

/// A lockfile place as character sequences.
pub open spec fn path_view(p: LockfilePath) -> (Seq<char>, Option<Seq<char>>) {
    (
        p.base@,
        match p.joined {
            Some(j) => Some(j@),
            None => None,
        },
    )
}

/// Where to look for the lockfile, in order: the path the user gave (trimmed;
/// its `lockfile` when it is a directory), the three usual install folders,
/// then the install folder under `LOCALAPPDATA` when that is set.
pub open spec fn candidate_lockfiles_spec(
    manual: Seq<char>,
    manual_is_dir: bool,
    local_app_data: Option<Seq<char>>,
) -> Seq<(Seq<char>, Option<Seq<char>>)> {
    let m = trim_spec(manual);
    let first: Seq<(Seq<char>, Option<Seq<char>>)> = if m.len() > 0 {
        if manual_is_dir {
            seq![(m, Some("lockfile"@))]
        } else {
            seq![(m, None)]
        }
    } else {
        Seq::empty()
    };
    let fixed: Seq<(Seq<char>, Option<Seq<char>>)> = seq![
        ("C:\\Riot Games\\League of Legends\\lockfile"@, None),
        ("C:\\Program Files\\Riot Games\\League of Legends\\lockfile"@, None),
        ("C:\\Program Files (x86)\\Riot Games\\League of Legends\\lockfile"@, None),
    ];
    let last: Seq<(Seq<char>, Option<Seq<char>>)> = match local_app_data {
        Some(l) => seq![(l, Some("Riot Games\\League of Legends\\lockfile"@))],
        None => Seq::empty(),
    };
    first + fixed + last
}

fn fixed_path(p: &str) -> (r: LockfilePath)
    ensures
        path_view(r) == (p@, None::<Seq<char>>),
{
    LockfilePath { base: String::from_str(p), joined: None }
}

/// The places to look for the lockfile. `manual_is_dir` tells whether the
/// trimmed `manual` path is a directory.
pub fn candidate_lockfiles(manual: &str, manual_is_dir: bool, local_app_data: Option<String>) -> (r:
    Vec<LockfilePath>)
    ensures
        r@.map_values(|p: LockfilePath| path_view(p)) == candidate_lockfiles_spec(
            manual@,
            manual_is_dir,
            match local_app_data {
                Some(l) => Some(l@),
                None => None,
            },
        ),
{
    let mut paths: Vec<LockfilePath> = Vec::new();
    let m = trim(manual);
    if !m.is_empty() {
        if manual_is_dir {
            paths.push(
                LockfilePath { base: String::from_str(m), joined: Some(String::from_str("lockfile")) },
            );
        } else {
            paths.push(LockfilePath { base: String::from_str(m), joined: None });
        }
    }
    paths.push(fixed_path("C:\\Riot Games\\League of Legends\\lockfile"));
    paths.push(fixed_path("C:\\Program Files\\Riot Games\\League of Legends\\lockfile"));
    paths.push(fixed_path("C:\\Program Files (x86)\\Riot Games\\League of Legends\\lockfile"));
    match local_app_data {
        Some(l) => {
            paths.push(
                LockfilePath {
                    base: l,
                    joined: Some(String::from_str("Riot Games\\League of Legends\\lockfile")),
                },
            );
        },
        None => {},
    }
    assert(paths@.map_values(|p: LockfilePath| path_view(p)) =~= candidate_lockfiles_spec(
        manual@,
        manual_is_dir,
        match local_app_data {
            Some(l) => Some(l@),
            None => None,
        },
    ));
    paths
}

/// What looking at one candidate place gave.
pub enum LockfileRead {
    /// Nothing exists there.
    Missing,
    /// Something exists but could not be read; the reason.
    Unreadable(String),
    /// The text read from it.
    Contents(String),
}

/// The message with which an unreadable lockfile is reported.
pub open spec fn unreadable_message(reason: Seq<char>) -> Seq<char> {
    "Nie mogę odczytać lockfile: "@ + reason
}

/// The message when no candidate holds a lockfile.
pub open spec fn not_found_message() -> Seq<char> {
    "Nie znaleziono lockfile klienta LoL"@
}

/// Whether a candidate settles the search, and how: an unreadable one ends it
/// with an error, one whose text parses ends it with that lockfile, any other
/// lets the search go on.
pub open spec fn read_decision(read: LockfileRead) -> Option<
    Result<(Seq<char>, Seq<char>, Seq<char>), Seq<char>>,
> {
    match read {
        LockfileRead::Missing => None,
        LockfileRead::Unreadable(e) => Some(Err(unreadable_message(e@))),
        LockfileRead::Contents(raw) => match parse_lockfile_spec(raw@) {
            Some(v) => Some(Ok(v)),
            None => None,
        },
    }
}

/// The outcome of the search over the candidates in order.
pub open spec fn search_outcome(reads: Seq<LockfileRead>) -> Result<
    (Seq<char>, Seq<char>, Seq<char>),
    Seq<char>,
>
    decreases reads.len(),
{
    if reads.len() == 0 {
        Err(not_found_message())
    } else {
        match read_decision(reads[0]) {
            Some(d) => d,
            None => search_outcome(reads.drop_first()),
        }
    }
}

/// A lockfile result as character sequences.
pub open spec fn lockfile_result_view(r: Result<Lockfile, String>) -> Result<
    (Seq<char>, Seq<char>, Seq<char>),
    Seq<char>,
> {
    match r {
        Ok(l) => Ok(lockfile_view(l)),
        Err(e) => Err(e@),
    }
}

/// Whether one candidate settles the search, and how.
pub fn lockfile_step(read: &LockfileRead) -> (r: Option<Result<Lockfile, String>>)
    ensures
        match r {
            Some(x) => read_decision(*read) == Some(lockfile_result_view(x)),
            None => read_decision(*read) is None,
        },
{
    match read {
        LockfileRead::Missing => None,
        LockfileRead::Unreadable(e) => {
            let mut m = String::from_str("Nie mogę odczytać lockfile: ");
            m.append(e.as_str());
            Some(Err(m))
        },
        LockfileRead::Contents(raw) => match parse_lockfile(raw.as_str()) {
            Some(l) => Some(Ok(l)),
            None => None,
        },
    }
}

/// The lockfile found by looking at the candidates in order.
pub fn choose_lockfile(reads: &Vec<LockfileRead>) -> (r: Result<Lockfile, String>)
    ensures
        lockfile_result_view(r) == search_outcome(reads@),
{
    let n = reads.len();
    let mut i: usize = 0;
    assert(reads@.subrange(0, n as int) =~= reads@);
    while i < n
        invariant
            n == reads@.len(),
            i <= n,
            search_outcome(reads@) == search_outcome(reads@.subrange(i as int, n as int)),
        decreases n - i,
    {
        let ghost rest = reads@.subrange(i as int, n as int);
        assert(rest.drop_first() =~= reads@.subrange(i + 1, n as int));
        assert(rest[0] == reads@[i as int]);
        match lockfile_step(&reads[i]) {
            Some(d) => {
                return d;
            },
            None => {},
        }
        i = i + 1;
    }
    Err(String::from_str("Nie znaleziono lockfile klienta LoL"))
}


/// The lockfile that the client writes, `name:pid:port:password:protocol`,
/// reads back as its port, password and protocol, when no field holds `:`
/// and the text has no white space at its ends.
pub proof fn law_lockfile_fields_read_back(
    name: Seq<char>,
    pid: Seq<char>,
    port: Seq<char>,
    password: Seq<char>,
    protocol: Seq<char>,
)
    requires
        !name.contains(':'),
        !pid.contains(':'),
        !port.contains(':'),
        !password.contains(':'),
        !protocol.contains(':'),
        trim_spec(
            name + seq![':'] + pid + seq![':'] + port + seq![':'] + password + seq![':'] + protocol,
        ) == name + seq![':'] + pid + seq![':'] + port + seq![':'] + password + seq![':']
            + protocol,
    ensures
        parse_lockfile_spec(
            name + seq![':'] + pid + seq![':'] + port + seq![':'] + password + seq![':'] + protocol,
        ) == Some((port, password, protocol)),
{
    let c = ':';
    let s1 = name + seq![c] + pid;
    let s2 = s1 + seq![c] + port;
    let s3 = s2 + seq![c] + password;
    let s4 = s3 + seq![c] + protocol;
    lemma_split_without(name, c);
    lemma_split_append(name, pid, c);
    lemma_split_append(s1, port, c);
    lemma_split_append(s2, password, c);
    lemma_split_append(s3, protocol, c);
    assert(split_spec(s4, c) =~= seq![name, pid, port, password, protocol]);
}

} // verus!
