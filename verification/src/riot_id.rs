//! Riot IDs of the form `GameName#TAG`.

use vstd::prelude::*;
use crate::text::{
    lemma_split_append, lemma_split_without, split_char, split_spec, strip_leading_spec, trim,
    trim_spec, trim_start_char,
};

verus! {

/// The Riot ID made of a game name and a tag line: `game_name#tag_line`.
pub open spec fn riot_id_spec(game_name: Seq<char>, tag_line: Seq<char>) -> Seq<char> {
    game_name + seq!['#'] + tag_line
}

/// The message with which a malformed Riot ID is refused.
pub open spec fn bad_riot_id_message(input: Seq<char>) -> Seq<char> {
    "Niepoprawny Riot ID: "@ + input
}

/// How `input` splits into a game name and a tag line: it must hold exactly
/// one `#`, and both sides must be non-empty once white space is trimmed.
pub open spec fn split_riot_id_spec(input: Seq<char>) -> Result<(Seq<char>, Seq<char>), Seq<char>> {
    let parts = split_spec(input, '#');
    if parts.len() != 2 || trim_spec(parts[0]).len() == 0 || trim_spec(parts[1]).len() == 0 {
        Err(bad_riot_id_message(input))
    } else {
        Ok((trim_spec(parts[0]), strip_leading_spec(trim_spec(parts[1]), '#')))
    }
}

/// Builds `game_name#tag_line`.
pub fn join_riot_id(game_name: &str, tag_line: &str) -> (r: String)
    ensures
        r@ == riot_id_spec(game_name@, tag_line@),
{
    let mut r = String::from_str(game_name);
    let hash = "#";
    proof {
        reveal_strlit("#");
    }
    r.append(hash);
    r.append(tag_line);
    assert(r@ =~= riot_id_spec(game_name@, tag_line@));
    r
}

/// Splits a Riot ID `GameName#TAG` into its trimmed game name and tag line.
pub fn split_riot_id(input: &str) -> (r: Result<(String, String), String>)
    ensures
        match r {
            Ok((g, t)) => split_riot_id_spec(input@) == Ok::<(Seq<char>, Seq<char>), Seq<char>>(
                (g@, t@),
            ),
            Err(e) => split_riot_id_spec(input@) == Err::<(Seq<char>, Seq<char>), Seq<char>>(e@),
        },
{
    let parts = split_char(input, '#');
    assert(parts@.len() == split_spec(input@, '#').len());
    if parts.len() != 2 {
        let mut e = String::from_str("Niepoprawny Riot ID: ");
        e.append(input);
        return Err(e);
    }
    assert(parts@[0]@ == split_spec(input@, '#')[0]);
    assert(parts@[1]@ == split_spec(input@, '#')[1]);
    let g = trim(parts[0].as_str());
    let t = trim(parts[1].as_str());
    if g.is_empty() || t.is_empty() {
        let mut e = String::from_str("Niepoprawny Riot ID: ");
        e.append(input);
        return Err(e);
    }
    let t2 = trim_start_char(t, '#');
    Ok((String::from_str(g), String::from_str(t2)))
}

/// Stripping leading `c` from a string that does not start with `c` keeps it.
proof fn lemma_strip_leading_noop(s: Seq<char>, c: char)
    requires
        s.len() == 0 || s[0] != c,
    ensures
        strip_leading_spec(s, c) == s,
{
}

/// A game name and a tag line joined by `join_riot_id` split back into the
/// same two parts, when neither holds `#`, neither is empty and neither has
/// white space at its ends.
pub proof fn law_split_join_riot_id(game_name: Seq<char>, tag_line: Seq<char>)
    requires
        !game_name.contains('#'),
        !tag_line.contains('#'),
        trim_spec(game_name) == game_name,
        trim_spec(tag_line) == tag_line,
        game_name.len() > 0,
        tag_line.len() > 0,
    ensures
        split_riot_id_spec(riot_id_spec(game_name, tag_line)) == Ok::<
            (Seq<char>, Seq<char>),
            Seq<char>,
        >((game_name, tag_line)),
{
    lemma_split_append(game_name, tag_line, '#');
    lemma_split_without(game_name, '#');
    assert(tag_line[0] != '#') by {
        if tag_line[0] == '#' {
            assert(tag_line.contains('#'));
        }
    }
    lemma_strip_leading_noop(tag_line, '#');
    let parts = split_spec(riot_id_spec(game_name, tag_line), '#');
    assert(parts =~= seq![game_name, tag_line]);
}

} // verus!
