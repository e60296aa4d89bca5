//! Addresses of the Riot API, the local client API, Data Dragon and the
//! public profile sites.

use vstd::prelude::*;
use vstd::utf8::encode_utf8;
use crate::text::{decimal, decimal_spec, replace_char, replace_spec};
use crate::labels::{opgg_region, opgg_region_spec};

verus! {

/// Bytes that percent-encoding leaves as they are: ASCII letters, digits and `-` `.` `_` `~`.
pub open spec fn unreserved(b: u8) -> bool {
    ||| 48 <= b <= 57
    ||| 65 <= b <= 90
    ||| 97 <= b <= 122
    ||| b == 45
    ||| b == 46
    ||| b == 95
    ||| b == 126
}

/// The upper-case hexadecimal digit of `d` (`d < 16`).
pub open spec fn hex_digit(d: int) -> char {
    if d < 10 {
        (48 + d) as char
    } else {
        (55 + d) as char
    }
}

/// Percent-encoding of a byte string: unreserved bytes stay, every other
/// byte becomes `%` and two upper-case hexadecimal digits.
pub open spec fn percent_encode_bytes(bytes: Seq<u8>) -> Seq<char>
    decreases bytes.len(),
{
    if bytes.len() == 0 {
        Seq::<char>::empty()
    } else {
        let b = bytes.last();
        percent_encode_bytes(bytes.drop_last()) + if unreserved(b) {
            seq![b as char]
        } else {
            seq!['%', hex_digit((b / 16) as int), hex_digit((b % 16) as int)]
        }
    }
}

/// Percent-encoding of the UTF-8 bytes of `s`.
pub open spec fn url_encoded(s: Seq<char>) -> Seq<char> {
    percent_encode_bytes(encode_utf8(s))
}

/// Calls `urlencoding::encode`, which percent-encodes every UTF-8 byte of its
/// input except ASCII letters, digits and `-` `.` `_` `~`, writing the two
/// hexadecimal digits in upper case.
#[verifier::external_body]
fn url_encode(s: &str) -> (r: String)
    ensures
        r@ == url_encoded(s@),
{
    urlencoding::encode(s).into_owned()
}

/// Riot account lookup by Riot ID.
pub fn account_url(region: &str, game_name: &str, tag_line: &str) -> (r: String)
    ensures
        r@ == "https://"@ + region@ + ".api.riotgames.com/riot/account/v1/accounts/by-riot-id/"@
            + url_encoded(game_name@) + "/"@ + url_encoded(tag_line@),
{
    let mut r = String::from_str("https://");
    r.append(region);
    r.append(".api.riotgames.com/riot/account/v1/accounts/by-riot-id/");
    r.append(url_encode(game_name).as_str());
    r.append("/");
    r.append(url_encode(tag_line).as_str());
    r
}

/// Summoner lookup by PUUID on a platform.
pub fn summoner_url(platform: &str, puuid: &str) -> (r: String)
    ensures
        r@ == "https://"@ + platform@ + ".api.riotgames.com/lol/summoner/v4/summoners/by-puuid/"@
            + puuid@,
{
    let mut r = String::from_str("https://");
    r.append(platform);
    r.append(".api.riotgames.com/lol/summoner/v4/summoners/by-puuid/");
    r.append(puuid);
    r
}

/// Ranked league entries of a summoner on a platform.
pub fn league_url(platform: &str, summoner_id: &str) -> (r: String)
    ensures
        r@ == "https://"@ + platform@ + ".api.riotgames.com/lol/league/v4/entries/by-summoner/"@
            + summoner_id@,
{
    let mut r = String::from_str("https://");
    r.append(platform);
    r.append(".api.riotgames.com/lol/league/v4/entries/by-summoner/");
    r.append(summoner_id);
    r
}

/// The ids of a player's latest ranked solo-queue matches (queue 420).
pub fn match_ids_url(region: &str, puuid: &str, count: u32) -> (r: String)
    ensures
        r@ == "https://"@ + region@ + ".api.riotgames.com/lol/match/v5/matches/by-puuid/"@
            + puuid@ + "/ids?queue=420&start=0&count="@ + decimal_spec(count as nat),
{
    let mut r = String::from_str("https://");
    r.append(region);
    r.append(".api.riotgames.com/lol/match/v5/matches/by-puuid/");
    r.append(puuid);
    r.append("/ids?queue=420&start=0&count=");
    r.append(decimal(count as u64).as_str());
    r
}

/// One match by id.
pub fn match_url(region: &str, match_id: &str) -> (r: String)
    ensures
        r@ == "https://"@ + region@ + ".api.riotgames.com/lol/match/v5/matches/"@ + match_id@,
{
    let mut r = String::from_str("https://");
    r.append(region);
    r.append(".api.riotgames.com/lol/match/v5/matches/");
    r.append(match_id);
    r
}

/// The champion list of a Data Dragon version.
pub fn champion_data_url(version: &str) -> (r: String)
    ensures
        r@ == "https://ddragon.leagueoflegends.com/cdn/"@ + version@
            + "/data/en_US/champion.json"@,
{
    let mut r = String::from_str("https://ddragon.leagueoflegends.com/cdn/");
    r.append(version);
    r.append("/data/en_US/champion.json");
    r
}

/// The square icon of a champion in a Data Dragon version.
pub fn champion_icon_url(version: &str, key: &str) -> (r: String)
    ensures
        r@ == "https://ddragon.leagueoflegends.com/cdn/"@ + version@ + "/img/champion/"@ + key@
            + ".png"@,
{
    let mut r = String::from_str("https://ddragon.leagueoflegends.com/cdn/");
    r.append(version);
    r.append("/img/champion/");
    r.append(key);
    r.append(".png");
    r
}

/// The error for a Riot API answer whose status is not a success.
pub fn riot_status_error(url: &str, status: &str) -> (r: String)
    ensures
        r@ == "Riot API "@ + url@ + " -> "@ + status@,
{
    let mut r = String::from_str("Riot API ");
    r.append(url);
    r.append(" -> ");
    r.append(status);
    r
}

/// Links to a player's pages on op.gg, u.gg, deeplol.gg and mmradar.gg.
pub struct ProfileLinks {
    pub opgg_url: String,
    pub ugg_url: String,
    pub deeplol_url: String,
    pub mmradar_url: String,
}

/// The Riot ID as the profile sites write it: `#` becomes `-`, then percent-encoded.
pub open spec fn site_slug(riot_id: Seq<char>) -> Seq<char> {
    url_encoded(replace_spec(riot_id, '#', "-"@))
}

/// Links to a player's pages on the profile sites, by platform and Riot ID.
pub fn profile_links(platform: &str, riot_id: &str) -> (r: ProfileLinks)
    ensures
        r.opgg_url@ == "https://op.gg/lol/summoners/"@ + opgg_region_spec(platform@) + "/"@
            + site_slug(riot_id@),
        r.ugg_url@ == "https://u.gg/lol/profile/"@ + platform@ + "/"@ + site_slug(riot_id@)
            + "//overview"@,
        r.deeplol_url@ == "https://www.deeplol.gg/summoner/"@ + opgg_region_spec(platform@) + "/"@
            + site_slug(riot_id@),
        r.mmradar_url@ == "https://mmradar.gg/summoner/"@ + site_slug(riot_id@) + "?search=1"@,
{
    let region_slug = opgg_region(platform);
    let dashed = replace_char(riot_id, '#', "-");
    let slug = url_encode(dashed.as_str());
    let mut opgg = String::from_str("https://op.gg/lol/summoners/");
    opgg.append(region_slug.as_str());
    opgg.append("/");
    opgg.append(slug.as_str());
    let mut ugg = String::from_str("https://u.gg/lol/profile/");
    ugg.append(platform);
    ugg.append("/");
    ugg.append(slug.as_str());
    ugg.append("//overview");
    let mut deeplol = String::from_str("https://www.deeplol.gg/summoner/");
    deeplol.append(region_slug.as_str());
    deeplol.append("/");
    deeplol.append(slug.as_str());
    let mut mmradar = String::from_str("https://mmradar.gg/summoner/");
    mmradar.append(slug.as_str());
    mmradar.append("?search=1");
    ProfileLinks { opgg_url: opgg, ugg_url: ugg, deeplol_url: deeplol, mmradar_url: mmradar }
}

} // verus!
