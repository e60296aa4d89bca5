//! Display names for Riot positions and platform routing values.

use vstd::prelude::*;
use crate::text::str_eq;

verus! {

/// The display name of a match position (`teamPosition`).
pub open spec fn role_label_spec(role: Seq<char>) -> Seq<char> {
    if role == "TOP"@ {
        "Top"@
    } else if role == "JUNGLE"@ {
        "Jungle"@
    } else if role == "MIDDLE"@ {
        "Mid"@
    } else if role == "BOTTOM"@ {
        "ADC"@
    } else if role == "UTILITY"@ {
        "Support"@
    } else {
        "Mixed"@
    }
}

/// The display name of a match position; any unknown position is "Mixed".
pub fn role_label(role: &str) -> (r: String)
    ensures
        r@ == role_label_spec(role@),
{
    if str_eq(role, "TOP") {
        String::from_str("Top")
    } else if str_eq(role, "JUNGLE") {
        String::from_str("Jungle")
    } else if str_eq(role, "MIDDLE") {
        String::from_str("Mid")
    } else if str_eq(role, "BOTTOM") {
        String::from_str("ADC")
    } else if str_eq(role, "UTILITY") {
        String::from_str("Support")
    } else {
        String::from_str("Mixed")
    }
}

/// The op.gg region slug of a Riot platform id; unknown platforms map to "euw".
pub open spec fn opgg_region_spec(platform: Seq<char>) -> Seq<char> {
    if platform == "euw1"@ {
        "euw"@
    } else if platform == "eun1"@ {
        "eune"@
    } else if platform == "na1"@ {
        "na"@
    } else if platform == "kr"@ {
        "kr"@
    } else if platform == "br1"@ {
        "br"@
    } else if platform == "jp1"@ {
        "jp"@
    } else if platform == "tr1"@ {
        "tr"@
    } else if platform == "ru"@ {
        "ru"@
    } else if platform == "oc1"@ {
        "oce"@
    } else if platform == "la1"@ {
        "lan"@
    } else if platform == "la2"@ {
        "las"@
    } else {
        "euw"@
    }
}

/// The op.gg region slug of a Riot platform id.
pub fn opgg_region(platform: &str) -> (r: String)
    ensures
        r@ == opgg_region_spec(platform@),
{
    let slug = if str_eq(platform, "euw1") {
        "euw"
    } else if str_eq(platform, "eun1") {
        "eune"
    } else if str_eq(platform, "na1") {
        "na"
    } else if str_eq(platform, "kr") {
        "kr"
    } else if str_eq(platform, "br1") {
        "br"
    } else if str_eq(platform, "jp1") {
        "jp"
    } else if str_eq(platform, "tr1") {
        "tr"
    } else if str_eq(platform, "ru") {
        "ru"
    } else if str_eq(platform, "oc1") {
        "oce"
    } else if str_eq(platform, "la1") {
        "lan"
    } else if str_eq(platform, "la2") {
        "las"
    } else {
        "euw"
    };
    String::from_str(slug)
}

} // verus!
