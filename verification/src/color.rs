//! Terminal colouring of records: the palette, the tint decisions, and the
//! trusted boundary to the ANSI-styling crate.
//!
//! Whether colour codes actually wrap a piece of text depends on the
//! process's terminal detection, so the styling wrappers promise only that
//! the text itself is preserved; which palette entry is chosen is the
//! verified part.

use vstd::prelude::*;
use crate::assignment::{AssignmentImportanceLevel, AssignmentReceptibleState};
use crate::text::{dec_rep, decimal_string};
use colored_text::Colorize;

verus! {

/// Whether `s` is `text` with some (possibly empty) styling prefix and
/// suffix around it.
pub open spec fn wraps(s: Seq<char>, text: Seq<char>) -> bool {
    exists|pre: Seq<char>, post: Seq<char>| s == pre + text + post
}

/// The display palette, as hex colour values.
pub struct AppColor {
    pub white: String,
    pub black: String,
    pub red: String,
    pub blue: String,
    pub aqua: String,
    pub yellow: String,
    pub green: String,
    pub gray: String,
}

impl Default for AppColor {
    /// The built-in palette, from the Everforest colour theme.
    fn default() -> (r: Self)
        ensures
            r.white@ == "D3C6AA"@,
            r.black@ == "272E33"@,
            r.red@ == "E67E80"@,
            r.blue@ == "7FBBB3"@,
            r.aqua@ == "83C092"@,
            r.yellow@ == "DBBC7F"@,
            r.green@ == "A7C080"@,
            r.gray@ == "4F5B58"@,
    {
        AppColor {
            white: "D3C6AA".to_owned(),
            black: "272E33".to_owned(),
            red: "E67E80".to_owned(),
            blue: "7FBBB3".to_owned(),
            aqua: "83C092".to_owned(),
            yellow: "DBBC7F".to_owned(),
            green: "A7C080".to_owned(),
            gray: "4F5B58".to_owned(),
        }
    }
}

/// Relies on colored_text: `Colorize::hex` parses the hex colour and tints
/// the foreground, and rendering the result to a `String` yields either the
/// plain text or the text between an ANSI prefix and the reset suffix,
/// depending on terminal detection and the colour's validity.
#[verifier::external_body]
fn hex_fg(text: &str, color: &str) -> (r: String)
    ensures
        wraps(r@, text@),
{
    text.hex(color).to_string()
}

/// Relies on colored_text: `Colorize::on_hex`, as `hex_fg` but tinting the
/// background.
#[verifier::external_body]
fn hex_bg(text: &str, color: &str) -> (r: String)
    ensures
        wraps(r@, text@),
{
    text.on_hex(color).to_string()
}

/// The palette entry a record's text is tinted with: gray wherever the
/// window is not open; else by the due date's urgency — red for `High`,
/// yellow for `Medium`, aqua for `Low` — and no tint at all for an expired
/// one.
pub open spec fn spec_urgency_color(
    palette: AppColor,
    receptible: AssignmentReceptibleState,
    level: AssignmentImportanceLevel,
) -> Option<Seq<char>> {
    if receptible == AssignmentReceptibleState::NotStarted || receptible
        == AssignmentReceptibleState::Closed {
        Option::Some(palette.gray@)
    } else {
        match level {
            AssignmentImportanceLevel::High => Option::Some(palette.red@),
            AssignmentImportanceLevel::Medium => Option::Some(palette.yellow@),
            AssignmentImportanceLevel::Low => Option::Some(palette.aqua@),
            AssignmentImportanceLevel::Expired => Option::None,
        }
    }
}

/// Picks the palette entry for a record, or `None` where the text stays
/// plain.
fn urgency_color<'a>(
    palette: &'a AppColor,
    receptible: &AssignmentReceptibleState,
    level: &AssignmentImportanceLevel,
) -> (r: Option<&'a String>)
    ensures
        (match r {
            Option::Some(c) => Option::Some(c@),
            Option::None => Option::None,
        }) == spec_urgency_color(*palette, *receptible, *level),
{
    if matches!(
        receptible,
        AssignmentReceptibleState::NotStarted | AssignmentReceptibleState::Closed,
    ) {
        return Some(&palette.gray);
    }
    match level {
        AssignmentImportanceLevel::High => Some(&palette.red),
        AssignmentImportanceLevel::Medium => Some(&palette.yellow),
        AssignmentImportanceLevel::Low => Some(&palette.aqua),
        AssignmentImportanceLevel::Expired => None,
    }
}

/// Tints a record's text for terminal output by its states: the text is
/// always preserved, and stays entirely plain where no tint applies.
pub fn colorize(
    text: &str,
    receptible: &AssignmentReceptibleState,
    level: &AssignmentImportanceLevel,
    palette: &AppColor,
) -> (r: String)
    ensures
        wraps(r@, text@),
        spec_urgency_color(*palette, *receptible, *level) is None ==> r@ == text@,
{
    let r = match urgency_color(palette, receptible, level) {
        Some(c) => hex_fg(text, c.as_str()),
        None => text.to_owned(),
    };
    proof {
        assert(text@ == Seq::<char>::empty() + text@ + Seq::<char>::empty());
    }
    r
}

/// As `colorize`, tinting the background instead.
pub fn colorize_bg(
    text: &str,
    receptible: &AssignmentReceptibleState,
    level: &AssignmentImportanceLevel,
    palette: &AppColor,
) -> (r: String)
    ensures
        wraps(r@, text@),
        spec_urgency_color(*palette, *receptible, *level) is None ==> r@ == text@,
{
    let r = match urgency_color(palette, receptible, level) {
        Some(c) => hex_bg(text, c.as_str()),
        None => text.to_owned(),
    };
    proof {
        assert(text@ == Seq::<char>::empty() + text@ + Seq::<char>::empty());
    }
    r
}

/// Formats the `(urgent/week/normal)` indicator shown beside a course: the
/// three tallies in decimal, each possibly tinted, between the fixed
/// punctuation.
pub fn format_assignment_indicator(
    high: usize,
    medium: usize,
    low: usize,
    palette: &AppColor,
) -> (r: String)
    ensures
        exists|h: Seq<char>, m: Seq<char>, l: Seq<char>|
            {
                &&& wraps(h, dec_rep(high as nat))
                &&& wraps(m, dec_rep(medium as nat))
                &&& wraps(l, dec_rep(low as nat))
                &&& r@ == "("@ + h + "/"@ + m + "/"@ + l + ") "@
            },
{
    let hs = if high > 0 {
        hex_fg(decimal_string(high).as_str(), palette.red.as_str())
    } else {
        hex_fg("0", palette.gray.as_str())
    };
    let ms = if medium > 0 {
        hex_fg(decimal_string(medium).as_str(), palette.yellow.as_str())
    } else {
        hex_fg("0", palette.gray.as_str())
    };
    let ls = if low > 0 {
        hex_fg(decimal_string(low).as_str(), palette.aqua.as_str())
    } else {
        hex_fg("0", palette.gray.as_str())
    };
    proof {
        reveal_strlit("0");
        assert("0"@ =~= dec_rep(0));
    }
    let mut s = "(".to_owned();
    s.append(hs.as_str());
    s.append("/");
    s.append(ms.as_str());
    s.append("/");
    s.append(ls.as_str());
    s.append(") ");
    proof {
        assert(s@ =~= "("@ + hs@ + "/"@ + ms@ + "/"@ + ls@ + ") "@);
        assert(wraps(hs@, dec_rep(high as nat)));
        assert(wraps(ms@, dec_rep(medium as nat)));
        assert(wraps(ls@, dec_rep(low as nat)));
    }
    s
}

/// The first value under `key` among the pairs, if any.
pub open spec fn spec_lookup(pairs: Seq<(Seq<char>, Seq<char>)>, key: Seq<char>) -> Option<
    Seq<char>,
>
    decreases pairs.len(),
{
    if pairs.len() == 0 {
        Option::None
    } else if pairs[0].0 == key {
        Option::Some(pairs[0].1)
    } else {
        spec_lookup(pairs.drop_first(), key)
    }
}

/// The palette entry configured under `key`, or `fallback` where none is.
pub open spec fn spec_color_entry(
    pairs: Seq<(Seq<char>, Seq<char>)>,
    key: Seq<char>,
    fallback: Seq<char>,
) -> Seq<char> {
    match spec_lookup(pairs, key) {
        Option::Some(v) => v,
        Option::None => fallback,
    }
}

/// Finds the first configured value under `key`.
fn lookup<'a>(pairs: &'a Vec<(String, String)>, key: &str) -> (r: Option<&'a String>)
    ensures
        (match r {
            Option::Some(v) => Option::Some(v@),
            Option::None => Option::None,
        }) == spec_lookup(pairs.deep_view(), key@),
{
    let ghost pv = pairs.deep_view();
    let n = pairs.len();
    proof {
        assert(pv.skip(0) =~= pv);
    }
    for i in 0..n
        invariant
            n == pairs@.len(),
            pv == pairs.deep_view(),
            spec_lookup(pv, key@) == spec_lookup(pv.skip(i as int), key@),
    {
        proof {
            assert(pv.skip(i as int)[0] == pv[i as int]);
            assert(pv[i as int] == pairs@[i as int].deep_view());
            assert(pv.skip(i as int).drop_first() =~= pv.skip(i + 1));
        }
        if crate::text::str_eq(pairs[i].0.as_str(), key) {
            return Some(&pairs[i].1);
        }
    }
    proof {
        assert(pv.skip(n as int).len() == 0);
    }
    None
}

/// Builds the palette from configured colour pairs, falling back to the
/// built-in palette entry for every colour left unconfigured.
pub fn create_app_color_from_config(pairs: &Vec<(String, String)>) -> (r: AppColor)
    ensures
        r.white@ == spec_color_entry(pairs.deep_view(), "white"@, "D3C6AA"@),
        r.black@ == spec_color_entry(pairs.deep_view(), "black"@, "272E33"@),
        r.red@ == spec_color_entry(pairs.deep_view(), "red"@, "E67E80"@),
        r.blue@ == spec_color_entry(pairs.deep_view(), "blue"@, "7FBBB3"@),
        r.aqua@ == spec_color_entry(pairs.deep_view(), "aqua"@, "83C092"@),
        r.yellow@ == spec_color_entry(pairs.deep_view(), "yellow"@, "DBBC7F"@),
        r.green@ == spec_color_entry(pairs.deep_view(), "green"@, "A7C080"@),
        r.gray@ == spec_color_entry(pairs.deep_view(), "gray"@, "4F5B58"@),
{
    let mut c = AppColor::default();
    if let Some(v) = lookup(pairs, "white") {
        c.white = v.clone();
    }
    if let Some(v) = lookup(pairs, "black") {
        c.black = v.clone();
    }
    if let Some(v) = lookup(pairs, "red") {
        c.red = v.clone();
    }
    if let Some(v) = lookup(pairs, "blue") {
        c.blue = v.clone();
    }
    if let Some(v) = lookup(pairs, "aqua") {
        c.aqua = v.clone();
    }
    if let Some(v) = lookup(pairs, "yellow") {
        c.yellow = v.clone();
    }
    if let Some(v) = lookup(pairs, "green") {
        c.green = v.clone();
    }
    if let Some(v) = lookup(pairs, "gray") {
        c.gray = v.clone();
    }
    c
}

} // verus!
