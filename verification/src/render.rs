//! The reporter: renders the status records as the fixed-width text report.
//!
//! Each line carries the base name left-aligned to 25 characters, the mass
//! right-aligned to 3, the stability score to two decimal places, and the
//! classification label. The report opens with a fixed header line. Printing
//! is left to the caller; everything here returns strings pinned down by the
//! spec functions below.

use crate::scan::{status_models, WorldStatus, WorldStatusModel};
use crate::stability::{spec_classification, spec_hundredths, Classification, Stability};
use vstd::prelude::*;

verus! {

/// The width the name column is padded to.
pub const NAME_WIDTH: usize = 25;

/// The width the mass column is padded to.
pub const MASS_WIDTH: usize = 3;

/// The single decimal digit `d` as text.
pub open spec fn spec_digit_str(d: u64) -> Seq<char> {
    if d == 0 {
        "0"@
    } else if d == 1 {
        "1"@
    } else if d == 2 {
        "2"@
    } else if d == 3 {
        "3"@
    } else if d == 4 {
        "4"@
    } else if d == 5 {
        "5"@
    } else if d == 6 {
        "6"@
    } else if d == 7 {
        "7"@
    } else if d == 8 {
        "8"@
    } else {
        "9"@
    }
}

/// The decimal rendering of `n`, without sign or leading zeros (`0` itself
/// renders as one digit).
pub open spec fn spec_digits(n: u64) -> Seq<char>
    decreases n,
{
    if n < 10 {
        spec_digit_str(n)
    } else {
        spec_digits(n / 10) + spec_digit_str(n % 10)
    }
}

/// `n` spaces.
pub open spec fn spec_spaces(n: nat) -> Seq<char>
    decreases n,
{
    if n == 0 {
        Seq::empty()
    } else {
        spec_spaces((n - 1) as nat) + " "@
    }
}

/// `s` left-aligned in a field of `width` characters: padded with spaces on
/// the right, or left as it is when already at least that wide.
pub open spec fn spec_left_aligned(s: Seq<char>, width: nat) -> Seq<char> {
    if s.len() >= width {
        s
    } else {
        s + spec_spaces((width - s.len()) as nat)
    }
}

/// `s` right-aligned in a field of `width` characters: padded with spaces on
/// the left, or left as it is when already at least that wide.
pub open spec fn spec_right_aligned(s: Seq<char>, width: nat) -> Seq<char> {
    if s.len() >= width {
        s
    } else {
        spec_spaces((width - s.len()) as nat) + s
    }
}

/// The label of a classification.
pub open spec fn spec_label(c: Classification) -> Seq<char> {
    match c {
        Classification::Stable => "STABLE"@,
        Classification::Falling => "FALLING"@,
        Classification::CollisionWarning => "COLLISION WARNING"@,
    }
}

/// The stability score whose remaining seconds are `remaining_secs`, rounded
/// to hundredths and rendered with two decimal places: `1.00` down to `0.00`.
pub open spec fn spec_rendered_score(remaining_secs: u64) -> Seq<char> {
    let h = spec_hundredths(remaining_secs);
    spec_digits(h / 100) + "."@ + spec_digit_str(h % 100 / 10) + spec_digit_str(h % 10)
}

/// The report line for one status record.
pub open spec fn spec_render_line(w: WorldStatusModel) -> Seq<char> {
    spec_left_aligned(w.name, NAME_WIDTH as nat) + " | Mass: "@ + spec_right_aligned(
        spec_digits(w.mass),
        MASS_WIDTH as nat,
    ) + " | Health: "@ + spec_rendered_score(w.stability) + " ["@ + spec_label(
        spec_classification(w.stability),
    ) + "]"@
}

/// The header line of the report.
pub open spec fn spec_header() -> Seq<char> {
    "--- ORBITAL STABILITY REPORT ---"@
}

/// The whole report: the header line, then one line per status record, in
/// order.
pub open spec fn spec_report(ws: Seq<WorldStatusModel>) -> Seq<Seq<char>> {
    seq![spec_header()] + ws.map_values(|w: WorldStatusModel| spec_render_line(w))
}

/// The views of a sequence of lines, element by element.
pub open spec fn line_views(lines: Seq<String>) -> Seq<Seq<char>> {
    lines.map_values(|line: String| line@)
}

/// The single decimal digit `d` as a fresh string.
pub fn digit_string(d: u64) -> (r: String)
    requires
        d < 10,
    ensures
        r@ == spec_digit_str(d),
{
    if d == 0 {
        String::from_str("0")
    } else if d == 1 {
        String::from_str("1")
    } else if d == 2 {
        String::from_str("2")
    } else if d == 3 {
        String::from_str("3")
    } else if d == 4 {
        String::from_str("4")
    } else if d == 5 {
        String::from_str("5")
    } else if d == 6 {
        String::from_str("6")
    } else if d == 7 {
        String::from_str("7")
    } else if d == 8 {
        String::from_str("8")
    } else {
        String::from_str("9")
    }
}

/// The decimal rendering of `n`.
pub fn u64_string(n: u64) -> (r: String)
    ensures
        r@ == spec_digits(n),
    decreases n,
{
    if n < 10 {
        digit_string(n)
    } else {
        let mut r = u64_string(n / 10);
        let last = digit_string(n % 10);
        r.append(last.as_str());
        r
    }
}

/// `n` spaces as a fresh string.
pub fn spaces(n: usize) -> (r: String)
    ensures
        r@ == spec_spaces(n as nat),
{
    let mut r = String::new();
    let mut i: usize = 0;
    while i < n
        invariant
            i <= n,
            r@ == spec_spaces(i as nat),
        decreases n - i,
    {
        r.append(" ");
        i = i + 1;
    }
    r
}

/// `s` left-aligned in a field of `width` characters.
pub fn left_aligned(s: String, width: usize) -> (r: String)
    ensures
        r@ == spec_left_aligned(s@, width as nat),
{
    let n: usize = s.as_str().unicode_len();
    if n >= width {
        s
    } else {
        let mut r = s;
        let pad = spaces(width - n);
        r.append(pad.as_str());
        r
    }
}

/// `s` right-aligned in a field of `width` characters.
pub fn right_aligned(s: String, width: usize) -> (r: String)
    ensures
        r@ == spec_right_aligned(s@, width as nat),
{
    let n: usize = s.as_str().unicode_len();
    if n >= width {
        s
    } else {
        let mut r = spaces(width - n);
        r.append(s.as_str());
        r
    }
}

/// The label of a classification as a fresh string.
pub fn classification_label(c: Classification) -> (r: String)
    ensures
        r@ == spec_label(c),
{
    match c {
        Classification::Stable => String::from_str("STABLE"),
        Classification::Falling => String::from_str("FALLING"),
        Classification::CollisionWarning => String::from_str("COLLISION WARNING"),
    }
}

/// The stability score rendered with two decimal places.
pub fn score_string(s: &Stability) -> (r: String)
    ensures
        r@ == spec_rendered_score(s@),
{
    let h = s.hundredths();
    let mut r = u64_string(h / 100);
    r.append(".");
    let tenths = digit_string(h % 100 / 10);
    r.append(tenths.as_str());
    let units = digit_string(h % 10);
    r.append(units.as_str());
    r
}

/// The report line for one status record.
pub fn render_line(w: &WorldStatus) -> (r: String)
    ensures
        r@ == spec_render_line(w@),
{
    let mut r = left_aligned(w.name.clone(), NAME_WIDTH);
    r.append(" | Mass: ");
    let mass = right_aligned(u64_string(w.mass), MASS_WIDTH);
    r.append(mass.as_str());
    r.append(" | Health: ");
    let score = score_string(&w.stability);
    r.append(score.as_str());
    r.append(" [");
    let label = classification_label(w.stability.classification());
    r.append(label.as_str());
    r.append("]");
    proof {
        assert(r@ =~= spec_render_line(w@));
    }
    r
}

/// The header line of the report as a fresh string.
pub fn report_header() -> (r: String)
    ensures
        r@ == spec_header(),
{
    String::from_str("--- ORBITAL STABILITY REPORT ---")
}

/// The whole report, one string per line: the header, then one line per
/// status record, in order.
pub fn render_report(worlds: &Vec<WorldStatus>) -> (r: Vec<String>)
    ensures
        line_views(r@) == spec_report(status_models(worlds@)),
{
    let ghost modeled: Seq<WorldStatusModel> = status_models(worlds@);
    let mut r: Vec<String> = Vec::new();
    r.push(report_header());
    proof {
        assert(line_views(r@) =~= spec_report(modeled.take(0)));
    }
    let mut i: usize = 0;
    let n: usize = worlds.len();
    while i < n
        invariant
            i <= n,
            n == worlds@.len(),
            modeled == status_models(worlds@),
            line_views(r@) == spec_report(modeled.take(i as int)),
        decreases n - i,
    {
        let ghost before: Seq<Seq<char>> = line_views(r@);
        let line = render_line(&worlds[i]);
        r.push(line);
        proof {
            assert(line_views(r@) =~= before.push(spec_render_line(modeled[i as int])));
            assert(spec_report(modeled.take(i + 1)) =~= spec_report(modeled.take(i as int)).push(
                spec_render_line(modeled[i as int]),
            ));
        }
        i = i + 1;
    }
    proof {
        assert(modeled.take(n as int) =~= modeled);
    }
    r
}

} // verus!
