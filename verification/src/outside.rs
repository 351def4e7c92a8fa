//! The calls into `serde_json`, `serde_yaml` and `ratatui` and into the standard
//! library's paths, and the names that contracts give to what they return.
use ratatui::layout::{Constraint, Direction, Layout, Rect};
use vstd::prelude::*;

use crate::paths::{file_stem, ordinary, parent};
use crate::view::Area;
use crate::view::layout::{
    Along, Share, can_be_met, grown_between, grown_first, one_grows_between, one_grows_first,
    part_at, percent_before, slice_of,
};

verus! {

/// What reading a text as one JSON value gives: the value as compact JSON
/// text, or the reader's message.
pub uninterp spec fn json_read(text: Seq<char>) -> Result<Seq<char>, Seq<char>>;

/// A JSON text written out over indented lines; nothing when it is no JSON.
pub uninterp spec fn json_indented(text: Seq<char>) -> Option<Seq<char>>;

/// The reader's message about a text that is no YAML value; nothing when it
/// is one.
pub uninterp spec fn yaml_problem(text: Seq<char>) -> Option<Seq<char>>;

/// A result over strings as a result over characters.
pub open spec fn result_text(r: Result<String, String>) -> Result<Seq<char>, Seq<char>> {
    match r {
        Ok(s) => Ok(s@),
        Err(s) => Err(s@),
    }
}

/// `serde_json::from_str`, read as a `serde_json::Value`: the value comes back
/// as the compact text of its `Display`, the error as the text of its own. The
/// result is a function of the text alone; which texts are JSON is left to the
/// name.
#[verifier::external_body]
pub(crate) fn read_json(text: &str) -> (r: Result<String, String>)
    ensures
        result_text(r) == json_read(text@),
{
    match serde_json::from_str::<serde_json::Value>(text) {
        Ok(value) => Ok(value.to_string()),
        Err(error) => Err(error.to_string()),
    }
}

/// `serde_json::to_string_pretty` over what `serde_json::from_str` reads: a
/// function of the text alone, and nothing where the text is no JSON. How the
/// lines are indented is left to the name.
#[verifier::external_body]
pub(crate) fn indent_json(text: &str) -> (r: Option<String>)
    ensures
        crate::text::opt_text(r) == json_indented(text@),
        json_read(text@) is Err ==> r is None,
{
    match serde_json::from_str::<serde_json::Value>(text) {
        Ok(value) => serde_json::to_string_pretty(&value).ok(),
        Err(_) => None,
    }
}

/// `serde_yaml::from_str`, read as a `serde_yaml::Value`: only whether it
/// succeeds and, where it does not, the text of the error. A function of the
/// text alone; which texts are YAML is left to the name.
#[verifier::external_body]
pub(crate) fn yaml_error(text: &str) -> (r: Option<String>)
    ensures
        crate::text::opt_text(r) == yaml_problem(text@),
{
    match serde_yaml::from_str::<serde_yaml::Value>(text) {
        Ok(_) => None,
        Err(error) => Some(error.to_string()),
    }
}

/// `std::path::Path::parent`: the path without its final component; nothing
/// for a path that ends in a root and for the empty one. Trailing separators
/// and `.` components do not count. What separates components, and what stands
/// before the first, depends on the machine: only paths that every machine
/// reads alike are spoken of.
#[verifier::external_body]
pub(crate) fn parent_of(path: &str) -> (r: Option<String>)
    ensures
        ordinary(path@) ==> crate::text::opt_text(r) == parent(path@),
{
    std::path::Path::new(path).parent().and_then(|dir| dir.to_str()).map(|dir| dir.to_owned())
}

/// `std::path::Path::file_stem`: the final component up to its last `.`, the
/// whole of it where it has none or begins with its only one, and nothing
/// where there is none or it is `..`. Of paths that not every machine reads
/// alike nothing is said.
#[verifier::external_body]
pub(crate) fn stem_of(path: &str) -> (r: Option<String>)
    ensures
        ordinary(path@) ==> crate::text::opt_text(r) == file_stem(path@),
{
    std::path::Path::new(path).file_stem().and_then(|stem| stem.to_str()).map(|s| s.to_owned())
}

/// `ratatui::layout::Layout::split`, without margins or spacing: one part for
/// each share, each going through the whole area from side to side, none
/// reaching beyond it. The solver underneath gives up its weakest demands
/// first. Percentages that come to a hundred at most can all be met, and each
/// end is rounded to the nearest cell. Before a length, a part without a least
/// size is left what the length does not take. Between two lengths of one cell
/// it is left what these do not take; where there is one cell for the two,
/// either gets it, for the solver makes no difference between them. How many
/// cells other shares get is left unsaid, as nothing here asks for them.
#[verifier::external_body]
pub(crate) fn split_area(area: Area, along: Along, shares: &Vec<Share>) -> (r: Vec<Area>)
    ensures
        r@.len() == shares@.len(),
        forall|i: int| 0 <= i < r@.len() ==> slice_of(#[trigger] r@[i], area, along),
        can_be_met(shares@) ==> forall|i: int|
            0 <= i < r@.len() ==> #[trigger] r@[i] == part_at(
                area,
                along,
                percent_before(shares@, i),
                percent_before(shares@, i + 1),
            ),
        one_grows_first(shares@) ==> r@ == grown_first(area, along, shares@[1]),
        one_grows_between(shares@) ==> grown_between(r@, area, along),
{
    let direction = match along {
        Along::Down => Direction::Vertical,
        Along::Across => Direction::Horizontal,
    };
    let constraints = shares.iter().map(|share| match share {
        Share::Length(cells) => Constraint::Length(*cells),
        Share::AtLeast(cells) => Constraint::Min(*cells),
        Share::Percentage(hundredths) => Constraint::Percentage(*hundredths),
    });
    let Area { x, y, width, height } = area;
    let parts = Layout::default().direction(direction).constraints(constraints).split(
        Rect { x, y, width, height },
    );
    parts.iter().map(|p| Area { x: p.x, y: p.y, width: p.width, height: p.height }).collect()
}

} // verus!
