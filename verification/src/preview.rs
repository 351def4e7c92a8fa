//! What a request comes to once variables and authentication are filled in.
//!
//! Filling them in happens outside; this is what comes back, and what can be
//! told from it.
use vstd::prelude::*;

use crate::document::{Request, RequestModel};
use crate::text::{
    lower, lower_text, pairs_view, push_text, same_ignoring_case, same_text, texts,
};

verus! {

broadcast use vstd::string::group_string_axioms;

/// A request as it would be sent, and the names of the headers and query
/// parameters that its authentication added.
#[derive(Debug, PartialEq, Eq)]
pub struct BrowsingPreview {
    pub request: Request,
    /// In small letters.
    pub auth_headers: Vec<String>,
    pub auth_query: Vec<String>,
}

#[verifier::ext_equal]
pub struct BrowsingPreviewModel {
    pub request: RequestModel,
    pub auth_headers: Seq<Seq<char>>,
    pub auth_query: Seq<Seq<char>>,
}

impl View for BrowsingPreview {
    type V = BrowsingPreviewModel;

    open spec fn view(&self) -> BrowsingPreviewModel {
        BrowsingPreviewModel {
            request: self.request@,
            auth_headers: texts(self.auth_headers@),
            auth_query: texts(self.auth_query@),
        }
    }
}

/// A request with its variables filled in, before and after its
/// authentication was.
#[derive(Debug, PartialEq, Eq)]
pub struct AuthPreview {
    pub substituted: Request,
    pub resolved: Request,
}

#[verifier::ext_equal]
pub struct AuthPreviewModel {
    pub substituted: RequestModel,
    pub resolved: RequestModel,
}

impl View for AuthPreview {
    type V = AuthPreviewModel;

    open spec fn view(&self) -> AuthPreviewModel {
        AuthPreviewModel { substituted: self.substituted@, resolved: self.resolved@ }
    }
}

/// Whether two names name the same thing: letter for letter, or in capital or
/// small letters alike.
pub open spec fn same_name(a: Seq<char>, b: Seq<char>, fold: bool) -> bool {
    if fold {
        lower(a) == lower(b)
    } else {
        a == b
    }
}

/// Whether one of the pairs has a name.
pub open spec fn names(pairs: Seq<(Seq<char>, Seq<char>)>, name: Seq<char>, fold: bool) -> bool {
    exists|i: int| 0 <= i < pairs.len() && same_name((#[trigger] pairs[i]).0, name, fold)
}

/// The pairs of `after` whose name no pair of `before` has, in order.
pub open spec fn added(
    before: Seq<(Seq<char>, Seq<char>)>,
    after: Seq<(Seq<char>, Seq<char>)>,
    fold: bool,
) -> Seq<(Seq<char>, Seq<char>)>
    decreases after.len(),
{
    if after.len() == 0 {
        Seq::empty()
    } else {
        let rest = added(before, after.drop_last(), fold);
        if names(before, after.last().0, fold) {
            rest
        } else {
            rest.push(after.last())
        }
    }
}

/// Whether one of the pairs has a name.
fn has_name(pairs: &Vec<(String, String)>, name: &str, fold: bool) -> (r: bool)
    ensures
        r == names(pairs_view(pairs@), name@, fold),
{
    let ghost model = pairs_view(pairs@);
    let mut i: usize = 0;
    while i < pairs.len()
        invariant
            i <= pairs@.len(),
            model == pairs_view(pairs@),
            forall|j: int| 0 <= j < i ==> !same_name((#[trigger] model[j]).0, name@, fold),
        decreases pairs@.len() - i,
    {
        let same = if fold {
            same_ignoring_case(pairs[i].0.as_str(), name)
        } else {
            same_text(pairs[i].0.as_str(), name)
        };
        assert(model[i as int].0 == pairs@[i as int].0@);
        if same {
            return true;
        }
        i = i + 1;
    }
    false
}

/// The pairs of `after` whose name no pair of `before` has, in order.
pub fn added_pairs(
    before: &Vec<(String, String)>,
    after: &Vec<(String, String)>,
    fold: bool,
) -> (r: Vec<(String, String)>)
    ensures
        pairs_view(r@) == added(pairs_view(before@), pairs_view(after@), fold),
{
    let ghost old_pairs = pairs_view(before@);
    let ghost new_pairs = pairs_view(after@);
    let mut r: Vec<(String, String)> = Vec::new();
    let mut i: usize = 0;
    assert(pairs_view(r@) =~= Seq::empty());
    while i < after.len()
        invariant
            i <= after@.len(),
            old_pairs == pairs_view(before@),
            new_pairs == pairs_view(after@),
            pairs_view(r@) == added(old_pairs, new_pairs.take(i as int), fold),
        decreases after@.len() - i,
    {
        proof {
            let next = new_pairs.take(i + 1);
            assert(next.drop_last() =~= new_pairs.take(i as int));
            assert(next.last() == (after@[i as int].0@, after@[i as int].1@));
        }
        if !has_name(before, after[i].0.as_str(), fold) {
            let ghost so_far = pairs_view(r@);
            r.push((after[i].0.clone(), after[i].1.clone()));
            assert(pairs_view(r@) =~= so_far.push(new_pairs[i as int]));
        }
        i = i + 1;
    }
    assert(new_pairs.take(i as int) =~= new_pairs);
    r
}

/// The names of the pairs, in small letters where `fold` says so.
pub open spec fn names_of(pairs: Seq<(Seq<char>, Seq<char>)>, fold: bool) -> Seq<Seq<char>> {
    Seq::new(
        pairs.len(),
        |i: int|
            if fold {
                lower(pairs[i].0)
            } else {
                pairs[i].0
            },
    )
}

fn pair_names(pairs: &Vec<(String, String)>, fold: bool) -> (r: Vec<String>)
    ensures
        texts(r@) == names_of(pairs_view(pairs@), fold),
{
    let mut r: Vec<String> = Vec::new();
    let mut i: usize = 0;
    while i < pairs.len()
        invariant
            i <= pairs@.len(),
            texts(r@) =~= names_of(pairs_view(pairs@), fold).take(i as int),
        decreases pairs@.len() - i,
    {
        let name = if fold {
            lower_text(pairs[i].0.as_str())
        } else {
            pairs[i].0.clone()
        };
        push_text(&mut r, name);
        i = i + 1;
    }
    r
}

/// The names of the headers, in small letters, and of the query parameters
/// that a request has gained.
pub open spec fn added_names(
    before: RequestModel,
    after: RequestModel,
) -> (Seq<Seq<char>>, Seq<Seq<char>>) {
    (
        names_of(added(before.headers, after.headers, true), true),
        names_of(added(before.query, after.query, false), false),
    )
}

/// The names of the headers, in small letters, and of the query parameters
/// that resolving a request's authentication has added to it.
pub fn added_by_auth_names(before: &Request, after: &Request) -> (r: (Vec<String>, Vec<String>))
    ensures
        (texts(r.0@), texts(r.1@)) == added_names(before@, after@),
{
    (
        pair_names(&added_pairs(&before.headers, &after.headers, true), true),
        pair_names(&added_pairs(&before.query, &after.query, false), false),
    )
}

} // verus!
