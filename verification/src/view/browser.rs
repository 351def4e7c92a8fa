//! The list of requests, and what is shown beside it of the selected one.
use std::collections::HashSet;

use vstd::prelude::*;

use crate::document::{Document, DocumentModel, RequestModel};
use crate::preview::{BrowsingPreview, BrowsingPreviewModel};
use crate::text::{
    chars_of, contains_name, copy_str, decimal, decimal_string, find_char, first_index, join,
    join_texts, lower, lower_text, one_text, pairs_view, push_text, push_texts, split,
    split_text, string_of, texts,
};
use crate::update::{matching, matching_request_indices};
use crate::view::response::REDACTED_CAPTURE_VALUE;
use crate::view::{error_text, format_error};

verus! {

broadcast use {vstd::std_specs::hash::group_hash_axioms, vstd::string::group_string_axioms};

/// How many characters are shown of a body.
pub const MAX_BODY_PREVIEW_CHARS: usize = 2000;

// ---------------------------------------------------------------------------
// The list
// ---------------------------------------------------------------------------

/// One line of the list: whether the request has unsaved changes, and what it
/// is.
#[derive(Debug, PartialEq, Eq)]
pub struct RequestRow {
    pub dirty: bool,
    pub text: String,
}

#[verifier::ext_equal]
pub struct RequestRowModel {
    pub dirty: bool,
    pub text: Seq<char>,
}

impl View for RequestRow {
    type V = RequestRowModel;

    open spec fn view(&self) -> RequestRowModel {
        RequestRowModel { dirty: self.dirty, text: self.text@ }
    }
}

/// The list of requests. Where no request is listed, `notice` says so.
#[derive(Debug, PartialEq, Eq)]
pub struct RequestList {
    pub title: String,
    pub rows: Vec<RequestRow>,
    /// The line of the selected request, or the first.
    pub highlighted: usize,
    pub notice: Option<String>,
}

#[verifier::ext_equal]
pub struct RequestListModel {
    pub title: Seq<char>,
    pub rows: Seq<RequestRowModel>,
    pub highlighted: int,
    pub notice: Option<Seq<char>>,
}

/// A list of rows by value.
pub open spec fn request_rows_view(v: Seq<RequestRow>) -> Seq<RequestRowModel> {
    Seq::new(v.len(), |i: int| v[i]@)
}

impl View for RequestList {
    type V = RequestListModel;

    open spec fn view(&self) -> RequestListModel {
        RequestListModel {
            title: self.title@,
            rows: request_rows_view(self.rows@),
            highlighted: self.highlighted as int,
            notice: crate::text::opt_text(self.notice),
        }
    }
}

/// The indices of the requests that are listed: all, or those whose names
/// match.
pub open spec fn listed(document: DocumentModel, query: Option<Seq<char>>) -> Seq<usize> {
    match query {
        Some(query) => matching(document, query),
        None => Seq::new(document.requests().len(), |i: int| i as usize),
    }
}

/// The line of a request in the list: a mark where it has unsaved changes, its
/// method and its name.
pub open spec fn request_line(request: RequestModel, dirty: bool) -> Seq<char> {
    (if dirty {
        "*"@
    } else {
        " "@
    }) + request.method.text() + " "@ + (match request.name {
        Some(name) => name,
        None => "(unnamed)"@,
    })
}

/// The lines of the listed requests.
pub open spec fn request_lines(
    requests: Seq<RequestModel>,
    indices: Seq<usize>,
    dirty: Set<usize>,
) -> Seq<RequestRowModel> {
    Seq::new(
        indices.len(),
        |i: int|
            RequestRowModel {
                dirty: dirty.contains(indices[i]),
                text: request_line(requests[indices[i] as int], dirty.contains(indices[i])),
            },
    )
}

/// The title of the list: what is searched for and how many of the requests
/// match, while it is filtered.
pub open spec fn list_title(query: Option<Seq<char>>, shown: nat, total: nat) -> Seq<char> {
    match query {
        Some(query) => " Requests — filter: \""@ + query + "\" ("@ + decimal(shown) + "/"@
            + decimal(total) + ") "@,
        None => " Requests "@,
    }
}

/// The list of requests.
pub open spec fn request_list_for(
    document: DocumentModel,
    selected: usize,
    dirty: Set<usize>,
    query: Option<Seq<char>>,
) -> RequestListModel {
    let indices = listed(document, query);
    RequestListModel {
        title: list_title(query, indices.len(), document.requests().len()),
        rows: request_lines(document.requests(), indices, dirty),
        highlighted: if indices.contains(selected) {
            crate::update::first_at(indices, selected)
        } else {
            0
        },
        notice: if indices.len() == 0 {
            Some("(no requests match this filter)"@)
        } else {
            None
        },
    }
}

/// Every listed index is that of a request.
proof fn lemma_listed_in_range(requests: Seq<RequestModel>, query: Seq<char>, n: nat)
    requires
        n <= requests.len() <= usize::MAX,
    ensures
        crate::update::matching_upto(requests, query, n).len() <= n,
        forall|i: int|
            0 <= i < crate::update::matching_upto(requests, query, n).len()
                ==> #[trigger] crate::update::matching_upto(requests, query, n)[i] < n,
    decreases n,
{
    if n > 0 {
        lemma_listed_in_range(requests, query, (n - 1) as nat);
    }
}

/// The indices of the requests that are listed: all, or those whose names
/// match.
fn listed_indices(document: &Document, query: Option<&str>) -> (r: Vec<usize>)
    ensures
        r@ == listed(
            document@,
            match query {
                Some(q) => Some(q@),
                None => None,
            },
        ),
        forall|i: int| 0 <= i < r@.len() ==> #[trigger] r@[i] < document@.requests().len(),
{
    match query {
        Some(query) => {
            let n: usize = document.len();
            proof {
                lemma_listed_in_range(document@.requests(), query@, n as nat);
            }
            matching_request_indices(document, query)
        },
        None => {
            let n: usize = document.len();
            let mut r: Vec<usize> = Vec::new();
            let mut i: usize = 0;
            while i < n
                invariant
                    i <= n,
                    n == document@.requests().len(),
                    r@ =~= Seq::new(i as nat, |j: int| j as usize),
                decreases n - i,
            {
                r.push(i);
                i = i + 1;
            }
            r
        },
    }
}

/// The list of requests, only those whose names match `query` where one is
/// given, with the selected one highlighted and those with unsaved changes
/// marked.
pub fn request_list(
    document: &Document,
    selected: usize,
    dirty_requests: &HashSet<usize>,
    query: Option<&str>,
) -> (r: RequestList)
    ensures
        r@ == request_list_for(
            document@,
            selected,
            dirty_requests@,
            match query {
                Some(q) => Some(q@),
                None => None,
            },
        ),
{
    let indices = listed_indices(document, query);
    let ghost requests = document@.requests();
    let ghost lines = request_lines(requests, indices@, dirty_requests@);
    let mut rows: Vec<RequestRow> = Vec::new();
    let mut highlighted: usize = 0;
    let mut found = false;
    let mut i: usize = 0;
    while i < indices.len()
        invariant
            i <= indices@.len(),
            requests == document@.requests(),
            forall|j: int| 0 <= j < indices@.len() ==> #[trigger] indices@[j] < requests.len(),
            lines == request_lines(requests, indices@, dirty_requests@),
            request_rows_view(rows@) =~= lines.take(i as int),
            found ==> highlighted < i && indices@[highlighted as int] == selected && (forall|j: int|
                0 <= j < highlighted ==> indices@[j] != selected),
            !found ==> highlighted == 0 && (forall|j: int|
                0 <= j < i ==> indices@[j] != selected),
        decreases indices@.len() - i,
    {
        let index: usize = indices[i];
        let dirty = dirty_requests.contains(&index);
        let mut text = copy_str(
            if dirty {
                "*"
            } else {
                " "
            },
        );
        if let Some(request) = document.get(index) {
            text.append(request.method.as_str());
            text.append(" ");
            match &request.name {
                Some(name) => text.append(name.as_str()),
                None => text.append("(unnamed)"),
            }
        }
        let ghost so_far = request_rows_view(rows@);
        let row = RequestRow { dirty, text };
        assert(row@ == lines[i as int]);
        rows.push(row);
        assert(request_rows_view(rows@) =~= so_far.push(lines[i as int]));
        if !found && index == selected {
            found = true;
            highlighted = i;
        }
        i = i + 1;
    }
    proof {
        if found {
            crate::update::lemma_first_at(indices@, selected, highlighted as int);
            assert(indices@.contains(selected));
        }
    }
    let title = match query {
        Some(query) => {
            let mut title = " Requests — filter: \"".to_owned();
            title.append(query);
            title.append("\" (");
            title.append(decimal_string(indices.len() as u64).as_str());
            title.append("/");
            title.append(decimal_string(document.len() as u64).as_str());
            title.append(") ");
            title
        },
        None => " Requests ".to_owned(),
    };
    let notice = if indices.len() == 0 {
        Some("(no requests match this filter)".to_owned())
    } else {
        None
    };
    RequestList { title, rows, highlighted, notice }
}

// ---------------------------------------------------------------------------
// The preview
// ---------------------------------------------------------------------------

/// A query parameter, its value redacted where it has one of the names.
pub open spec fn masked_pair(pair: Seq<char>, names: Seq<Seq<char>>) -> Seq<char> {
    let end = first_index(pair, '=');
    if end < pair.len() && names.contains(pair.take(end)) {
        pair.take(end) + "="@ + "<redacted>"@
    } else {
        pair
    }
}

/// A list of query parameters, their values redacted where they have one of
/// the names.
pub open spec fn masked_pairs(pairs: Seq<Seq<char>>, names: Seq<Seq<char>>) -> Seq<Seq<char>> {
    Seq::new(pairs.len(), |i: int| masked_pair(pairs[i], names))
}

/// An address with the values of the query parameters redacted that have one
/// of the names, unless they are revealed.
pub open spec fn masked_url(url: Seq<char>, names: Seq<Seq<char>>, reveal: bool) -> Seq<char> {
    let start = first_index(url, '?');
    if reveal || names.len() == 0 || start == url.len() {
        url
    } else {
        url.take(start) + "?"@ + join(
            masked_pairs(split(url.skip(start + 1), '&'), names),
            "&"@,
        )
    }
}

fn mask_pair(pair: &str, names: &Vec<String>) -> (r: String)
    ensures
        r@ == masked_pair(pair@, texts(names@)),
{
    let v = chars_of(pair);
    let end = find_char(&v, 0, '=');
    assert(v@.skip(0) =~= v@);
    if end < v.len() {
        let key = string_of(&v, 0, end);
        assert(key@ =~= pair@.take(end as int));
        if contains_name(names, key.as_str()) {
            let mut masked = key;
            masked.append("=");
            masked.append(REDACTED_CAPTURE_VALUE);
            return masked;
        }
    }
    copy_str(pair)
}

/// An address with the values of the query parameters redacted that have one
/// of the names, unless they are revealed.
pub fn mask_auth_derived_query_params(url: &str, names: &Vec<String>, reveal: bool) -> (r: String)
    ensures
        r@ == masked_url(url@, texts(names@), reveal),
{
    assert(texts(names@).len() == names@.len());
    if reveal || names.len() == 0 {
        return copy_str(url);
    }
    let v = chars_of(url);
    let start = find_char(&v, 0, '?');
    assert(v@.skip(0) =~= v@);
    let total: usize = v.len();
    if start == total {
        return copy_str(url);
    }
    let query = string_of(&v, start + 1, total);
    assert(query@ =~= url@.skip(start + 1));
    let pairs = split_text(query.as_str(), '&');
    let ghost model = texts(pairs@);
    let ghost masked_model = masked_pairs(model, texts(names@));
    let mut masked: Vec<String> = Vec::new();
    let mut i: usize = 0;
    while i < pairs.len()
        invariant
            i <= pairs@.len(),
            model == texts(pairs@),
            masked_model == masked_pairs(model, texts(names@)),
            texts(masked@) =~= masked_model.take(i as int),
        decreases pairs@.len() - i,
    {
        assert(model[i as int] == pairs@[i as int]@);
        push_text(&mut masked, mask_pair(pairs[i].as_str(), names));
        i = i + 1;
    }
    assert(masked_model.take(i as int) =~= masked_model);
    let mut text = string_of(&v, 0, start);
    assert(text@ =~= url@.take(start as int));
    text.append("?");
    text.append(join_texts(&masked, "&").as_str());
    text
}

/// What is shown of a body, and whether that is not all of it.
pub open spec fn truncated(body: Seq<char>) -> (Seq<char>, bool) {
    if body.len() <= MAX_BODY_PREVIEW_CHARS {
        (body, false)
    } else {
        (body.take(MAX_BODY_PREVIEW_CHARS as int), true)
    }
}

/// What is shown of a body, and whether that is not all of it.
pub fn truncate_body(body: &str) -> (r: (String, bool))
    ensures
        (r.0@, r.1) == truncated(body@),
{
    let v = chars_of(body);
    if v.len() <= MAX_BODY_PREVIEW_CHARS {
        (copy_str(body), false)
    } else {
        let shown = string_of(&v, 0, MAX_BODY_PREVIEW_CHARS);
        assert(shown@ =~= body@.take(MAX_BODY_PREVIEW_CHARS as int));
        (shown, true)
    }
}

/// The line of a header, its value redacted where its name is one of `names`
/// and it is not revealed.
pub open spec fn preview_header_line(
    header: (Seq<char>, Seq<char>),
    names: Seq<Seq<char>>,
    reveal: bool,
) -> Seq<char> {
    "  "@ + header.0 + ": "@ + (if !reveal && names.contains(lower(header.0)) {
        "<redacted>"@
    } else {
        header.1
    })
}

/// The lines about the headers of a request.
pub open spec fn preview_header_lines(
    headers: Seq<(Seq<char>, Seq<char>)>,
    names: Seq<Seq<char>>,
    reveal: bool,
) -> Seq<Seq<char>> {
    if headers.len() == 0 {
        seq!["  (none)"@]
    } else {
        Seq::new(headers.len(), |i: int| preview_header_line(headers[i], names, reveal))
    }
}

/// The lines about the body of a request.
pub open spec fn preview_body_lines(body: Option<Seq<char>>) -> Seq<Seq<char>> {
    match body {
        Some(body) => if body.len() == 0 {
            seq!["  (none)"@]
        } else if truncated(body).1 {
            seq![
                truncated(body).0,
                "... [truncated to "@ + decimal(MAX_BODY_PREVIEW_CHARS as nat) + " characters]"@,
            ]
        } else {
            seq![truncated(body).0]
        },
        None => seq!["  (none)"@],
    }
}

/// The lines about a request as it would be sent.
pub open spec fn preview_lines(preview: BrowsingPreviewModel, reveal: bool) -> Seq<Seq<char>> {
    seq![
        "Method: "@ + preview.request.method.text(),
        "URL:    "@ + masked_url(preview.request.url, preview.auth_query, reveal),
        ""@,
        "Headers:"@,
    ] + preview_header_lines(preview.request.headers, preview.auth_headers, reveal) + seq![
        ""@,
        "Body:"@,
    ] + preview_body_lines(preview.request.body)
}

/// A request as it would be sent, what its authentication added redacted
/// unless it is revealed.
pub open spec fn preview_text(preview: BrowsingPreviewModel, reveal: bool) -> Seq<char> {
    join(preview_lines(preview, reveal), "\n"@)
}

fn preview_header_texts(
    headers: &Vec<(String, String)>,
    names: &Vec<String>,
    reveal: bool,
) -> (r: Vec<String>)
    ensures
        texts(r@) == preview_header_lines(pairs_view(headers@), texts(names@), reveal),
{
    if headers.len() == 0 {
        return one_text("  (none)".to_owned());
    }
    let ghost model = pairs_view(headers@);
    let ghost shown = preview_header_lines(model, texts(names@), reveal);
    let mut r: Vec<String> = Vec::new();
    let mut i: usize = 0;
    while i < headers.len()
        invariant
            i <= headers@.len(),
            headers@.len() > 0,
            model == pairs_view(headers@),
            shown == preview_header_lines(model, texts(names@), reveal),
            texts(r@) =~= shown.take(i as int),
        decreases headers@.len() - i,
    {
        let name = headers[i].0.as_str();
        let masked = !reveal && contains_name(names, lower_text(name).as_str());
        let mut line = "  ".to_owned();
        line.append(name);
        line.append(": ");
        line.append(
            if masked {
                REDACTED_CAPTURE_VALUE
            } else {
                headers[i].1.as_str()
            },
        );
        assert(line@ == preview_header_line(model[i as int], texts(names@), reveal));
        push_text(&mut r, line);
        i = i + 1;
    }
    r
}

/// A request as it would be sent, what its authentication added redacted
/// unless it is revealed.
pub fn format_resolved_request(preview: &BrowsingPreview, reveal: bool) -> (r: String)
    ensures
        r@ == preview_text(preview@, reveal),
{
    let request = &preview.request;
    let mut method = "Method: ".to_owned();
    method.append(request.method.as_str());
    let mut url = "URL:    ".to_owned();
    url.append(
        mask_auth_derived_query_params(request.url.as_str(), &preview.auth_query, reveal).as_str(),
    );
    let mut shown = one_text(method);
    push_text(&mut shown, url);
    push_text(&mut shown, "".to_owned());
    push_text(&mut shown, "Headers:".to_owned());
    push_texts(
        &mut shown,
        preview_header_texts(&request.headers, &preview.auth_headers, reveal),
    );
    push_text(&mut shown, "".to_owned());
    push_text(&mut shown, "Body:".to_owned());
    let ghost so_far = texts(shown@);
    match &request.body {
        Some(body) => {
            if body.as_str().unicode_len() == 0 {
                push_text(&mut shown, "  (none)".to_owned());
            } else {
                let (text, cut) = truncate_body(body.as_str());
                push_text(&mut shown, text);
                if cut {
                    let mut note = "... [truncated to ".to_owned();
                    note.append(decimal_string(MAX_BODY_PREVIEW_CHARS as u64).as_str());
                    note.append(" characters]");
                    push_text(&mut shown, note);
                }
            }
        },
        None => push_text(&mut shown, "  (none)".to_owned()),
    }
    assert(texts(shown@) =~= so_far + preview_body_lines(preview@.request.body));
    assert(texts(shown@) =~= preview_lines(preview@, reveal));
    join_texts(&shown, "\n")
}

/// What is said of a request that could not be resolved against the named
/// environment, or against none.
pub open spec fn unresolved_text(environment: Option<Seq<char>>, error: Seq<char>) -> Seq<char> {
    match environment {
        Some(name) => error_text(
            "Could not resolve preview against environment '"@ + name + "'"@,
            error,
        ),
        None => error_text("Could not resolve preview (no environment selected yet)"@, error),
    }
}

/// What is said of a request that could not be resolved against the named
/// environment, or against none.
pub fn format_unresolved(environment: Option<&str>, error: &str) -> (r: String)
    ensures
        r@ == unresolved_text(
            match environment {
                Some(name) => Some(name@),
                None => None,
            },
            error@,
        ),
{
    match environment {
        Some(name) => {
            let mut heading = "Could not resolve preview against environment '".to_owned();
            heading.append(name);
            heading.append("'");
            format_error(heading.as_str(), error)
        },
        None => format_error("Could not resolve preview (no environment selected yet)", error),
    }
}

} // verus!
