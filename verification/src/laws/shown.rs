//! Laws of what is shown: what is redacted tells nothing, no panel is scrolled
//! past its end, and runs that were forgotten are told of in the last row.
use vstd::prelude::*;

use crate::preview::BrowsingPreviewModel;
use crate::run::{CaptureReport, CaptureResult, RunHistoryEntry, RunOutcome};
use crate::state::HistoryOverlayModel;
use crate::text::{first_index, join, lemma_first_index, lower, split};
use crate::view::browser::{
    masked_pair, masked_pairs, masked_url, preview_header_line, preview_header_lines,
    preview_lines, preview_text,
};
use crate::view::layout::history_parts;
use crate::view::response::{
    capture_line, captures_text, clamped_scroll, dropped_notice, entry_lines,
    history_for, larger, run_text,
};
use crate::view::Area;

verus! {

// ---------------------------------------------------------------------------
// Captures
// ---------------------------------------------------------------------------

/// Whether two captures came to the same but for what was captured.
pub open spec fn same_but_value(a: CaptureResult, b: CaptureResult) -> bool {
    &&& a.variable@ == b.variable@
    &&& a.path@ == b.path@
    &&& match (a.value, b.value) {
        (Ok(_), Ok(_)) => true,
        (Err(x), Err(y)) => x@ == y@,
        _ => false,
    }
}

/// Whether two lists of captures came to the same but for what was captured.
pub open spec fn same_but_values(a: CaptureReport, b: CaptureReport) -> bool {
    &&& a.results@.len() == b.results@.len()
    &&& forall|i: int|
        0 <= i < a.results@.len() ==> same_but_value(
            #[trigger] a.results@[i],
            #[trigger] b.results@[i],
        )
}

/// What is said of captures that are not revealed does not depend on what was
/// captured.
pub proof fn law_redacted_captures_tell_nothing(a: CaptureReport, b: CaptureReport)
    requires
        same_but_values(a, b),
    ensures
        captures_text(a, false) == captures_text(b, false),
{
    let left = Seq::new(a.results@.len(), |i: int| capture_line(a.results@[i], false));
    let right = Seq::new(b.results@.len(), |i: int| capture_line(b.results@[i], false));
    assert forall|i: int| 0 <= i < left.len() implies left[i] == right[i] by {
        assert(same_but_value(a.results@[i], b.results@[i]));
    }
    assert(left =~= right);
}

/// What is said of captures that all failed is the same whether they are
/// revealed or not.
pub proof fn law_failed_captures_are_never_redacted(report: CaptureReport)
    requires
        forall|i: int|
            0 <= i < report.results@.len() ==> (#[trigger] report.results@[i]).value is Err,
    ensures
        captures_text(report, true) == captures_text(report, false),
{
    let results = report.results@;
    let shown = Seq::new(results.len(), |i: int| capture_line(results[i], true));
    let hidden = Seq::new(results.len(), |i: int| capture_line(results[i], false));
    assert(shown =~= hidden);
}

/// What is said of a run whose captures are not revealed does not depend on
/// what was captured.
pub proof fn law_redacted_runs_tell_nothing(a: RunOutcome, b: RunOutcome)
    requires
        a.result == b.result,
        a.assertions == b.assertions,
        same_but_values(a.capture, b.capture),
    ensures
        run_text(a, false) == run_text(b, false),
{
    law_redacted_captures_tell_nothing(a.capture, b.capture);
}

/// The lines of a past run in the list do not depend on what was captured,
/// expanded or not.
pub proof fn law_the_list_of_past_runs_tells_nothing(
    a: RunHistoryEntry,
    b: RunHistoryEntry,
    expanded: bool,
    now: int,
)
    requires
        a.completed_at == b.completed_at,
        a.outcome.result == b.outcome.result,
        a.outcome.assertions == b.outcome.assertions,
        same_but_values(a.outcome.capture, b.outcome.capture),
    ensures
        entry_lines(a, expanded, now) == entry_lines(b, expanded, now),
{
    law_redacted_captures_tell_nothing(a.outcome.capture, b.outcome.capture);
}

// ---------------------------------------------------------------------------
// The preview of a request
// ---------------------------------------------------------------------------

/// A query parameter as it is written.
pub open spec fn written_pair(pair: (Seq<char>, Seq<char>)) -> Seq<char> {
    pair.0 + "="@ + pair.1
}

/// Query parameters as they are written.
pub open spec fn written_pairs(pairs: Seq<(Seq<char>, Seq<char>)>) -> Seq<Seq<char>> {
    Seq::new(pairs.len(), |i: int| written_pair(pairs[i]))
}

/// An address with query parameters.
pub open spec fn address(base: Seq<char>, pairs: Seq<(Seq<char>, Seq<char>)>) -> Seq<char> {
    base + "?"@ + join(written_pairs(pairs), "&"@)
}

/// Whether query parameters can be told apart when they are written.
pub open spec fn writable(pairs: Seq<(Seq<char>, Seq<char>)>) -> bool {
    forall|i: int|
        0 <= i < pairs.len() ==> {
            &&& !(#[trigger] pairs[i]).0.contains('=')
            &&& !pairs[i].0.contains('&')
            &&& !pairs[i].1.contains('&')
        }
}

/// Whether two lists of names and values differ in no more than the values of
/// the names that are hidden.
pub open spec fn same_but_hidden(
    a: Seq<(Seq<char>, Seq<char>)>,
    b: Seq<(Seq<char>, Seq<char>)>,
    hidden: spec_fn(Seq<char>) -> bool,
) -> bool {
    &&& a.len() == b.len()
    &&& forall|i: int|
        0 <= i < a.len() ==> {
            &&& (#[trigger] a[i]).0 == (#[trigger] b[i]).0
            &&& hidden(a[i].0) || a[i].1 == b[i].1
        }
}

proof fn lemma_first_index_is(s: Seq<char>, sep: char, k: int)
    requires
        0 <= k <= s.len(),
        forall|j: int| 0 <= j < k ==> s[j] != sep,
        k < s.len() ==> s[k] == sep,
    ensures
        first_index(s, sep) == k,
{
    lemma_first_index(s, sep);
    let i = first_index(s, sep);
    if i < k {
        assert(s[i] != sep);
    }
    if k < i {
        assert(s[k] != sep);
    }
}

proof fn lemma_absent(s: Seq<char>, sep: char)
    requires
        !s.contains(sep),
    ensures
        first_index(s, sep) == s.len(),
        split(s, sep) == seq![s],
{
    assert(forall|j: int| 0 <= j < s.len() ==> s[j] != sep);
    lemma_first_index_is(s, sep, s.len() as int);
}

/// What is split at a separator that two texts are joined by is what each of
/// them is split into.
proof fn lemma_split_joined(s: Seq<char>, sep: char, t: Seq<char>)
    ensures
        split(s + seq![sep] + t, sep) == split(s, sep) + split(t, sep),
    decreases s.len(),
{
    let whole = s + seq![sep] + t;
    lemma_first_index(s, sep);
    let i = first_index(s, sep);
    if i < s.len() {
        assert forall|j: int| 0 <= j < i implies whole[j] != sep by {
            assert(whole[j] == s[j]);
        }
        assert(whole[i] == s[i]);
        lemma_first_index_is(whole, sep, i);
        let rest = s.skip(i + 1);
        lemma_split_joined(rest, sep, t);
        assert(whole.take(i) =~= s.take(i));
        assert(whole.skip(i + 1) =~= rest + seq![sep] + t);
        assert(split(whole, sep) =~= split(s, sep) + split(t, sep));
    } else {
        assert forall|j: int| 0 <= j < s.len() implies whole[j] != sep by {
            assert(whole[j] == s[j]);
        }
        assert(whole[s.len() as int] == sep);
        lemma_first_index_is(whole, sep, s.len() as int);
        assert(whole.take(s.len() as int) =~= s);
        assert(whole.skip(s.len() as int + 1) =~= t);
        assert(split(whole, sep) =~= split(s, sep) + split(t, sep));
    }
}

/// What is joined by `&` splits into its parts again.
proof fn lemma_join_splits(parts: Seq<Seq<char>>)
    requires
        parts.len() > 0,
        forall|i: int| 0 <= i < parts.len() ==> !(#[trigger] parts[i]).contains('&'),
    ensures
        split(join(parts, "&"@), '&') == parts,
    decreases parts.len(),
{
    reveal_strlit("&");
    assert("&"@ =~= seq!['&']);
    if parts.len() == 1 {
        lemma_absent(parts[0], '&');
        assert(seq![parts[0]] =~= parts);
    } else {
        let front = parts.drop_last();
        assert forall|i: int| 0 <= i < front.len() implies !(#[trigger] front[i]).contains('&') by {
            assert(front[i] == parts[i]);
        }
        lemma_join_splits(front);
        assert(parts.last() == parts[parts.len() - 1]);
        lemma_absent(parts.last(), '&');
        lemma_split_joined(join(front, "&"@), '&', parts.last());
        assert(front + seq![parts.last()] =~= parts);
    }
}

proof fn lemma_written_pair(pair: (Seq<char>, Seq<char>), names: Seq<Seq<char>>)
    requires
        !pair.0.contains('='),
        !pair.0.contains('&'),
        !pair.1.contains('&'),
    ensures
        !written_pair(pair).contains('&'),
        masked_pair(written_pair(pair), names) == (if names.contains(pair.0) {
            pair.0 + "="@ + "<redacted>"@
        } else {
            written_pair(pair)
        }),
{
    reveal_strlit("=");
    assert("="@ =~= seq!['=']);
    let written = written_pair(pair);
    let end = pair.0.len() as int;
    assert forall|j: int| 0 <= j < written.len() implies written[j] != '&' by {
        if j < end {
            assert(written[j] == pair.0[j]);
        } else if j > end {
            assert(written[j] == pair.1[j - end - 1]);
        }
    }
    assert forall|j: int| 0 <= j < end implies written[j] != '=' by {
        assert(written[j] == pair.0[j]);
    }
    assert(written[end] == '=');
    lemma_first_index_is(written, '=', end);
    assert(written.take(end) =~= pair.0);
}

/// An address whose redacted parameters are not revealed does not depend on
/// their values.
pub proof fn law_a_redacted_address_tells_nothing(
    base: Seq<char>,
    a: Seq<(Seq<char>, Seq<char>)>,
    b: Seq<(Seq<char>, Seq<char>)>,
    names: Seq<Seq<char>>,
)
    requires
        !base.contains('?'),
        writable(a),
        writable(b),
        same_but_hidden(a, b, |name: Seq<char>| names.contains(name)),
    ensures
        masked_url(address(base, a), names, false) == masked_url(address(base, b), names, false),
{
    if names.len() == 0 {
        assert(a =~= b);
    } else if a.len() > 0 {
        lemma_address(base, a);
        lemma_address(base, b);
        let left = masked_pairs(written_pairs(a), names);
        let right = masked_pairs(written_pairs(b), names);
        assert forall|i: int| 0 <= i < left.len() implies left[i] == right[i] by {
            assert(a[i].0 == b[i].0);
            lemma_written_pair(a[i], names);
            lemma_written_pair(b[i], names);
        }
        assert(left =~= right);
    } else {
        assert(a =~= b);
    }
}

proof fn lemma_address(base: Seq<char>, pairs: Seq<(Seq<char>, Seq<char>)>)
    requires
        !base.contains('?'),
        writable(pairs),
        pairs.len() > 0,
    ensures
        first_index(address(base, pairs), '?') == base.len(),
        address(base, pairs).len() > base.len(),
        address(base, pairs).take(base.len() as int) == base,
        split(address(base, pairs).skip(base.len() as int + 1), '&') == written_pairs(pairs),
{
    reveal_strlit("?");
    assert("?"@ =~= seq!['?']);
    let written = written_pairs(pairs);
    let url = address(base, pairs);
    let query = join(written, "&"@);
    assert forall|j: int| 0 <= j < base.len() implies url[j] != '?' by {
        assert(url[j] == base[j]);
    }
    assert(url[base.len() as int] == '?');
    lemma_first_index_is(url, '?', base.len() as int);
    assert(url.take(base.len() as int) =~= base);
    assert(url.skip(base.len() as int + 1) =~= query);
    assert forall|i: int| 0 <= i < written.len() implies !(#[trigger] written[i]).contains('&') by {
        lemma_written_pair(pairs[i], Seq::empty());
    }
    lemma_join_splits(written);
}

/// A preview that is not revealed does not depend on the values of the headers
/// and query parameters that authentication added. The address may be any where
/// authentication added nothing to it.
pub proof fn law_a_redacted_preview_tells_nothing(
    a: BrowsingPreviewModel,
    b: BrowsingPreviewModel,
    base: Seq<char>,
    query_a: Seq<(Seq<char>, Seq<char>)>,
    query_b: Seq<(Seq<char>, Seq<char>)>,
)
    requires
        a.request.method == b.request.method,
        a.request.body == b.request.body,
        a.auth_headers == b.auth_headers,
        a.auth_query == b.auth_query,
        same_but_hidden(
            a.request.headers,
            b.request.headers,
            |name: Seq<char>| a.auth_headers.contains(lower(name)),
        ),
        a.request.url == b.request.url || {
            &&& !base.contains('?')
            &&& writable(query_a)
            &&& writable(query_b)
            &&& same_but_hidden(query_a, query_b, |name: Seq<char>| a.auth_query.contains(name))
            &&& a.request.url == address(base, query_a)
            &&& b.request.url == address(base, query_b)
        },
    ensures
        preview_text(a, false) == preview_text(b, false),
{
    if a.request.url != b.request.url {
        law_a_redacted_address_tells_nothing(base, query_a, query_b, a.auth_query);
    }
    let left = preview_header_lines(a.request.headers, a.auth_headers, false);
    let right = preview_header_lines(b.request.headers, b.auth_headers, false);
    assert forall|i: int| 0 <= i < a.request.headers.len() implies preview_header_line(
        a.request.headers[i],
        a.auth_headers,
        false,
    ) == preview_header_line(b.request.headers[i], b.auth_headers, false) by {
        assert(a.request.headers[i].0 == b.request.headers[i].0);
    }
    assert(left =~= right);
    assert(preview_lines(a, false) =~= preview_lines(b, false));
}

// ---------------------------------------------------------------------------
// Scrolling
// ---------------------------------------------------------------------------

/// A panel is never scrolled past the line that fills its last row, and stays
/// where it was scrolled to up to there.
pub proof fn law_a_panel_is_never_scrolled_past_its_end(scroll: int, total: int, height: int)
    requires
        0 <= scroll,
        0 <= total,
        0 <= height,
    ensures
        0 <= clamped_scroll(scroll, total, height) <= scroll,
        clamped_scroll(scroll, total, height) + larger(height, 1) <= larger(
            total,
            larger(height, 1),
        ),
        scroll + larger(height, 1) <= total ==> clamped_scroll(scroll, total, height) == scroll,
        total <= larger(height, 1) ==> clamped_scroll(scroll, total, height) == 0,
{
}

// ---------------------------------------------------------------------------
// Forgotten runs
// ---------------------------------------------------------------------------

/// Under a list of past runs, the last row inside its border says how many
/// were forgotten, where some were; where none was, the list has every row and
/// nothing is said.
pub proof fn law_forgotten_runs_are_told_of_in_the_last_row(
    entries: Seq<RunHistoryEntry>,
    dropped: int,
    overlay: HistoryOverlayModel,
    now: int,
    height: int,
    inner: Area,
)
    requires
        entries.len() > 0,
        dropped >= 0,
        overlay.viewing is None,
        inner.height >= 1,
        inner.y + inner.height <= u16::MAX,
    ensures
        ({
            let view = history_for(entries, dropped, overlay, now, height);
            &&& view is Entries
            &&& view->dropped == dropped_notice(dropped)
            &&& dropped == 0 ==> view->dropped is None && history_parts(view, inner) == (
                inner,
                None::<Area>,
            )
            &&& dropped > 0 ==> view->dropped is Some && history_parts(view, inner) == (
                Area { height: (inner.height - 1) as u16, ..inner },
                Some(Area { y: (inner.y + inner.height - 1) as u16, height: 1, ..inner }),
            )
        }),
{
}

} // verus!
