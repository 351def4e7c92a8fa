//! Texts, positions and paths.

use sendra_tui::document::{Assertions, JsonAssertion, JsonOperator, Method, Request};
use sendra_tui::edit::{EditField, EditState};
use sendra_tui::paths::{base_dir_of, FilePath};
use sendra_tui::preview::{AuthPreview, BrowsingPreview};
use sendra_tui::run::{
    AssertionReport, CaptureReport, CaptureResult, Response, RunHistoryEntry, RunOutcome,
};
use sendra_tui::text_field::{TextEdit, TextField};
use sendra_tui::view::edit_form::edit_pane;
use sendra_tui::view::environment::error_rows;
use sendra_tui::view::layout::{
    arrange, centered_rect, history_places, modal, overlay_size, with_errors, with_footer,
};
use sendra_tui::view::response::{
    format_capture_section, format_elapsed, response_panel, HistoryView,
};
use sendra_tui::view::screen::Overlay;
use sendra_tui::view::status::{StatusBar, Tone};
use sendra_tui::view::{inset, Area};

#[test]
fn elapsed_time_is_given_in_its_coarsest_unit() {
    for (when, now, expected) in [
        (5_000, 4_000, "just now"),
        (1_000, 1_999, "just now"),
        (0, 1_000, "1s"),
        (0, 59_999, "59s"),
        (0, 60_000, "1m"),
        (0, 3_599_999, "59m"),
        (0, 3_600_000, "1h"),
        (0, 360_000_000, "100h"),
    ] {
        assert_eq!(format_elapsed(when, now), expected, "{when} to {now}");
    }
}

#[test]
fn half_of_the_rows_at_most_tell_of_errors() {
    assert_eq!(error_rows(0, 20), 0);
    assert_eq!(error_rows(3, 20), 6);
    assert_eq!(error_rows(30, 20), 10);
    assert_eq!(error_rows(1, 1), 0);
    assert_eq!(error_rows(32_768, 20), 10);
    assert_eq!(error_rows(40_000, u16::MAX), 32_767);
    assert_eq!(error_rows(16_000, u16::MAX), 32_000);
    assert_eq!(error_rows(usize::MAX, 3), 1);
}

#[test]
fn an_area_loses_one_cell_on_each_side() {
    assert_eq!(inset(area(2, 3, 10, 5)), area(3, 4, 8, 3));
    assert_eq!(inset(area(0, 0, 1, 2)), area(1, 1, 0, 0));
    assert_eq!(
        inset(area(u16::MAX, 0, 4, 4)),
        area(u16::MAX, 1, 2, 2)
    );
}

fn area(x: u16, y: u16, width: u16, height: u16) -> Area {
    Area {
        x,
        y,
        width,
        height,
    }
}

#[test]
fn what_lies_over_the_screen_stands_in_its_middle() {
    let whole = area(0, 0, 100, 40);
    assert_eq!(centered_rect(60, 30, whole), area(20, 14, 60, 12));
    let shown = modal(60, 30, whole);
    assert_eq!(shown.outer, area(20, 14, 60, 12));
    assert_eq!(shown.inner, area(21, 15, 58, 10));
}

#[test]
fn a_question_takes_less_room_than_the_cheatsheet() {
    assert_eq!(
        overlay_size(&Overlay::Cheatsheet {
            title: String::new(),
            text: String::new(),
        }),
        (80, 90)
    );
    assert_eq!(
        overlay_size(&Overlay::OpenPrompt {
            title: String::new(),
            text: String::new(),
        }),
        (70, 30)
    );
    assert_eq!(
        overlay_size(&Overlay::History(HistoryView::Gone {
            title: String::new(),
            text: String::new(),
        })),
        (85, 85)
    );
}

#[test]
fn there_is_a_row_for_the_tabs_only_where_there_are_several() {
    let one = sendra_tui::view::layout::arrange(area(0, 0, 100, 40), false);
    assert_eq!(one.tabs, None);
    assert_eq!(one.main, area(0, 0, 100, 39));
    assert_eq!(one.list, area(0, 0, 40, 39));
    assert_eq!(one.detail, area(40, 0, 60, 39));
    assert_eq!(one.response, area(40, 0, 60, 38));
    assert_eq!(one.response_footer, area(40, 38, 60, 1));
    assert_eq!(one.status, area(0, 39, 100, 1));

    let several = sendra_tui::view::layout::arrange(area(0, 0, 100, 40), true);
    assert_eq!(several.tabs, Some(area(0, 0, 100, 1)));
    assert_eq!(several.main, area(0, 1, 100, 38));
}

#[test]
fn no_part_reaches_beyond_a_small_screen() {
    for width in 0..12 {
        for height in 0..12 {
            let all = sendra_tui::view::layout::arrange(area(3, 5, width, height), true);
            for part in [
                all.main,
                all.list,
                all.detail,
                all.response,
                all.response_footer,
                all.status,
                all.past_run.outer,
            ] {
                assert!(part.x >= 3 && part.x + part.width <= 3 + width, "{part:?}");
                assert!(part.y >= 5 && part.y + part.height <= 5 + height, "{part:?}");
            }
        }
    }
}

#[test]
fn the_spinner_comes_round_after_eight_steps() {
    let frames: String = (0..9).map(sendra_tui::view::status::spinner_char).collect();
    assert_eq!(frames, "⠋⠙⠹⠸⠼⠴⠦⠧⠋");
}

#[test]
fn a_status_is_read_by_what_it_says() {
    let toned = |text: &str| sendra_tui::view::status::status_bar_line(text);
    assert_eq!(
        toned("Done (200)  |  r run again  |  q quit"),
        StatusBar {
            status: Some(("Done (200)".to_string(), Tone::Success)),
            keys: "r run again  |  q quit".to_string(),
        }
    );
    assert_eq!(toned("Request failed  |  q").status.unwrap().1, Tone::Fail);
    assert_eq!(toned("⠹ Running  |  q").status.unwrap().1, Tone::InProgress);
    assert_eq!(toned("Editing  |  q").status.unwrap().1, Tone::Emphasis);
    assert_eq!(
        toned("q quit"),
        StatusBar {
            status: None,
            keys: "q quit".to_string(),
        }
    );
}

#[test]
fn a_path_gives_its_directory_and_its_stem() {
    for (path, dir, stem) in [
        ("collection.yaml", ".", Some("collection")),
        ("apis/users.v2.yaml", "apis", Some("users.v2")),
        ("/a.yaml", "/", Some("a")),
        ("apis/.hidden", "apis", Some(".hidden")),
        ("apis/..", "apis", None),
        ("", ".", None),
    ] {
        let taken = FilePath::new(path.to_string());
        assert_eq!(taken.text, path);
        assert_eq!(base_dir_of(&taken), dir, "{path}");
        assert_eq!(taken.stem.as_deref(), stem, "{path}");
    }
}

#[test]
fn a_path_is_taken_apart_the_way_the_machine_does() {
    for path in [
        "", "/", ".", "..", "a", "a.", ".a", "a.b.c", "a/", "a//", "a//b", "a/./b", "a/b/.",
        "./a", "../a", "/a", "/a/b.c", "//a", "//server/share/a.yaml", "dir\\a.yaml", "\\a",
        "c:a.yaml", "c:\\dir\\a.yaml", "c:/dir/a.yaml", "a:b/c.d",
    ] {
        let taken = FilePath::new(path.to_string());
        let expected = std::path::Path::new(path);
        assert_eq!(
            taken.parent.as_deref(),
            expected.parent().and_then(|dir| dir.to_str()),
            "{path}"
        );
        assert_eq!(
            taken.stem.as_deref(),
            expected.file_stem().and_then(|stem| stem.to_str()),
            "{path}"
        );
    }
}

#[test]
fn a_file_without_a_directory_of_its_own_starts_from_here() {
    let path = |parent: Option<&str>| FilePath {
        text: "somewhere".to_string(),
        parent: parent.map(str::to_string),
        stem: None,
    };
    assert_eq!(base_dir_of(&path(None)), ".");
    assert_eq!(base_dir_of(&path(Some(""))), ".");
    assert_eq!(base_dir_of(&path(Some("c:\\dir"))), "c:\\dir");
}

#[test]
fn only_the_named_query_parameters_are_redacted() {
    let names = vec!["key".to_string()];
    let masked = |url: &str, reveal: bool| {
        sendra_tui::view::browser::mask_auth_derived_query_params(url, &names, reveal)
    };
    assert_eq!(
        masked("https://e.com/?a=1&key=secret&keys=2&key", false),
        "https://e.com/?a=1&key=<redacted>&keys=2&key"
    );
    assert_eq!(masked("https://e.com/?key=s", true), "https://e.com/?key=s");
    assert_eq!(masked("https://e.com/key=s", false), "https://e.com/key=s");
}

#[test]
fn a_request_is_laid_out_as_it_would_be_sent() {
    let mut request = Request::blank(None);
    request.method = Method::Post;
    request.url = "https://example.com".to_string();
    request.headers = vec![
        ("Accept".to_string(), "text/plain".to_string()),
        ("Authorization".to_string(), "Bearer secret".to_string()),
    ];
    request.body = Some("x".repeat(2001));
    let preview = BrowsingPreview {
        request,
        auth_headers: vec!["authorization".to_string()],
        auth_query: Vec::new(),
    };

    assert_eq!(
        sendra_tui::view::browser::format_resolved_request(&preview, false),
        format!(
            "Method: POST\nURL:    https://example.com\n\nHeaders:\n  Accept: text/plain\n  \
             Authorization: <redacted>\n\nBody:\n{}\n... [truncated to 2000 characters]",
            "x".repeat(2000)
        )
    );
    assert!(
        sendra_tui::view::browser::format_resolved_request(&preview, true)
            .contains("  Authorization: Bearer secret\n")
    );
}

#[test]
fn redacted_captures_read_the_same_whatever_was_captured() {
    let report = |value: Result<&str, &str>| CaptureReport {
        results: vec![CaptureResult {
            variable: "token".to_string(),
            path: "$.token".to_string(),
            value: value.map(str::to_string).map_err(str::to_string),
        }],
    };
    assert_eq!(
        format_capture_section(&report(Ok("one")), false),
        format_capture_section(&report(Ok("two")), false)
    );
    assert_eq!(
        format_capture_section(&report(Ok("one")), false),
        "capture\n  ✓ token from `$.token` = <redacted>"
    );
    assert_eq!(
        format_capture_section(&report(Err("not found")), true),
        "capture\n  ✗ token from `$.token` — not found"
    );
}

#[test]
fn a_panel_says_which_lines_it_shows() {
    let outcome = RunOutcome {
        result: Ok(Response {
            status: 200,
            status_text: "OK".to_string(),
            headers: Vec::new(),
            body: "a\nb\nc".to_string(),
            elapsed_ms: 3,
        }),
        assertions: AssertionReport::default(),
        capture: CaptureReport::default(),
    };
    let panel = response_panel(&outcome, 4, 2, false);
    assert_eq!(
        panel.text,
        "200 OK  3 ms\n\na\nb\nc\nassertions\n  no assertions declared\ncapture\n  no captures \
         declared"
    );
    assert_eq!(panel.scroll, 2);
    assert_eq!(panel.footer, "Line 3-6 of 9 — PgUp/PgDn to scroll");
    assert_eq!(response_panel(&outcome, 4, 900, false).scroll, 5);
    assert_eq!(response_panel(&outcome, 40, 900, false).scroll, 0);
}

#[test]
fn a_text_is_edited_at_its_cursor() {
    let mut field = TextField::new("aé");
    assert_eq!(field.cursor_chars(), 2);
    field.insert_char('x');
    field.move_left();
    field.backspace();
    assert_eq!(field.value(), "ax");
    assert_eq!(field.cursor_chars(), 1);
    field.delete();
    assert_eq!(field.value(), "a");
    field.delete();
    field.move_right();
    assert_eq!(field.value(), "a");
    assert_eq!(field.cursor_chars(), 1);
}

#[test]
fn a_cursor_keeps_its_column_as_far_as_the_line_goes() {
    let mut field = TextField::new("long line\nab\nlonger line");
    assert_eq!(field.cursor_row_col(), (2, 11));
    field.move_up();
    assert_eq!(field.cursor_row_col(), (1, 2));
    field.move_up();
    assert_eq!(field.cursor_row_col(), (0, 2));
    field.move_up();
    assert_eq!(field.cursor_row_col(), (0, 2));
    field.move_down();
    assert_eq!(field.cursor_row_col(), (1, 2));
}

#[test]
fn the_cursor_stands_on_the_text_that_has_the_focus() {
    let mut request = Request::blank(Some("One".to_string()));
    request.url = "https://example.com".to_string();
    request.headers = vec![("Accept".to_string(), "text/plain".to_string())];
    let resolution = Ok(AuthPreview {
        substituted: request.clone(),
        resolved: request.clone(),
    });
    let mut edit = EditState::new(&request);

    let pane = edit_pane(&edit, &request, &resolution, 0);
    assert_eq!(pane.lines[pane.row], "▶ Name:   One");
    assert_eq!(pane.column, "▶ Name:   One".chars().count());

    edit.focus = EditField::HeaderValue(0);
    let pane = edit_pane(&edit, &request, &resolution, 0);
    assert_eq!(pane.lines[pane.row], " [0] Key: Accept   ▶Value: text/plain");
    assert_eq!(pane.column, pane.lines[pane.row].chars().count());
}

#[test]
fn a_value_that_is_no_yaml_is_told_of() {
    let mut request = Request::blank(None);
    request.assertions = Some(Assertions {
        json: vec![JsonAssertion {
            path: "$.a".to_string(),
            operator: JsonOperator::Equals,
            value: "[a, b".to_string(),
            negate: false,
        }],
        others: Vec::new(),
    });
    let mut edit = EditState::new(&request);
    assert_eq!(edit.assertions[0].value_error, None);
    edit.focus = EditField::AssertionValue(0);

    sendra_tui::update::request_edit::edit_form(&mut edit, TextEdit::Insert('!'));
    assert!(edit.assertions[0].value_error.is_some());
    sendra_tui::update::request_edit::edit_form(&mut edit, TextEdit::Backspace);
    sendra_tui::update::request_edit::edit_form(&mut edit, TextEdit::Insert(']'));
    assert_eq!(edit.assertions[0].value_error, None);
}

#[test]
fn a_redacted_preview_reads_the_same_whatever_authentication_added() {
    let shown = |secret: &str, reveal: bool| {
        let mut request = Request::blank(None);
        request.url = format!("https://example.com?page=2&key={secret}");
        request.headers = vec![("X-Token".to_string(), secret.to_string())];
        let preview = BrowsingPreview {
            request,
            auth_headers: vec!["x-token".to_string()],
            auth_query: vec!["key".to_string()],
        };
        sendra_tui::view::browser::format_resolved_request(&preview, reveal)
    };
    assert_eq!(shown("one", false), shown("two", false));
    assert_ne!(shown("one", true), shown("two", true));
}

#[test]
fn a_redacted_header_tells_nothing_whatever_the_address() {
    for url in ["", "?", "no address", "https://example.com?a&&b=c=d#e"] {
        let shown = |secret: &str, reveal: bool| {
            let mut request = Request::blank(None);
            request.url = url.to_string();
            request.headers = vec![("X-Token".to_string(), secret.to_string())];
            let preview = BrowsingPreview {
                request,
                auth_headers: vec!["x-token".to_string()],
                auth_query: Vec::new(),
            };
            sendra_tui::view::browser::format_resolved_request(&preview, reveal)
        };
        assert_eq!(shown("one", false), shown("two", false), "{url}");
        assert_ne!(shown("one", true), shown("two", true), "{url}");
    }
}

#[test]
fn the_list_of_past_runs_reads_the_same_whatever_was_captured() {
    let lines = |value: &str| {
        let entry = RunHistoryEntry {
            completed_at: 0,
            outcome: RunOutcome {
                result: Ok(Response {
                    status: 200,
                    status_text: "OK".to_string(),
                    headers: Vec::new(),
                    body: String::new(),
                    elapsed_ms: 1,
                }),
                assertions: AssertionReport::default(),
                capture: CaptureReport {
                    results: vec![CaptureResult {
                        variable: "token".to_string(),
                        path: "$.token".to_string(),
                        value: Ok(value.to_string()),
                    }],
                },
            },
        };
        sendra_tui::view::response::history_entry_lines(&entry, true, 5_000)
    };
    assert_eq!(lines("one"), lines("two"));
    assert_eq!(lines("one")[0], "v 5s ago  —  200");
    assert_eq!(lines("one")[1], "    200 OK  1 ms");
}

fn span(start: u16, length: u16, from: u64, to: u64) -> (u16, u16) {
    let reach = u64::from(start.saturating_add(length) - start);
    let cell = |percent: u64| u64::from(start) + (percent * reach + 50) / 100;
    (cell(from) as u16, (cell(to) - cell(from)) as u16)
}

fn middle(percent_x: u16, percent_y: u16, whole: Area) -> Area {
    let above = u64::from((100 - percent_y) / 2);
    let beside = u64::from((100 - percent_x) / 2);
    let (y, height) = span(whole.y, whole.height, above, above + u64::from(percent_y));
    let (x, width) = span(whole.x, whole.width, beside, beside + u64::from(percent_x));
    area(x, y, width, height)
}

#[test]
fn the_middle_is_where_the_percentages_put_it_for_every_percentage() {
    for percent in 0..=100 {
        for length in [0, 1, 2, 3, 5, 7, 10, 13, 24, 33, 50, 77, 80, 99, 100, 101, 150, 211] {
            let whole = area(4, 9, length, 250 - length);
            assert_eq!(
                centered_rect(percent, 100 - percent, whole),
                middle(percent, 100 - percent, whole),
                "{percent} of {whole:?}"
            );
        }
    }
}

#[test]
fn the_middle_is_where_the_percentages_put_it_for_every_small_size() {
    for (percent_x, percent_y) in [(70, 70), (85, 85), (60, 30), (70, 30), (80, 90), (33, 7)] {
        for width in 0..25 {
            for height in 0..25 {
                let whole = area(0, 2, width, height);
                assert_eq!(
                    centered_rect(percent_x, percent_y, whole),
                    middle(percent_x, percent_y, whole),
                    "{percent_x} and {percent_y} of {whole:?}"
                );
            }
        }
    }
}

#[test]
fn the_middle_is_where_the_percentages_put_it_at_the_ends_of_what_can_be_counted() {
    for start in [0, 1, 300, 40_000, u16::MAX - 1, u16::MAX] {
        for length in [0, 1, 999, 20_000, u16::MAX - 1, u16::MAX] {
            for percent in [0, 1, 7, 50, 85, 99, 100] {
                let whole = area(start, length, length, start);
                assert_eq!(
                    centered_rect(percent, percent, whole),
                    middle(percent, percent, whole),
                    "{percent} of {whole:?}"
                );
            }
        }
    }
}

#[test]
fn a_list_and_its_detail_share_an_area_two_to_three() {
    for width in 0..300 {
        let whole = area(3, 1, width, 4);
        let (list, detail) = sendra_tui::view::layout::list_and_detail(whole);
        let (x, size) = span(3, width, 0, 40);
        assert_eq!(list, area(x, 1, size, 4));
        let (x, size) = span(3, width, 40, 100);
        assert_eq!(detail, area(x, 1, size, 4));
    }
}

const ENDS: [(u16, u16); 12] = [
    (0, 0),
    (0, 1),
    (0, 2),
    (7, 3),
    (300, 999),
    (40_000, 20_000),
    (0, u16::MAX),
    (1, u16::MAX),
    (u16::MAX - 2, 9),
    (u16::MAX - 1, 1),
    (u16::MAX - 1, 5),
    (u16::MAX, 4),
];

fn last_rows(whole: Area, rows: u16) -> (Area, Area) {
    let end = whole.y.saturating_add(whole.height);
    let below = rows.min(end - whole.y);
    (
        area(whole.x, whole.y, whole.width, end - whole.y - below),
        area(whole.x, end - below, whole.width, below),
    )
}

#[test]
fn the_footer_is_the_last_row_of_every_area() {
    for height in 1..120 {
        let whole = area(2, 6, 30, height);
        assert_eq!(
            with_footer(whole),
            (area(2, 6, 30, height - 1), area(2, 5 + height, 30, 1))
        );
    }
    for (y, height) in ENDS {
        let whole = area(5, y, 4, height);
        assert_eq!(with_footer(whole), last_rows(whole, 1), "{whole:?}");
    }
    let empty = area(5, 8, 4, 0);
    assert_eq!(with_footer(empty), (empty, empty));
}

#[test]
fn errors_are_told_of_in_the_last_rows_of_every_area() {
    assert_eq!(
        with_errors(area(1, 2, 9, 20), 3),
        (area(1, 2, 9, 14), area(1, 16, 9, 6))
    );
    for errors in [0, 1, 2, 5, 40, 16_384, 32_768] {
        for height in 0..60 {
            let whole = area(1, 2, 9, height);
            assert_eq!(
                with_errors(whole, errors),
                last_rows(whole, error_rows(errors, height)),
                "{errors} in {whole:?}"
            );
        }
        for (y, height) in ENDS {
            let whole = area(1, y, 9, height);
            assert_eq!(
                with_errors(whole, errors),
                last_rows(whole, error_rows(errors, height)),
                "{errors} in {whole:?}"
            );
        }
    }
}

#[test]
fn the_tabs_are_the_first_row_and_the_bottom_bar_is_the_last() {
    let mut sizes: Vec<(u16, u16)> = (2..90).map(|height| (3, height)).collect();
    sizes.extend(ENDS);
    for (y, height) in sizes {
        let whole = area(1, y, 50, height);
        let rows = y.saturating_add(height) - y;

        let one = arrange(whole, false);
        assert_eq!(one.tabs, None);
        assert_eq!((one.main, one.status), last_rows(whole, 1));

        if rows >= 2 {
            let several = arrange(whole, true);
            assert_eq!(several.tabs, Some(area(1, y, 50, 1)));
            assert_eq!(several.main, area(1, y + 1, 50, rows - 2));
            assert_eq!(several.status, area(1, y + rows - 1, 50, 1));
            assert_eq!(
                (several.response, several.response_footer),
                last_rows(several.detail, 1)
            );
            assert_eq!(
                (several.past_response, several.past_footer),
                last_rows(several.past_run.inner, 1)
            );
        }
    }
}

#[test]
fn one_row_goes_to_the_tabs_or_to_the_bottom_bar() {
    for y in [0, 1, 30, 40_000, u16::MAX - 1] {
        let all = arrange(area(0, y, 10, 1), true);
        let tabs = all.tabs.unwrap();
        assert_eq!(tabs.height + all.status.height, 1);
        assert_eq!(all.main.height, 0);
        assert_eq!(tabs.y, y);
        assert_eq!(tabs.y + tabs.height, all.main.y);
        assert_eq!(all.main.y, all.status.y);
    }
}

#[test]
fn runs_that_were_forgotten_are_told_of_in_the_last_row() {
    let inner = area(4, 5, 60, 12);
    let list = |dropped: Option<String>| HistoryView::Entries {
        title: String::new(),
        rows: vec![vec!["> 1s ago  —  200".to_string()]],
        picked: 0,
        dropped,
    };
    assert_eq!(history_places(&list(None), inner), (inner, None));
    assert_eq!(
        history_places(&list(Some("2 older runs dropped".to_string())), inner),
        (area(4, 5, 60, 11), Some(area(4, 16, 60, 1)))
    );
}
