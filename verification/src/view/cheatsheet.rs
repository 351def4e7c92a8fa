//! The list of all keys.
use vstd::prelude::*;

verus! {

broadcast use vstd::string::group_string_axioms;

/// A heading and the keys under it.
pub struct Section {
    pub heading: &'static str,
    pub keys: Vec<&'static str>,
}

#[verifier::ext_equal]
pub struct SectionModel {
    pub heading: Seq<char>,
    pub keys: Seq<Seq<char>>,
}

/// Texts by value.
pub open spec fn strs(v: Seq<&'static str>) -> Seq<Seq<char>> {
    Seq::new(v.len(), |i: int| v[i]@)
}

impl View for Section {
    type V = SectionModel;

    open spec fn view(&self) -> SectionModel {
        SectionModel { heading: self.heading@, keys: strs(self.keys@) }
    }
}

/// A list of sections by value.
pub open spec fn sections_view(v: Seq<Section>) -> Seq<SectionModel> {
    Seq::new(v.len(), |i: int| v[i]@)
}

/// All keys, by where they work.
pub open spec fn all_sections() -> Seq<SectionModel> {
    seq![
        SectionModel {
            heading: "Global — always available:"@,
            keys: seq![
                "q / Ctrl+C    quit (asks first if anything is unsaved)"@,
                "?             open/close this cheatsheet"@,
            ],
        },
        SectionModel {
            heading: "Browsing (a collection is loaded, nothing else open):"@,
            keys: seq![
                "↑/k, ↓/j      move selection"@,
                "Enter / r     run the selected request"@,
                "i             edit the selected request"@,
                "n             add a new request"@,
                "d             delete the selected request"@,
                "e             open the environment picker"@,
                "h             open the run-history browser"@,
                "o             open another collection"@,
                "/             filter the request list by name"@,
                "] / [         next / previous collection tab"@,
                "Ctrl+w        close the current collection tab"@,
                "PgUp/PgDn/Home/End   scroll the response panel"@,
                "c             reveal / hide captured values"@,
            ],
        },
        SectionModel {
            heading: "Filtering the request list (after pressing /):"@,
            keys: seq![
                "(type)        narrow the list to matching names, live"@,
                "↑/↓           move selection within the filtered list"@,
                "Enter         run the highlighted (filtered) request"@,
                "Esc           clear the filter and show every request again"@,
            ],
        },
        SectionModel {
            heading: "Welcome screen (no collection path given yet):"@,
            keys: seq![
                "↑/k, ↓/j      choose a discovered collection"@,
                "Enter / r     open the chosen collection"@,
                "o             type a collection path instead"@,
                "e             open the environment picker"@,
            ],
        },
        SectionModel {
            heading: "Editing a request:"@,
            keys: seq![
                "Tab / Shift+Tab      next / previous field"@,
                "Left/Right           move cursor (or toggle an enum field)"@,
                "Up/Down              move within the body field (body focused only)"@,
                "Enter                newline (body field only)"@,
                "Backspace/Delete     edit text"@,
                "Ctrl+n / Ctrl+d      add / delete a header row"@,
                "Ctrl+a / Ctrl+x      add / delete an assertion row"@,
                "Ctrl+p / Ctrl+k      add / delete a capture row"@,
                "Ctrl+s               save"@,
                "Esc                  cancel"@,
                "(any other character)   type into the focused field"@,
            ],
        },
        SectionModel {
            heading: "Environment picker:"@,
            keys: seq![
                "↑/k, ↓/j      move selection"@,
                "Enter         select this environment"@,
                "i             edit this environment's variables"@,
                "Esc           close"@,
            ],
        },
        SectionModel {
            heading: "Editing an environment's variables:"@,
            keys: seq![
                "Tab / Shift+Tab      next / previous field"@,
                "Left/Right           move cursor"@,
                "Backspace/Delete     edit text"@,
                "Ctrl+n               add a variable row"@,
                "Ctrl+d               delete the focused row (asks to confirm)"@,
                "Ctrl+s               save"@,
                "Esc                  cancel"@,
                "(any other character)   type into the focused field"@,
            ],
        },
        SectionModel {
            heading: "Run-history browser:"@,
            keys: seq![
                "↑/k, ↓/j      move selection"@,
                "Enter         view this entry's full result"@,
                "Space         expand / collapse this entry"@,
                "Esc           close"@,
            ],
        },
        SectionModel {
            heading: "Viewing one history entry:"@,
            keys: seq![
                "PgUp/PgDn/Home/End   scroll the response"@,
                "c                    reveal / hide captured values"@,
                "Esc                  back to the history list"@,
            ],
        },
        SectionModel {
            heading: "Any confirmation (delete request, delete variable, close tab, quit):"@,
            keys: seq![
                "y / Enter     confirm"@,
                "n / Esc       cancel"@,
            ],
        },
        SectionModel {
            heading: "Open-collection prompt:"@,
            keys: seq![
                "Left/Right           move cursor"@,
                "Backspace/Delete     edit text"@,
                "Enter                open the typed path"@,
                "Esc                  cancel"@,
                "(any other character)   type into the path field"@,
            ],
        },
    ]
}

/// A text with a line for each key behind it.
pub open spec fn with_keys(text: Seq<char>, keys: Seq<Seq<char>>) -> Seq<char>
    decreases keys.len(),
{
    if keys.len() == 0 {
        text
    } else {
        with_keys(text, keys.drop_last()) + "  "@ + keys.last() + "\n"@
    }
}

/// Sections as one text: each heading over its keys, a blank line between
/// sections.
pub open spec fn sections_text(sections: Seq<SectionModel>) -> Seq<char>
    decreases sections.len(),
{
    if sections.len() == 0 {
        Seq::empty()
    } else {
        let before = sections_text(sections.drop_last());
        with_keys(
            (if sections.len() > 1 {
                before + "\n"@
            } else {
                before
            }) + sections.last().heading + "\n"@,
            sections.last().keys,
        )
    }
}

fn section(heading: &'static str, keys: Vec<&'static str>) -> (r: Section)
    ensures
        r@ == (SectionModel { heading: heading@, keys: strs(keys@) }),
{
    Section { heading, keys }
}

/// All keys, by where they work.
#[verifier::rlimit(60)]
pub fn sections() -> (r: Vec<Section>)
    ensures
        sections_view(r@) == all_sections(),
{
    let mut r: Vec<Section> = Vec::new();
    let keys0: Vec<&'static str> = vec![
        "q / Ctrl+C    quit (asks first if anything is unsaved)",
        "?             open/close this cheatsheet",
    ];
    assert(strs(keys0@) =~= all_sections()[0].keys);
    r.push(section("Global — always available:", keys0));
    let keys1: Vec<&'static str> = vec![
        "↑/k, ↓/j      move selection",
        "Enter / r     run the selected request",
        "i             edit the selected request",
        "n             add a new request",
        "d             delete the selected request",
        "e             open the environment picker",
        "h             open the run-history browser",
        "o             open another collection",
        "/             filter the request list by name",
        "] / [         next / previous collection tab",
        "Ctrl+w        close the current collection tab",
        "PgUp/PgDn/Home/End   scroll the response panel",
        "c             reveal / hide captured values",
    ];
    assert(strs(keys1@) =~= all_sections()[1].keys);
    r.push(section("Browsing (a collection is loaded, nothing else open):", keys1));
    let keys2: Vec<&'static str> = vec![
        "(type)        narrow the list to matching names, live",
        "↑/↓           move selection within the filtered list",
        "Enter         run the highlighted (filtered) request",
        "Esc           clear the filter and show every request again",
    ];
    assert(strs(keys2@) =~= all_sections()[2].keys);
    r.push(section("Filtering the request list (after pressing /):", keys2));
    let keys3: Vec<&'static str> = vec![
        "↑/k, ↓/j      choose a discovered collection",
        "Enter / r     open the chosen collection",
        "o             type a collection path instead",
        "e             open the environment picker",
    ];
    assert(strs(keys3@) =~= all_sections()[3].keys);
    r.push(section("Welcome screen (no collection path given yet):", keys3));
    let keys4: Vec<&'static str> = vec![
        "Tab / Shift+Tab      next / previous field",
        "Left/Right           move cursor (or toggle an enum field)",
        "Up/Down              move within the body field (body focused only)",
        "Enter                newline (body field only)",
        "Backspace/Delete     edit text",
        "Ctrl+n / Ctrl+d      add / delete a header row",
        "Ctrl+a / Ctrl+x      add / delete an assertion row",
        "Ctrl+p / Ctrl+k      add / delete a capture row",
        "Ctrl+s               save",
        "Esc                  cancel",
        "(any other character)   type into the focused field",
    ];
    assert(strs(keys4@) =~= all_sections()[4].keys);
    r.push(section("Editing a request:", keys4));
    let keys5: Vec<&'static str> = vec![
        "↑/k, ↓/j      move selection",
        "Enter         select this environment",
        "i             edit this environment's variables",
        "Esc           close",
    ];
    assert(strs(keys5@) =~= all_sections()[5].keys);
    r.push(section("Environment picker:", keys5));
    let keys6: Vec<&'static str> = vec![
        "Tab / Shift+Tab      next / previous field",
        "Left/Right           move cursor",
        "Backspace/Delete     edit text",
        "Ctrl+n               add a variable row",
        "Ctrl+d               delete the focused row (asks to confirm)",
        "Ctrl+s               save",
        "Esc                  cancel",
        "(any other character)   type into the focused field",
    ];
    assert(strs(keys6@) =~= all_sections()[6].keys);
    r.push(section("Editing an environment's variables:", keys6));
    let keys7: Vec<&'static str> = vec![
        "↑/k, ↓/j      move selection",
        "Enter         view this entry's full result",
        "Space         expand / collapse this entry",
        "Esc           close",
    ];
    assert(strs(keys7@) =~= all_sections()[7].keys);
    r.push(section("Run-history browser:", keys7));
    let keys8: Vec<&'static str> = vec![
        "PgUp/PgDn/Home/End   scroll the response",
        "c                    reveal / hide captured values",
        "Esc                  back to the history list",
    ];
    assert(strs(keys8@) =~= all_sections()[8].keys);
    r.push(section("Viewing one history entry:", keys8));
    let keys9: Vec<&'static str> = vec![
        "y / Enter     confirm",
        "n / Esc       cancel",
    ];
    assert(strs(keys9@) =~= all_sections()[9].keys);
    r.push(section("Any confirmation (delete request, delete variable, close tab, quit):", keys9));
    let keys10: Vec<&'static str> = vec![
        "Left/Right           move cursor",
        "Backspace/Delete     edit text",
        "Enter                open the typed path",
        "Esc                  cancel",
        "(any other character)   type into the path field",
    ];
    assert(strs(keys10@) =~= all_sections()[10].keys);
    r.push(section("Open-collection prompt:", keys10));
    assert(sections_view(r@) =~= all_sections());
    r
}

/// The list of all keys as one text.
pub fn cheatsheet_text() -> (r: String)
    ensures
        r@ == sections_text(all_sections()),
{
    let all = sections();
    let ghost model = all_sections();
    let mut text = String::new();
    let mut i: usize = 0;
    while i < all.len()
        invariant
            i <= all@.len(),
            sections_view(all@) == model,
            text@ == sections_text(model.take(i as int)),
        decreases all@.len() - i,
    {
        proof {
            assert(sections_view(all@).len() == all@.len());
            assert(model.take(i + 1).drop_last() =~= model.take(i as int));
            assert(model[i as int] == all@[i as int]@);
        }
        if i > 0 {
            text.append("\n");
        }
        text.append(all[i].heading);
        text.append("\n");
        let ghost begun = text@;
        let ghost keys = model[i as int].keys;
        let mut j: usize = 0;
        while j < all[i].keys.len()
            invariant
                i < all@.len(),
                j <= all@[i as int].keys@.len(),
                keys == strs(all@[i as int].keys@),
                text@ == with_keys(begun, keys.take(j as int)),
            decreases all@[i as int].keys@.len() - j,
        {
            proof {
                assert(keys.take(j + 1).drop_last() =~= keys.take(j as int));
            }
            text.append("  ");
            text.append(all[i].keys[j]);
            text.append("\n");
            j = j + 1;
        }
        assert(keys.take(j as int) =~= keys);
        i = i + 1;
    }
    assert(sections_view(all@).len() == all@.len());
    assert(model.take(i as int) =~= model);
    text
}

} // verus!
