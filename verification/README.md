# sendra_tui

The state, the reducer and the screen text of a terminal client for HTTP
collections, written in Verus.

A program is an `AppState`: one session for each open collection, and what lies
over them. `update` takes it from one state to the next and says what is to be
done outside: find, read or write a file. The answer comes back as another
message. `screen` says what a state looks like, text by text, and
`arranged_screen` where on the terminal its parts stand.

## Layout

- `src/document.rs`, `src/run.rs`, `src/preview.rs`: requests, collections,
  environments, runs, and requests as they would be sent.
- `src/text.rs`, `src/text_field.rs`, `src/paths.rs`: text, the one-field
  editor, paths.
- `src/edit.rs`, `src/variables_form.rs`, `src/prompt.rs`: the forms.
- `src/state.rs`, `src/update/`: the program, its messages, and what they do.
- `src/view/`: what is on the screen, and where.
- `src/laws/`: what holds of the program as a whole.
- `src/outside.rs`: the calls into `serde_json`, `serde_yaml` and `ratatui`, and
  into the standard library's paths. What is claimed of them is not proved.
- `app/`: draws the screen with `ratatui` and carries out what `update` asks
  for, over traits for files and for resolving requests.
- `tests/`: the library at work.

Every type has a model (`…Model`), which is what contracts speak of: the
contract of `update` says that the state and the effect are those that
`app_updated` gives for the state before.
