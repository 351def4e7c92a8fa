//! A line (or several) of text with a cursor in it.
use vstd::prelude::*;

use crate::text::{chars_of, first_index, lemma_first_index, split};

verus! {

broadcast use vstd::string::group_string_axioms;

/// A text field's value: what it holds, and how many characters stand before
/// the cursor.
pub struct TextFieldModel {
    pub value: Seq<char>,
    pub cursor: int,
}

impl TextFieldModel {
    /// The cursor stands somewhere in the text or right behind it.
    pub open spec fn valid(self) -> bool {
        0 <= self.cursor <= self.value.len()
    }

    /// A field holding `value`, the cursor behind it.
    pub open spec fn holding(value: Seq<char>) -> TextFieldModel {
        TextFieldModel { value, cursor: value.len() as int }
    }

    /// `c` typed in front of the cursor.
    pub open spec fn inserted(self, c: char) -> TextFieldModel {
        TextFieldModel { value: self.value.insert(self.cursor, c), cursor: self.cursor + 1 }
    }

    /// The character in front of the cursor taken out.
    pub open spec fn backspaced(self) -> TextFieldModel {
        if self.cursor == 0 {
            self
        } else {
            TextFieldModel { value: self.value.remove(self.cursor - 1), cursor: self.cursor - 1 }
        }
    }

    /// The character behind the cursor taken out.
    pub open spec fn deleted(self) -> TextFieldModel {
        if self.cursor == self.value.len() {
            self
        } else {
            TextFieldModel { value: self.value.remove(self.cursor), cursor: self.cursor }
        }
    }

    /// The cursor one character to the left.
    pub open spec fn left(self) -> TextFieldModel {
        TextFieldModel {
            value: self.value,
            cursor: if self.cursor == 0 { 0 } else { self.cursor - 1 },
        }
    }

    /// The cursor one character to the right.
    pub open spec fn right(self) -> TextFieldModel {
        TextFieldModel {
            value: self.value,
            cursor: if self.cursor == self.value.len() { self.cursor } else { self.cursor + 1 },
        }
    }

    /// How many line ends stand in front of the cursor.
    pub open spec fn row(self) -> nat {
        newlines(self.value.take(self.cursor))
    }

    /// Where the line that the cursor is on begins.
    pub open spec fn line_start(self) -> int {
        start_of_line(self.value, self.cursor)
    }

    /// How many characters of its line stand in front of the cursor.
    pub open spec fn column(self) -> int {
        self.cursor - self.line_start()
    }

    /// The cursor in the line above, as far right as that line reaches; where
    /// there is none, unmoved.
    pub open spec fn up(self) -> TextFieldModel {
        let start = self.line_start();
        if start == 0 {
            self
        } else {
            let above = start_of_line(self.value, start - 1);
            TextFieldModel {
                value: self.value,
                cursor: above + min(self.column(), start - 1 - above),
            }
        }
    }

    /// The cursor in the line below, as far right as that line reaches; where
    /// there is none, unmoved.
    pub open spec fn down(self) -> TextFieldModel {
        let end = end_of_line(self.value, self.cursor);
        if end == self.value.len() {
            self
        } else {
            let below_end = end_of_line(self.value, end + 1);
            TextFieldModel {
                value: self.value,
                cursor: end + 1 + min(self.column(), below_end - (end + 1)),
            }
        }
    }
}

/// The smaller of two numbers.
pub open spec fn min(a: int, b: int) -> int {
    if a <= b {
        a
    } else {
        b
    }
}

/// How many line ends a text holds.
pub open spec fn newlines(s: Seq<char>) -> nat
    decreases s.len(),
{
    if s.len() == 0 {
        0
    } else {
        newlines(s.drop_last()) + if s.last() == '\n' { 1nat } else { 0nat }
    }
}

/// Where the line that holds position `at` begins: behind the last line end
/// in front of `at`.
pub open spec fn start_of_line(s: Seq<char>, at: int) -> int
    decreases at,
{
    if at <= 0 || at > s.len() || s[at - 1] == '\n' {
        at
    } else {
        start_of_line(s, at - 1)
    }
}

/// Where the line that holds position `at` ends: at the first line end at or
/// behind `at`, or at the end of the text.
pub open spec fn end_of_line(s: Seq<char>, at: int) -> int
    decreases s.len() - at,
{
    if at >= s.len() || s[at] == '\n' {
        at
    } else {
        end_of_line(s, at + 1)
    }
}

pub proof fn lemma_start_of_line(s: Seq<char>, at: int)
    requires
        0 <= at <= s.len(),
    ensures
        0 <= start_of_line(s, at) <= at,
        start_of_line(s, at) > 0 ==> s[start_of_line(s, at) - 1] == '\n',
        forall|j: int| start_of_line(s, at) <= j < at ==> s[j] != '\n',
    decreases at,
{
    if at > 0 && s[at - 1] != '\n' {
        lemma_start_of_line(s, at - 1);
    }
}

pub proof fn lemma_end_of_line(s: Seq<char>, at: int)
    requires
        0 <= at <= s.len(),
    ensures
        at <= end_of_line(s, at) <= s.len(),
        end_of_line(s, at) < s.len() ==> s[end_of_line(s, at)] == '\n',
    decreases s.len() - at,
{
    if at < s.len() && s[at] != '\n' {
        lemma_end_of_line(s, at + 1);
    }
}

/// A text field.
#[derive(Debug, PartialEq, Eq)]
pub struct TextField {
    value: String,
    cursor: usize,
}

impl View for TextField {
    type V = TextFieldModel;

    closed spec fn view(&self) -> TextFieldModel {
        TextFieldModel { value: self.value@, cursor: self.cursor as int }
    }
}

impl Clone for TextField {
    fn clone(&self) -> (r: Self)
        ensures
            r@ == self@,
    {
        proof {
            use_type_invariant(self);
        }
        TextField { value: self.value.clone(), cursor: self.cursor }
    }
}

impl Default for TextField {
    fn default() -> (r: Self)
        ensures
            r@ == TextFieldModel::holding(Seq::empty()),
    {
        TextField { value: String::new(), cursor: 0 }
    }
}

impl TextField {
    #[verifier::type_invariant]
    spec fn cursor_in_text(self) -> bool {
        self.cursor <= self.value@.len()
    }

    /// A field holding `value`, the cursor behind it.
    pub fn new(value: &str) -> (r: TextField)
        ensures
            r@ == TextFieldModel::holding(value@),
    {
        TextField { value: value.to_owned(), cursor: value.unicode_len() }
    }

    /// What the field holds.
    pub fn value(&self) -> (r: &str)
        ensures
            r@ == self@.value,
    {
        self.value.as_str()
    }

    /// How many characters stand before the cursor.
    pub fn cursor_chars(&self) -> (r: usize)
        ensures
            r == self@.cursor,
            self@.valid(),
    {
        proof {
            use_type_invariant(self);
        }
        self.cursor
    }

    /// Types `c` in front of the cursor.
    pub fn insert_char(&mut self, c: char)
        ensures
            final(self)@ == old(self)@.inserted(c),
    {
        proof {
            use_type_invariant(&*self);
        }
        let n: usize = self.value.as_str().unicode_len();
        let mut text = self.value.as_str().substring_char(0, self.cursor).to_owned();
        text.push(c);
        text.append(self.value.as_str().substring_char(self.cursor, n));
        assert(text@ =~= self.value@.insert(self.cursor as int, c));
        let longer: usize = text.as_str().unicode_len();
        assert(longer == n + 1);
        self.value = text;
        self.cursor = self.cursor + 1;
    }

    /// Takes out the character in front of the cursor.
    pub fn backspace(&mut self)
        ensures
            final(self)@ == old(self)@.backspaced(),
    {
        proof {
            use_type_invariant(&*self);
        }
        if self.cursor > 0 {
            self.cursor = self.cursor - 1;
            self.delete_at_cursor();
        }
    }

    /// Takes out the character behind the cursor.
    pub fn delete(&mut self)
        ensures
            final(self)@ == old(self)@.deleted(),
    {
        proof {
            use_type_invariant(&*self);
        }
        let n: usize = self.value.as_str().unicode_len();
        if self.cursor < n {
            self.delete_at_cursor();
        }
    }

    fn delete_at_cursor(&mut self)
        requires
            old(self)@.cursor < old(self)@.value.len(),
        ensures
            final(self)@.cursor == old(self)@.cursor,
            final(self)@.value == old(self)@.value.remove(old(self)@.cursor),
    {
        proof {
            use_type_invariant(&*self);
        }
        let n: usize = self.value.as_str().unicode_len();
        let mut text = self.value.as_str().substring_char(0, self.cursor).to_owned();
        text.append(self.value.as_str().substring_char(self.cursor + 1, n));
        assert(text@ =~= self.value@.remove(self.cursor as int));
        self.value = text;
    }

    /// Moves the cursor one character to the left.
    pub fn move_left(&mut self)
        ensures
            final(self)@ == old(self)@.left(),
    {
        proof {
            use_type_invariant(&*self);
        }
        if self.cursor > 0 {
            self.cursor = self.cursor - 1;
        }
    }

    /// Moves the cursor one character to the right.
    pub fn move_right(&mut self)
        ensures
            final(self)@ == old(self)@.right(),
    {
        proof {
            use_type_invariant(&*self);
        }
        let n: usize = self.value.as_str().unicode_len();
        if self.cursor < n {
            self.cursor = self.cursor + 1;
        }
    }

    /// Moves the cursor to the line above.
    pub fn move_up(&mut self)
        ensures
            final(self)@ == old(self)@.up(),
    {
        proof {
            use_type_invariant(&*self);
            lemma_start_of_line(self.value@, self.cursor as int);
        }
        let v = chars_of(self.value.as_str());
        let start = line_start_in(&v, self.cursor);
        if start > 0 {
            proof {
                lemma_start_of_line(self.value@, start - 1);
            }
            let above = line_start_in(&v, start - 1);
            let column: usize = self.cursor - start;
            let width: usize = start - 1 - above;
            self.cursor = if column <= width {
                above + column
            } else {
                above + width
            };
        }
    }

    /// Moves the cursor to the line below.
    pub fn move_down(&mut self)
        ensures
            final(self)@ == old(self)@.down(),
    {
        proof {
            use_type_invariant(&*self);
            lemma_start_of_line(self.value@, self.cursor as int);
            lemma_end_of_line(self.value@, self.cursor as int);
        }
        let v = chars_of(self.value.as_str());
        let start = line_start_in(&v, self.cursor);
        let end = line_end_in(&v, self.cursor);
        if end < v.len() {
            proof {
                lemma_end_of_line(self.value@, end + 1);
            }
            let below_end = line_end_in(&v, end + 1);
            let column: usize = self.cursor - start;
            let width: usize = below_end - (end + 1);
            self.cursor = if column <= width {
                end + 1 + column
            } else {
                end + 1 + width
            };
        }
    }

    /// The cursor's line, counted from the first, and its column in that line.
    pub fn cursor_row_col(&self) -> (r: (usize, usize))
        ensures
            r.0 == self@.row(),
            r.1 == self@.column(),
            r.0 <= self@.value.len(),
            r.1 <= self@.value.len(),
    {
        proof {
            use_type_invariant(self);
            lemma_start_of_line(self.value@, self.cursor as int);
        }
        let v = chars_of(self.value.as_str());
        let start = line_start_in(&v, self.cursor);
        let mut row: usize = 0;
        let mut i: usize = 0;
        while i < self.cursor
            invariant
                i <= self.cursor <= v@.len(),
                v@ == self.value@,
                row == newlines(v@.take(i as int)),
                row <= i,
            decreases self.cursor - i,
        {
            assert(v@.take(i + 1).drop_last() =~= v@.take(i as int));
            if v[i] == '\n' {
                row = row + 1;
            }
            i = i + 1;
        }
        (row, self.cursor - start)
    }
}

/// Where the line that holds position `at` begins.
fn line_start_in(v: &Vec<char>, at: usize) -> (r: usize)
    requires
        at <= v@.len(),
    ensures
        r == start_of_line(v@, at as int),
        r <= at,
{
    let mut i: usize = at;
    while i > 0 && v[i - 1] != '\n'
        invariant
            i <= at <= v@.len(),
            start_of_line(v@, i as int) == start_of_line(v@, at as int),
        decreases i,
    {
        i = i - 1;
    }
    i
}

/// Where the line that holds position `at` ends.
fn line_end_in(v: &Vec<char>, at: usize) -> (r: usize)
    requires
        at <= v@.len(),
    ensures
        r == end_of_line(v@, at as int),
        at <= r <= v@.len(),
{
    let mut i: usize = at;
    while i < v.len() && v[i] != '\n'
        invariant
            at <= i <= v@.len(),
            end_of_line(v@, i as int) == end_of_line(v@, at as int),
        decreases v@.len() - i,
    {
        i = i + 1;
    }
    i
}

/// A change to what a text field holds.
#[derive(Clone, Copy, Debug, PartialEq, Eq, Structural)]
pub enum TextEdit {
    Insert(char),
    Backspace,
    Delete,
}

/// A move of a text field's cursor.
#[derive(Clone, Copy, Debug, PartialEq, Eq, Structural)]
pub enum CursorMove {
    Left,
    Right,
    Up,
    Down,
}

impl TextFieldModel {
    /// The field after one change.
    pub open spec fn edited(self, edit: TextEdit) -> TextFieldModel {
        match edit {
            TextEdit::Insert(c) => self.inserted(c),
            TextEdit::Backspace => self.backspaced(),
            TextEdit::Delete => self.deleted(),
        }
    }

    /// The field after one move of its cursor.
    pub open spec fn moved(self, step: CursorMove) -> TextFieldModel {
        match step {
            CursorMove::Left => self.left(),
            CursorMove::Right => self.right(),
            CursorMove::Up => self.up(),
            CursorMove::Down => self.down(),
        }
    }
}

impl TextField {
    /// Makes one change.
    pub fn apply(&mut self, edit: TextEdit)
        ensures
            final(self)@ == old(self)@.edited(edit),
    {
        match edit {
            TextEdit::Insert(c) => self.insert_char(c),
            TextEdit::Backspace => self.backspace(),
            TextEdit::Delete => self.delete(),
        }
    }

    /// Moves the cursor.
    pub fn step(&mut self, step: CursorMove)
        ensures
            final(self)@ == old(self)@.moved(step),
    {
        match step {
            CursorMove::Left => self.move_left(),
            CursorMove::Right => self.move_right(),
            CursorMove::Up => self.move_up(),
            CursorMove::Down => self.move_down(),
        }
    }
}

// ---------------------------------------------------------------------------
// Laws
// ---------------------------------------------------------------------------

/// Backspace takes back exactly what was typed.
pub proof fn law_backspace_undoes_insert(field: TextFieldModel, c: char)
    requires
        field.valid(),
    ensures
        field.inserted(c).backspaced() == field,
{
    assert(field.value.insert(field.cursor, c).remove(field.cursor) =~= field.value);
}

/// A character is typed where the cursor is: it stands behind what stood in
/// front of the cursor and in front of what stood behind it, and the cursor
/// stands behind it.
pub proof fn law_a_character_goes_where_the_cursor_is(field: TextFieldModel, c: char)
    requires
        field.valid(),
    ensures
        ({
            let t = field.edited(TextEdit::Insert(c));
            &&& t.value.len() == field.value.len() + 1
            &&& t.value[field.cursor] == c
            &&& t.cursor == field.cursor + 1
            &&& forall|j: int| 0 <= j < field.cursor ==> #[trigger] t.value[j] == field.value[j]
            &&& forall|j: int|
                field.cursor < j < t.value.len() ==> #[trigger] t.value[j] == field.value[j - 1]
        }),
{
}

/// Backspace takes out the character in front of the cursor, delete the one
/// behind it; where there is none they do nothing.
pub proof fn law_one_character_is_taken_out(field: TextFieldModel)
    requires
        field.valid(),
    ensures
        ({
            let t = field.edited(TextEdit::Backspace);
            &&& field.cursor == 0 ==> t == field
            &&& field.cursor > 0 ==> {
                &&& t.cursor == field.cursor - 1
                &&& t.value.len() == field.value.len() - 1
                &&& forall|j: int|
                    0 <= j < t.cursor ==> #[trigger] t.value[j] == field.value[j]
                &&& forall|j: int|
                    t.cursor <= j < t.value.len() ==> #[trigger] t.value[j] == field.value[j + 1]
            }
        }),
        ({
            let t = field.edited(TextEdit::Delete);
            &&& field.cursor == field.value.len() ==> t == field
            &&& field.cursor < field.value.len() ==> {
                &&& t.cursor == field.cursor
                &&& t.value.len() == field.value.len() - 1
                &&& forall|j: int|
                    0 <= j < t.cursor ==> #[trigger] t.value[j] == field.value[j]
                &&& forall|j: int|
                    t.cursor <= j < t.value.len() ==> #[trigger] t.value[j] == field.value[j + 1]
            }
        }),
{
}

/// Left and right move the cursor by one character and stop at the ends of the
/// text.
pub proof fn law_the_cursor_moves_by_one(field: TextFieldModel)
    requires
        field.valid(),
    ensures
        field.cursor > 0 ==> field.moved(CursorMove::Left).cursor == field.cursor - 1,
        field.cursor == 0 ==> field.moved(CursorMove::Left) == field,
        field.cursor < field.value.len() ==> field.moved(CursorMove::Right).cursor
            == field.cursor + 1,
        field.cursor == field.value.len() ==> field.moved(CursorMove::Right) == field,
{
}

/// Whether the characters of a text from `from` to `to` are one line of it.
pub open spec fn is_line(text: Seq<char>, from: int, to: int) -> bool {
    &&& 0 <= from <= to <= text.len()
    &&& from == 0 || text[from - 1] == '\n'
    &&& to == text.len() || text[to] == '\n'
    &&& forall|j: int| from <= j < to ==> text[j] != '\n'
}

/// Up moves the cursor to the line above and down to the line below, to the
/// same column or to the end of that line where it is shorter; without such a
/// line the cursor stays.
pub proof fn law_the_cursor_moves_by_a_line(
    field: TextFieldModel,
    above: int,
    start: int,
    end: int,
    below: int,
)
    requires
        field.valid(),
        is_line(field.value, start, end),
        start <= field.cursor <= end,
        start > 0 ==> is_line(field.value, above, start - 1),
        end < field.value.len() ==> is_line(field.value, end + 1, below),
    ensures
        ({
            let column = field.cursor - start;
            let (up, down) = (field.moved(CursorMove::Up), field.moved(CursorMove::Down));
            &&& start > 0 ==> up.cursor == (if above + column <= start - 1 {
                above + column
            } else {
                start - 1
            })
            &&& start == 0 ==> up == field
            &&& end < field.value.len() ==> down.cursor == (if end + 1 + column <= below {
                end + 1 + column
            } else {
                below
            })
            &&& end == field.value.len() ==> down == field
        }),
{
    lemma_line_bounds(field.value, field.cursor, start, end);
    if start > 0 {
        lemma_line_bounds(field.value, start - 1, above, start - 1);
    }
    if end < field.value.len() {
        lemma_line_bounds(field.value, end + 1, end + 1, below);
    }
}

proof fn lemma_line_bounds(text: Seq<char>, at: int, from: int, to: int)
    requires
        is_line(text, from, to),
        from <= at <= to,
    ensures
        start_of_line(text, at) == from,
        end_of_line(text, at) == to,
{
    lemma_start_of_line(text, at);
    lemma_end_of_line(text, at);
    let start = start_of_line(text, at);
    if start > from {
        assert(text[start - 1] != '\n');
    }
    if start < from {
        assert(text[from - 1] == '\n');
    }
    lemma_first_line_end(text, at, to);
}

proof fn lemma_first_line_end(text: Seq<char>, at: int, to: int)
    requires
        0 <= at <= to <= text.len(),
        to == text.len() || text[to] == '\n',
        forall|j: int| at <= j < to ==> text[j] != '\n',
    ensures
        end_of_line(text, at) == to,
    decreases to - at,
{
    if at < to {
        lemma_first_line_end(text, at + 1, to);
    }
}

/// Moving the cursor changes nothing but the cursor.
pub proof fn law_moves_keep_the_text(field: TextFieldModel, step: CursorMove)
    ensures
        field.moved(step).value == field.value,
{
}

/// Every change and every move leaves the cursor in the text.
pub proof fn law_cursor_stays_in_text(field: TextFieldModel, edit: TextEdit, step: CursorMove)
    requires
        field.valid(),
    ensures
        field.edited(edit).valid(),
        field.moved(step).valid(),
{
    lemma_start_of_line(field.value, field.cursor);
    lemma_end_of_line(field.value, field.cursor);
    if field.line_start() > 0 {
        lemma_start_of_line(field.value, field.line_start() - 1);
    }
    let end = end_of_line(field.value, field.cursor);
    if end < field.value.len() {
        lemma_end_of_line(field.value, end + 1);
    }
}

proof fn lemma_no_newlines(s: Seq<char>)
    requires
        forall|j: int| 0 <= j < s.len() ==> s[j] != '\n',
    ensures
        newlines(s) == 0,
    decreases s.len(),
{
    if s.len() > 0 {
        lemma_no_newlines(s.drop_last());
    }
}

proof fn lemma_newlines_concat(a: Seq<char>, b: Seq<char>)
    ensures
        newlines(a + b) == newlines(a) + newlines(b),
    decreases b.len(),
{
    if b.len() == 0 {
        assert(a + b =~= a);
    } else {
        assert((a + b).drop_last() =~= a + b.drop_last());
        lemma_newlines_concat(a, b.drop_last());
    }
}

proof fn lemma_start_unique(s: Seq<char>, at: int, k: int)
    requires
        0 <= k <= at <= s.len(),
        k > 0 ==> s[k - 1] == '\n',
        forall|j: int| k <= j < at ==> s[j] != '\n',
    ensures
        start_of_line(s, at) == k,
    decreases at,
{
    if k < at {
        lemma_start_unique(s, at - 1, k);
    }
}

proof fn lemma_end_unique(s: Seq<char>, at: int, k: int)
    requires
        0 <= at <= k <= s.len(),
        k < s.len() ==> s[k] == '\n',
        forall|j: int| at <= j < k ==> s[j] != '\n',
    ensures
        end_of_line(s, at) == k,
    decreases k - at,
{
    if at < k {
        lemma_end_unique(s, at + 1, k);
    }
}

proof fn lemma_line_of(s: Seq<char>, at: int)
    requires
        0 <= at <= s.len(),
    ensures
        newlines(s.take(at)) < split(s, '\n').len(),
        split(s, '\n')[newlines(s.take(at)) as int] == s.subrange(
            start_of_line(s, at),
            end_of_line(s, at),
        ),
    decreases s.len(),
{
    let i = first_index(s, '\n');
    lemma_first_index(s, '\n');
    if at <= i {
        assert forall|j: int| 0 <= j < s.take(at).len() implies s.take(at)[j] != '\n' by {
            assert(s.take(at)[j] == s[j]);
        }
        lemma_no_newlines(s.take(at));
        lemma_start_unique(s, at, 0);
        lemma_end_unique(s, at, i);
        if i < s.len() {
            assert(s.take(i) =~= s.subrange(0, i));
        } else {
            assert(s =~= s.subrange(0, i));
        }
    } else {
        let rest = s.skip(i + 1);
        let behind = at - (i + 1);
        lemma_line_of(rest, behind);
        lemma_start_of_line(rest, behind);
        lemma_end_of_line(rest, behind);
        let start = i + 1 + start_of_line(rest, behind);
        let end = i + 1 + end_of_line(rest, behind);
        assert forall|j: int| start <= j < at implies s[j] != '\n' by {
            assert(rest[j - (i + 1)] == s[j]);
        }
        lemma_start_unique(s, at, start);
        assert forall|j: int| at <= j < end implies s[j] != '\n' by {
            lemma_line_has_no_end(rest, behind, j - (i + 1));
            assert(rest[j - (i + 1)] == s[j]);
        }
        if end < s.len() {
            assert(rest[end - (i + 1)] == s[end]);
        }
        lemma_end_unique(s, at, end);
        assert(s.take(at) =~= s.take(i + 1) + rest.take(behind));
        lemma_newlines_concat(s.take(i + 1), rest.take(behind));
        assert(s.take(i + 1).drop_last() =~= s.take(i));
        assert forall|j: int| 0 <= j < s.take(i).len() implies s.take(i)[j] != '\n' by {
            assert(s.take(i)[j] == s[j]);
        }
        lemma_no_newlines(s.take(i));
        assert(rest.subrange(start_of_line(rest, behind), end_of_line(rest, behind))
            =~= s.subrange(start, end));
    }
}

proof fn lemma_line_has_no_end(s: Seq<char>, at: int, j: int)
    requires
        0 <= at <= j < end_of_line(s, at),
        at <= s.len(),
    ensures
        s[j] != '\n',
    decreases s.len() - at,
{
    if at < j {
        lemma_line_has_no_end(s, at + 1, j);
    }
}

/// The row and column of the cursor are right: of the text's lines, the one
/// that the row names is the line the cursor stands on, and the column lies
/// within it.
pub proof fn law_cursor_is_on_its_line(field: TextFieldModel)
    requires
        field.valid(),
    ensures
        field.row() < split(field.value, '\n').len(),
        split(field.value, '\n')[field.row() as int] == field.value.subrange(
            field.line_start(),
            end_of_line(field.value, field.cursor),
        ),
        0 <= field.column() <= split(field.value, '\n')[field.row() as int].len(),
{
    lemma_line_of(field.value, field.cursor);
    lemma_start_of_line(field.value, field.cursor);
    lemma_end_of_line(field.value, field.cursor);
}

} // verus!
