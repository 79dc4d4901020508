//! Cursor motions and scrolling of the editor.
use vstd::prelude::*;
use crate::app::{max_col, App, snapped};
use crate::text::{
    capped, char_at, char_count, char_is_alphanumeric, char_is_whitespace, char_len_utf8, is_unicode_whitespace,
    spec_is_alphanumeric, utf8_width,
};

verus! {

/// The kind of a character, for word motions.
#[derive(Debug, Clone, Copy, PartialEq, Eq, Structural)]
pub enum CharKind {
    Whitespace,
    Word,
    Punctuation,
}

pub open spec fn kind_of(c: char) -> CharKind {
    if is_unicode_whitespace(c) {
        CharKind::Whitespace
    } else if spec_is_alphanumeric(c) || c == '_' {
        CharKind::Word
    } else {
        CharKind::Punctuation
    }
}

/// The kind of a character: whitespace, word (alphanumeric or `_`), or
/// punctuation.
pub fn char_kind(c: char) -> (k: CharKind)
    ensures
        k == kind_of(c),
{
    if char_is_whitespace(c) {
        CharKind::Whitespace
    } else if char_is_alphanumeric(c) || c == '_' {
        CharKind::Word
    } else {
        CharKind::Punctuation
    }
}

/// The first column at or after `x` whose character is not of kind `k`.
pub open spec fn skip_same_kind(line: Seq<char>, x: int, k: CharKind) -> int
    decreases line.len() - x,
{
    if x < 0 || x >= line.len() || kind_of(line[x]) != k {
        x
    } else {
        skip_same_kind(line, x + 1, k)
    }
}

/// The first column at or after `x` whose character is not whitespace.
pub open spec fn skip_whitespace(line: Seq<char>, x: int) -> int
    decreases line.len() - x,
{
    if x < 0 || x >= line.len() || !is_unicode_whitespace(line[x]) {
        x
    } else {
        skip_whitespace(line, x + 1)
    }
}

/// Going left from `x`, the first column not preceded by whitespace... the
/// last column at or before `x` that is not whitespace (or 0).
pub open spec fn back_over_whitespace(line: Seq<char>, x: int) -> int
    decreases x,
{
    if x <= 0 || !is_unicode_whitespace(line[x]) {
        x
    } else {
        back_over_whitespace(line, x - 1)
    }
}

/// Going left from `x`, the start of the run of characters of kind `k`.
pub open spec fn word_start(line: Seq<char>, x: int, k: CharKind) -> int
    decreases x,
{
    if x <= 0 || kind_of(line[x - 1]) != k {
        x
    } else {
        word_start(line, x - 1, k)
    }
}

/// The number of whitespace characters that begin `line`.
pub open spec fn leading_whitespace(line: Seq<char>) -> nat
    decreases line.len(),
{
    if line.len() == 0 || !is_unicode_whitespace(line[0]) {
        0
    } else {
        1 + leading_whitespace(line.drop_first())
    }
}

/// The byte offset of the first character of `line` that is not whitespace,
/// or 0 when there is none.
pub open spec fn first_non_whitespace_byte(line: Seq<char>) -> usize {
    let r = leading_whitespace(line);
    if r < line.len() {
        capped(utf8_width(line.take(r as int)))
    } else {
        0
    }
}

/// The cursor after `n` steps down, each snapped into the text.
pub open spec fn down_times(a: App, n: nat) -> App
    decreases n,
{
    if n == 0 {
        a
    } else {
        down_times(a.step_down(), (n - 1) as nat)
    }
}

/// The cursor after `n` steps up, each snapped into the text.
pub open spec fn up_times(a: App, n: nat) -> App
    decreases n,
{
    if n == 0 {
        a
    } else {
        up_times(a.step_up(), (n - 1) as nat)
    }
}

/// The scroll offset that keeps row `y` inside a window of `h` rows.
pub open spec fn scroll_to(y: usize, offset: usize, h: usize) -> usize {
    let o1 = if y < offset { y } else { offset };
    if y >= o1 + h {
        (y - h + 1) as usize
    } else {
        o1
    }
}

proof fn lemma_leading_whitespace(line: Seq<char>, i: int)
    requires
        0 <= i <= line.len(),
        forall|j: int| 0 <= j < i ==> is_unicode_whitespace(#[trigger] line[j]),
        i == line.len() || !is_unicode_whitespace(line[i]),
    ensures
        leading_whitespace(line) == i,
    decreases i,
{
    if i > 0 {
        assert forall|j: int| 0 <= j < i - 1 implies is_unicode_whitespace(
            #[trigger] line.drop_first()[j],
        ) by {
            assert(line.drop_first()[j] == line[j + 1]);
        }
        lemma_leading_whitespace(line.drop_first(), i - 1);
    }
}

impl App {
    /// One column right, if not past the end of the cursor line.
    pub open spec fn step_right(self) -> App {
        if self.cursor_x < self.buffer.text()[self.cursor_y as int].len() {
            self.with_cursor((self.cursor_x + 1) as usize, self.cursor_y)
        } else {
            self
        }
    }

    /// Scrolled so that the cursor line is in the middle of the editor pane.
    pub open spec fn centered(self) -> App {
        if self.editor_viewport_height > 0 {
            let half = (self.editor_viewport_height / 2) as usize;
            App { row_offset: if self.cursor_y >= half { (self.cursor_y - half) as usize } else { 0 }, ..self }
        } else {
            self
        }
    }

    /// Half a page of steps down, and scrolled down by as much.
    pub open spec fn half_page_down(self) -> App {
        let amount = (self.editor_viewport_height / 2) as nat;
        App { row_offset: capped((self.row_offset + amount) as nat), ..down_times(self, amount) }
    }

    /// Half a page of steps up, and scrolled up by as much.
    pub open spec fn half_page_up(self) -> App {
        let amount = (self.editor_viewport_height / 2) as nat;
        App {
            row_offset: if self.row_offset >= amount { (self.row_offset - amount) as usize } else { 0 },
            ..up_times(self, amount)
        }
    }

    /// One step down, snapped, if not on the last line.
    pub open spec fn step_down(self) -> App {
        if self.cursor_y + 1 < self.buffer.text().len() {
            self.with_cursor(self.cursor_x, (self.cursor_y + 1) as usize).snap()
        } else {
            self
        }
    }

    /// One step up, snapped, if not on the first line.
    pub open spec fn step_up(self) -> App {
        if self.cursor_y > 0 {
            self.with_cursor(self.cursor_x, (self.cursor_y - 1) as usize).snap()
        } else {
            self
        }
    }

    /// To the first non-blank of the next line (as a byte offset), if there
    /// is a next line.
    pub open spec fn next_line_start(self) -> App {
        let t = self.buffer.text();
        if self.cursor_y + 1 < t.len() {
            self.with_cursor(first_non_whitespace_byte(t[self.cursor_y + 1]), (self.cursor_y + 1) as usize)
        } else {
            self
        }
    }

    /// The cursor after `w`: to the start of the next word on the line, or
    /// to the next line's first non-blank.
    pub open spec fn word_forward(self) -> App {
        let t = self.buffer.text();
        let y = self.cursor_y;
        if y < t.len() {
            let line = t[y as int];
            let x = self.cursor_x;
            if x >= line.len() {
                self.next_line_start()
            } else {
                let x2 = skip_whitespace(line, skip_same_kind(line, x as int, kind_of(line[x as int])));
                (if x2 < line.len() {
                    self.with_cursor(x2 as usize, y)
                } else {
                    self.next_line_start()
                }).snap()
            }
        } else {
            self
        }
    }

    /// The cursor after `b`: to the start of the word before the cursor, or
    /// at the start of a line to the last character of the line above.
    pub open spec fn word_backward(self) -> App {
        let t = self.buffer.text();
        let y = self.cursor_y;
        if self.cursor_x == 0 {
            if y > 0 {
                let len = t[y - 1].len();
                self.with_cursor(if len > 0 { (len - 1) as usize } else { 0 }, (y - 1) as usize)
            } else {
                self
            }
        } else {
            (if y < t.len() {
                let line = t[y as int];
                let x0 = back_over_whitespace(line, self.cursor_x - 1);
                self.with_cursor(word_start(line, x0, kind_of(line[x0])) as usize, y)
            } else {
                self
            }).snap()
        }
    }

    /// Moves the cursor one column right, up to the end of the line.
    pub fn move_cursor_right(&mut self)
        requires
            old(self).cursor_y < old(self).buffer.lines@.len(),
        ensures
            *final(self) == old(self).step_right(),
    {
        let char_count = char_count(&self.buffer.lines[self.cursor_y]);
        if self.cursor_x < char_count {
            self.cursor_x = self.cursor_x + 1;
        }
    }

    /// Moves the cursor one line up and snaps it.
    pub fn move_cursor_up(&mut self)
        ensures
            *final(self) == old(self).step_up(),
    {
        if self.cursor_y > 0 {
            self.cursor_y = self.cursor_y - 1;
            self.snap_cursor();
        }
    }

    /// Moves the cursor one line down, if not on the last, and snaps it.
    pub fn move_cursor_down(&mut self)
        requires
            old(self).buffer.lines@.len() >= 1,
        ensures
            *final(self) == old(self).step_down(),
    {
        if self.cursor_y < self.buffer.lines.len() - 1 {
            self.cursor_y = self.cursor_y + 1;
            self.snap_cursor();
        }
    }

    /// Scrolls so that the cursor line is in the middle of the editor pane.
    pub fn center_cursor(&mut self)
        ensures
            *final(self) == old(self).centered(),
    {
        let h = self.editor_viewport_height;
        if h > 0 {
            let half = (h / 2) as usize;
            self.row_offset = if self.cursor_y >= half { self.cursor_y - half } else { 0 };
        }
    }

    /// Moves to the start of the next word (`w`).
    pub fn move_word_forward(&mut self)
        requires
            old(self).buffer.lines@.len() >= 1,
        ensures
            *final(self) == old(self).word_forward(),
    {
        if self.cursor_y < self.buffer.lines.len() {
            let n = char_count(&self.buffer.lines[self.cursor_y]);
            let mut x = self.cursor_x;
            if x >= n {
                self.move_to_next_line_start();
                return;
            }
            let ghost line = self.buffer.text()[self.cursor_y as int];
            let start_kind = char_kind(char_at(&self.buffer.lines[self.cursor_y], x));
            while x < n && char_kind(char_at(&self.buffer.lines[self.cursor_y], x)) == start_kind
                invariant
                    self == old(self),
                    self.cursor_y < self.buffer.lines@.len(),
                    line == self.buffer.text()[self.cursor_y as int],
                    n == line.len(),
                    self.cursor_x <= x <= n,
                    skip_same_kind(line, self.cursor_x as int, start_kind) == skip_same_kind(line, x as int, start_kind),
                decreases n - x,
            {
                x = x + 1;
            }
            let ghost x1 = x;
            while x < n && char_is_whitespace(char_at(&self.buffer.lines[self.cursor_y], x))
                invariant
                    self == old(self),
                    self.cursor_y < self.buffer.lines@.len(),
                    line == self.buffer.text()[self.cursor_y as int],
                    n == line.len(),
                    x1 <= x <= n,
                    skip_whitespace(line, x1 as int) == skip_whitespace(line, x as int),
                decreases n - x,
            {
                x = x + 1;
            }
            if x < n {
                self.cursor_x = x;
            } else {
                self.move_to_next_line_start();
            }
            self.snap_cursor();
        }
    }

    /// Moves to the start of the previous word (`b`).
    pub fn move_word_backward(&mut self)
        requires
            old(self).cursor_x == 0 && old(self).cursor_y > 0 ==> old(self).cursor_y - 1 < old(
                self,
            ).buffer.lines@.len(),
            old(self).cursor_x > 0 && old(self).cursor_y < old(self).buffer.lines@.len()
                ==> old(self).cursor_x <= old(self).buffer.text()[old(self).cursor_y as int].len(),
        ensures
            *final(self) == old(self).word_backward(),
    {
        if self.cursor_x == 0 {
            if self.cursor_y > 0 {
                self.cursor_y = self.cursor_y - 1;
                let len = char_count(&self.buffer.lines[self.cursor_y]);
                self.cursor_x = if len > 0 { len - 1 } else { 0 };
            }
            return;
        }
        if self.cursor_y < self.buffer.lines.len() {
            let ghost line = self.buffer.text()[self.cursor_y as int];
            let mut x = self.cursor_x - 1;
            while x > 0 && char_is_whitespace(char_at(&self.buffer.lines[self.cursor_y], x))
                invariant
                    self == old(self),
                    self.cursor_y < self.buffer.lines@.len(),
                    line == self.buffer.text()[self.cursor_y as int],
                    x < line.len(),
                    back_over_whitespace(line, self.cursor_x - 1) == back_over_whitespace(line, x as int),
                decreases x,
            {
                x = x - 1;
            }
            let kind = char_kind(char_at(&self.buffer.lines[self.cursor_y], x));
            let ghost x0 = x;
            while x > 0 && char_kind(char_at(&self.buffer.lines[self.cursor_y], x - 1)) == kind
                invariant
                    self == old(self),
                    self.cursor_y < self.buffer.lines@.len(),
                    line == self.buffer.text()[self.cursor_y as int],
                    x <= x0 < line.len(),
                    kind == kind_of(line[x0 as int]),
                    word_start(line, x0 as int, kind) == word_start(line, x as int, kind),
                decreases x,
            {
                x = x - 1;
            }
            self.cursor_x = x;
        }
        self.snap_cursor();
    }

    fn move_to_next_line_start(&mut self)
        requires
            old(self).buffer.lines@.len() >= 1,
        ensures
            *final(self) == old(self).next_line_start(),
    {
        if self.cursor_y < self.buffer.lines.len() - 1 {
            self.cursor_y = self.cursor_y + 1;
            let ghost line = self.buffer.text()[self.cursor_y as int];
            let n = char_count(&self.buffer.lines[self.cursor_y]);
            let mut i: usize = 0;
            let mut bytes: usize = 0;
            while i < n && char_is_whitespace(char_at(&self.buffer.lines[self.cursor_y], i))
                invariant
                    self.cursor_y < self.buffer.lines@.len(),
                    line == self.buffer.text()[self.cursor_y as int],
                    n == line.len(),
                    i <= n,
                    forall|j: int| 0 <= j < i ==> is_unicode_whitespace(#[trigger] line[j]),
                    bytes == capped(utf8_width(line.take(i as int))),
                decreases n - i,
            {
                let w = char_len_utf8(char_at(&self.buffer.lines[self.cursor_y], i));
                proof {
                    assert(line.take(i + 1).drop_last() =~= line.take(i as int));
                }
                bytes = bytes.saturating_add(w);
                i = i + 1;
            }
            proof {
                lemma_leading_whitespace(line, i as int);
            }
            self.cursor_x = if i < n { bytes } else { 0 };
        }
    }

    /// Moves the cursor down half a page and scrolls by as much.
    pub fn scroll_half_page_down(&mut self)
        requires
            old(self).buffer.lines@.len() >= 1,
        ensures
            *final(self) == old(self).half_page_down(),
    {
        let h = self.editor_viewport_height;
        let amount = h / 2;
        let mut k: u16 = 0;
        while k < amount
            invariant
                k <= amount,
                amount == old(self).editor_viewport_height / 2,
                *self == down_times(*old(self), k as nat),
                self.buffer.lines@.len() >= 1,
            decreases amount - k,
        {
            proof {
                lemma_down_times_split(*old(self), k as nat);
            }
            self.move_cursor_down();
            k = k + 1;
        }
        proof {
            lemma_down_times_keeps(*old(self), amount as nat);
        }
        self.row_offset = self.row_offset.saturating_add(amount as usize);
    }

    /// Moves the cursor up half a page and scrolls back by as much.
    pub fn scroll_half_page_up(&mut self)
        ensures
            *final(self) == old(self).half_page_up(),
    {
        let h = self.editor_viewport_height as usize;
        let amount = h / 2;
        let mut k: usize = 0;
        while k < amount
            invariant
                k <= amount,
                amount == old(self).editor_viewport_height / 2,
                *self == up_times(*old(self), k as nat),
            decreases amount - k,
        {
            proof {
                lemma_up_times_split(*old(self), k as nat);
            }
            self.move_cursor_up();
            k = k + 1;
        }
        proof {
            lemma_up_times_keeps(*old(self), amount as nat);
        }
        self.row_offset = self.row_offset.saturating_sub(amount);
    }

    /// Records the height of the editor pane.
    pub fn update_viewport_height(&mut self, height: u16)
        ensures
            *final(self) == (App { editor_viewport_height: height, ..*old(self) }),
    {
        self.editor_viewport_height = height;
    }

    /// Scrolls so that the cursor row is inside a window of
    /// `terminal_height` rows.
    pub fn scroll(&mut self, terminal_height: usize)
        requires
            (if old(self).cursor_y < old(self).row_offset {
                old(self).cursor_y
            } else {
                old(self).row_offset
            }) + terminal_height <= usize::MAX,
            terminal_height == 0 ==> old(self).cursor_y < usize::MAX,
        ensures
            *final(self) == (App {
                row_offset: scroll_to(old(self).cursor_y, old(self).row_offset, terminal_height),
                ..*old(self)
            }),
    {
        if self.cursor_y < self.row_offset {
            self.row_offset = self.cursor_y;
        }
        if self.cursor_y - self.row_offset >= terminal_height {
            self.row_offset = self.cursor_y - terminal_height + 1;
        }
    }
}

proof fn lemma_down_times_split(a: App, k: nat)
    ensures
        down_times(a, k + 1) == down_times(a, k).step_down(),
    decreases k,
{
    assert(down_times(a, k + 1) == down_times(a.step_down(), k));
    if k > 0 {
        lemma_down_times_split(a.step_down(), (k - 1) as nat);
        assert(down_times(a, k) == down_times(a.step_down(), (k - 1) as nat));
    } else {
        assert(down_times(a.step_down(), 0) == a.step_down());
        assert(down_times(a, 0) == a);
    }
}

proof fn lemma_down_times_keeps(a: App, k: nat)
    ensures
        down_times(a, k).row_offset == a.row_offset,
        down_times(a, k).editor_viewport_height == a.editor_viewport_height,
        down_times(a, k).buffer == a.buffer,
        down_times(a, k).mode == a.mode,
    decreases k,
{
    if k > 0 {
        lemma_down_times_keeps(a.step_down(), (k - 1) as nat);
    }
}

proof fn lemma_up_times_keeps(a: App, k: nat)
    ensures
        up_times(a, k).row_offset == a.row_offset,
        up_times(a, k).editor_viewport_height == a.editor_viewport_height,
        up_times(a, k).buffer == a.buffer,
        up_times(a, k).mode == a.mode,
    decreases k,
{
    if k > 0 {
        lemma_up_times_keeps(a.step_up(), (k - 1) as nat);
    }
}

proof fn lemma_up_times_split(a: App, k: nat)
    ensures
        up_times(a, k + 1) == up_times(a, k).step_up(),
    decreases k,
{
    assert(up_times(a, k + 1) == up_times(a.step_up(), k));
    if k > 0 {
        lemma_up_times_split(a.step_up(), (k - 1) as nat);
        assert(up_times(a, k) == up_times(a.step_up(), (k - 1) as nat));
    } else {
        assert(up_times(a.step_up(), 0) == a.step_up());
        assert(up_times(a, 0) == a);
    }
}

/// Scrolling by half pages moves the cursor only: the text and the mode
/// stay.
pub proof fn lemma_half_pages_keep_text(a: App)
    ensures
        a.half_page_down().buffer == a.buffer,
        a.half_page_up().buffer == a.buffer,
        a.half_page_down().mode == a.mode,
        a.half_page_up().mode == a.mode,
{
    lemma_down_times_keeps(a, (a.editor_viewport_height / 2) as nat);
    lemma_up_times_keeps(a, (a.editor_viewport_height / 2) as nat);
}

/// After `scroll`, the cursor row is inside the window.
pub proof fn law_scroll_keeps_cursor_visible(y: usize, offset: usize, h: usize)
    requires
        h > 0,
    ensures
        scroll_to(y, offset, h) <= y,
        y < scroll_to(y, offset, h) + h,
{
}

/// Column `i` of `line` starts a word: its character is not whitespace, and
/// it is the first of the line or differs in kind from the one before it.
pub open spec fn starts_word(line: Seq<char>, i: int) -> bool {
    &&& 0 <= i < line.len()
    &&& !is_unicode_whitespace(line[i])
    &&& (i == 0 || kind_of(line[i]) != kind_of(line[i - 1]))
}

proof fn lemma_skip_same_kind(line: Seq<char>, x: int, k: CharKind)
    requires
        0 <= x <= line.len(),
    ensures
        x <= skip_same_kind(line, x, k) <= line.len(),
        forall|i: int| x <= i < skip_same_kind(line, x, k) ==> kind_of(#[trigger] line[i]) == k,
        skip_same_kind(line, x, k) < line.len() ==> kind_of(line[skip_same_kind(line, x, k)]) != k,
    decreases line.len() - x,
{
    if x < line.len() && kind_of(line[x]) == k {
        lemma_skip_same_kind(line, x + 1, k);
    }
}

proof fn lemma_skip_whitespace(line: Seq<char>, x: int)
    requires
        0 <= x <= line.len(),
    ensures
        x <= skip_whitespace(line, x) <= line.len(),
        forall|i: int| x <= i < skip_whitespace(line, x) ==> is_unicode_whitespace(#[trigger] line[i]),
        skip_whitespace(line, x) < line.len() ==> !is_unicode_whitespace(line[skip_whitespace(line, x)]),
    decreases line.len() - x,
{
    if x < line.len() && is_unicode_whitespace(line[x]) {
        lemma_skip_whitespace(line, x + 1);
    }
}

proof fn lemma_back_over_whitespace(line: Seq<char>, x: int)
    requires
        0 <= x < line.len(),
    ensures
        0 <= back_over_whitespace(line, x) <= x,
        forall|i: int| back_over_whitespace(line, x) < i <= x ==> is_unicode_whitespace(#[trigger] line[i]),
        back_over_whitespace(line, x) > 0 ==> !is_unicode_whitespace(line[back_over_whitespace(line, x)]),
        back_over_whitespace(line, x) == 0 && x > 0 ==> is_unicode_whitespace(line[1]),
    decreases x,
{
    if x > 0 && is_unicode_whitespace(line[x]) {
        lemma_back_over_whitespace(line, x - 1);
    }
}

proof fn lemma_word_start(line: Seq<char>, x: int, k: CharKind)
    requires
        0 <= x < line.len(),
        kind_of(line[x]) == k,
    ensures
        0 <= word_start(line, x, k) <= x,
        forall|i: int| word_start(line, x, k) <= i <= x ==> kind_of(#[trigger] line[i]) == k,
        word_start(line, x, k) == 0 || kind_of(line[word_start(line, x, k) - 1]) != k,
    decreases x,
{
    if x > 0 && kind_of(line[x - 1]) == k {
        lemma_word_start(line, x - 1, k);
    }
}

/// `w` from a character of a line that has a word starting after the
/// cursor: the cursor stays on the line and lands on the first word start
/// after it. Every column it passes (the rest of the cursor's run and the
/// whitespace after it) starts no word, and it lands on a character that is
/// not whitespace; nothing else changes.
pub proof fn law_word_forward_lands_on_next_word(a: App, j: int)
    requires
        a.cursor_y < a.buffer.text().len(),
        a.cursor_x < a.buffer.text()[a.cursor_y as int].len(),
        a.cursor_x < j <= usize::MAX,
        starts_word(a.buffer.text()[a.cursor_y as int], j),
    ensures
        ({
            let line = a.buffer.text()[a.cursor_y as int];
            let b = a.word_forward();
            &&& b.cursor_y == a.cursor_y
            &&& a.cursor_x < b.cursor_x <= j
            &&& starts_word(line, b.cursor_x as int)
            &&& !is_unicode_whitespace(line[b.cursor_x as int])
            &&& forall|i: int| a.cursor_x < i < b.cursor_x ==> !#[trigger] starts_word(line, i)
            &&& b == a.with_cursor(b.cursor_x, b.cursor_y)
        }),
{
    let line = a.buffer.text()[a.cursor_y as int];
    let x = a.cursor_x as int;
    let k = kind_of(line[x]);
    let e = skip_same_kind(line, x, k);
    lemma_skip_same_kind(line, x, k);
    let p = skip_whitespace(line, e);
    lemma_skip_whitespace(line, e);
    assert(e > x);
    assert forall|i: int| x < i < p implies !#[trigger] starts_word(line, i) by {
        if i < e {
            assert(kind_of(line[i]) == k);
            assert(kind_of(line[i - 1]) == k);
        } else {
            assert(is_unicode_whitespace(line[i]));
        }
    }
    assert(p <= j);
    assert(starts_word(line, p)) by {
        if p == e {
            assert(kind_of(line[p - 1]) == k);
        } else {
            assert(is_unicode_whitespace(line[p - 1]));
        }
    }
    let c = a.with_cursor(p as usize, a.cursor_y);
    assert(c.buffer.text() == a.buffer.text());
    assert(p <= max_col(c.mode, line.len()));
    assert(c.snap() == c);
    assert(a.word_forward() == c);
}

/// `w` from a character of a line where no word starts after the cursor:
/// the cursor goes to the first non-blank of the next line, if there is one.
pub proof fn law_word_forward_without_next_word(a: App)
    requires
        a.cursor_y < a.buffer.text().len(),
        a.cursor_x < a.buffer.text()[a.cursor_y as int].len(),
        forall|i: int| a.cursor_x < i ==> !#[trigger] starts_word(a.buffer.text()[a.cursor_y as int], i),
    ensures
        a.word_forward() == a.next_line_start().snap(),
{
    let line = a.buffer.text()[a.cursor_y as int];
    let x = a.cursor_x as int;
    let k = kind_of(line[x]);
    let e = skip_same_kind(line, x, k);
    lemma_skip_same_kind(line, x, k);
    let p = skip_whitespace(line, e);
    lemma_skip_whitespace(line, e);
    if p < line.len() {
        assert(starts_word(line, p)) by {
            if p == e {
                assert(kind_of(line[p - 1]) == k);
            } else {
                assert(is_unicode_whitespace(line[p - 1]));
            }
        }
        assert(false);
    }
}

/// `b` from inside a line: the cursor stays on the line and lands on the
/// last word start before it, skipping the whitespace before the cursor and
/// the rest of the word; where no word starts before the cursor, it lands
/// on the start of the line. Nothing else changes.
pub proof fn law_word_backward_lands_on_previous_word(a: App)
    requires
        a.cursor_y < a.buffer.text().len(),
        0 < a.cursor_x <= a.buffer.text()[a.cursor_y as int].len(),
    ensures
        ({
            let line = a.buffer.text()[a.cursor_y as int];
            let b = a.word_backward();
            &&& b.cursor_y == a.cursor_y
            &&& b.cursor_x < a.cursor_x
            &&& (starts_word(line, b.cursor_x as int) || (b.cursor_x == 0 && forall|i: int|
                0 <= i < a.cursor_x ==> !#[trigger] starts_word(line, i)))
            &&& forall|i: int| b.cursor_x < i < a.cursor_x ==> !#[trigger] starts_word(line, i)
            &&& b == a.with_cursor(b.cursor_x, b.cursor_y)
        }),
{
    let line = a.buffer.text()[a.cursor_y as int];
    let x = a.cursor_x as int;
    let x0 = back_over_whitespace(line, x - 1);
    lemma_back_over_whitespace(line, x - 1);
    let k = kind_of(line[x0]);
    let s = word_start(line, x0, k);
    lemma_word_start(line, x0, k);
    assert forall|i: int| s < i < x implies !#[trigger] starts_word(line, i) by {
        if i <= x0 {
            assert(kind_of(line[i]) == k);
            assert(kind_of(line[i - 1]) == k);
        } else {
            assert(is_unicode_whitespace(line[i]));
        }
    }
    if !is_unicode_whitespace(line[x0]) {
        assert(starts_word(line, s));
    } else {
        assert(x0 == 0);
        assert(s == 0);
        assert(!starts_word(line, 0));
    }
}

} // verus!
