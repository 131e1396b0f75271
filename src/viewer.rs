use vstd::prelude::*;
use vstd::string::StringExecFns;

verus! {

/// A control character: general category Cc, that is U+0000 to U+001F and
/// U+007F to U+009F.
pub open spec fn is_control(c: char) -> bool {
    (c as u32) <= 0x1f || (0x7f <= (c as u32) && (c as u32) <= 0x9f)
}

/// A character that survives sanitising: not a control character, or a
/// newline or a tab.
pub open spec fn is_kept(c: char) -> bool {
    !is_control(c) || c == '\n' || c == '\t'
}

/// A line with its control characters removed.
pub open spec fn cleaned(line: Seq<char>) -> Seq<char> {
    line.filter(|c: char| is_kept(c))
}

/// `needle` occurs in `hay` at position `i`.
pub open spec fn occurs_at(hay: Seq<char>, needle: Seq<char>, i: int) -> bool {
    0 <= i && i + needle.len() <= hay.len() && hay.subrange(i, i + needle.len()) == needle
}

/// `needle` occurs somewhere in `hay`.
pub open spec fn contains(hay: Seq<char>, needle: Seq<char>) -> bool {
    exists|i: int| occurs_at(hay, needle, i)
}

pub open spec fn icon_key() -> Seq<char> {
    seq!['"', 'i', 'c', 'o', 'n', '"']
}

pub open spec fn icon_mime_key() -> Seq<char> {
    seq!['"', 'i', 'c', 'o', 'n', '_', 'm', 'i', 'm', 'e', '"']
}

pub open spec fn icon_hash_key() -> Seq<char> {
    seq!['"', 'i', 'c', 'o', 'n', '_', 'h', 'a', 's', 'h', '"']
}

/// What stands in place of a line that carries icon data.
pub open spec fn icon_placeholder() -> Seq<char> {
    seq!['[', 'i', 'c', 'o', 'n', ' ', 'r', 'e', 'm', 'o', 'v', 'e', 'd', ']']
}

/// A line that names one of the icon fields.
pub open spec fn is_icon_line(line: Seq<char>) -> bool {
    contains(line, icon_key()) || contains(line, icon_mime_key()) || contains(line, icon_hash_key())
}

/// How a raw line is shown: cleaned, and replaced by the placeholder where it
/// carries icon data.
pub open spec fn shown_line(raw: Seq<char>) -> Seq<char> {
    if is_icon_line(cleaned(raw)) {
        icon_placeholder()
    } else {
        cleaned(raw)
    }
}

/// The pieces of a text between newlines; there is always one more piece
/// than there are newlines.
pub open spec fn pieces(text: Seq<char>) -> Seq<Seq<char>>
    decreases text.len(),
{
    if text.len() == 0 {
        seq![Seq::empty()]
    } else {
        let rest = pieces(text.drop_last());
        if text.last() == '\n' {
            rest.push(Seq::empty())
        } else {
            rest.update(rest.len() - 1, rest.last().push(text.last()))
        }
    }
}

/// The lines of a text: its pieces between newlines, without the empty
/// piece that follows a final newline.
pub open spec fn text_lines(text: Seq<char>) -> Seq<Seq<char>> {
    let p = pieces(text);
    if p.last().len() == 0 {
        p.drop_last()
    } else {
        p
    }
}

/// The lines of a text as the viewer shows them.
pub open spec fn shown_lines(text: Seq<char>) -> Seq<Seq<char>> {
    text_lines(text).map_values(|l: Seq<char>| shown_line(l))
}

/// The indices, in increasing order, of the first `n` lines that contain
/// the query.
pub open spec fn matches_upto(lines: Seq<Seq<char>>, query: Seq<char>, n: int) -> Seq<usize>
    decreases n,
{
    if n <= 0 {
        Seq::empty()
    } else {
        let prev = matches_upto(lines, query, n - 1);
        if contains(lines[n - 1], query) {
            prev.push((n - 1) as usize)
        } else {
            prev
        }
    }
}

/// The indices, in increasing order, of the lines that contain the query.
pub open spec fn matching_lines(lines: Seq<Seq<char>>, query: Seq<char>) -> Seq<usize> {
    matches_upto(lines, query, lines.len() as int)
}

pub open spec fn lines_view(lines: Vec<Vec<char>>) -> Seq<Seq<char>> {
    lines@.map_values(|l: Vec<char>| l@)
}

/// The characters of a text, in order.
pub fn chars_of(s: &str) -> (r: Vec<char>)
    ensures
        r@ == s@,
{
    let mut r: Vec<char> = Vec::new();
    for c in it: s.chars()
        invariant
            r@ == it.seq().take(it.index() as int),
            it.seq() == s@,
    {
        r.push(c);
    }
    r
}

pub fn is_control_char(c: char) -> (r: bool)
    ensures
        r == is_control(c),
{
    (c as u32) <= 0x1f || (0x7f <= (c as u32) && (c as u32) <= 0x9f)
}

/// The line with its control characters, but newline and tab, removed.
pub fn clean_line(line: &Vec<char>) -> (r: Vec<char>)
    ensures
        r@ == cleaned(line@),
{
    let mut r: Vec<char> = Vec::new();
    let mut i: usize = 0;
    while i < line.len()
        invariant
            i <= line@.len(),
            r@ == cleaned(line@.take(i as int)),
        decreases line@.len() - i,
    {
        let c = line[i];
        proof {
            assert(line@.take(i as int + 1) =~= line@.take(i as int).push(c));
            line@.take(i as int).lemma_filter_push(c, |c: char| is_kept(c));
        }
        if !is_control_char(c) || c == '\n' || c == '\t' {
            r.push(c);
        }
        i = i + 1;
    }
    assert(line@.take(line@.len() as int) =~= line@);
    r
}

/// Whether `needle` occurs in `hay` at position `i`.
pub fn occurs_at_pos(hay: &Vec<char>, needle: &Vec<char>, i: usize) -> (r: bool)
    requires
        i <= hay@.len(),
    ensures
        r == occurs_at(hay@, needle@, i as int),
{
    if needle.len() > hay.len() - i {
        return false;
    }
    let mut j: usize = 0;
    while j < needle.len()
        invariant
            j <= needle@.len(),
            i + needle@.len() <= hay@.len(),
            hay@.len() <= usize::MAX,
            forall|k: int| 0 <= k < j ==> hay@[i + k] == needle@[k],
        decreases needle@.len() - j,
    {
        if hay[i + j] != needle[j] {
            assert(hay@.subrange(i as int, i + needle@.len())[j as int] != needle@[j as int]);
            return false;
        }
        j = j + 1;
    }
    assert(hay@.subrange(i as int, i + needle@.len()) =~= needle@);
    true
}

/// Whether `needle` occurs somewhere in `hay`; the empty needle occurs in
/// every text.
pub fn contains_chars(hay: &Vec<char>, needle: &Vec<char>) -> (r: bool)
    ensures
        r == contains(hay@, needle@),
{
    let mut i: usize = 0;
    while i < hay.len()
        invariant
            i <= hay@.len(),
            forall|k: int| 0 <= k < i ==> !occurs_at(hay@, needle@, k),
        decreases hay@.len() - i,
    {
        if occurs_at_pos(hay, needle, i) {
            return true;
        }
        i = i + 1;
    }
    if occurs_at_pos(hay, needle, i) {
        return true;
    }
    assert forall|k: int| !occurs_at(hay@, needle@, k) by {
        if 0 <= k && k <= hay@.len() {
            assert(k < i || k == i);
        }
    }
    false
}

pub proof fn lemma_matches_below(lines: Seq<Seq<char>>, query: Seq<char>, n: int)
    requires
        n <= usize::MAX,
    ensures
        forall|k: int|
            0 <= k < matches_upto(lines, query, n).len() ==> #[trigger] matches_upto(
                lines,
                query,
                n,
            )[k] < n,
    decreases n,
{
    if n > 0 {
        lemma_matches_below(lines, query, n - 1);
        let prev = matches_upto(lines, query, n - 1);
        let cur = matches_upto(lines, query, n);
        assert forall|k: int| 0 <= k < cur.len() implies #[trigger] cur[k] < n by {
            if k < prev.len() {
                assert(cur[k] == prev[k]);
            }
        }
    }
}

/// The line as it is shown: cleaned, or the placeholder where it carries
/// icon data.
pub fn shown_line_of(raw: &Vec<char>) -> (r: Vec<char>)
    ensures
        r@ == shown_line(raw@),
{
    let line = clean_line(raw);
    let icon = vec!['"', 'i', 'c', 'o', 'n', '"'];
    let icon_mime = vec!['"', 'i', 'c', 'o', 'n', '_', 'm', 'i', 'm', 'e', '"'];
    let icon_hash = vec!['"', 'i', 'c', 'o', 'n', '_', 'h', 'a', 's', 'h', '"'];
    assert(icon@ =~= icon_key());
    assert(icon_mime@ =~= icon_mime_key());
    assert(icon_hash@ =~= icon_hash_key());
    if contains_chars(&line, &icon) || contains_chars(&line, &icon_mime) || contains_chars(
        &line,
        &icon_hash,
    ) {
        let r = vec!['[', 'i', 'c', 'o', 'n', ' ', 'r', 'e', 'm', 'o', 'v', 'e', 'd', ']'];
        assert(r@ =~= icon_placeholder());
        r
    } else {
        line
    }
}

/// Splits a decrypted text into the lines that the viewer shows: split at
/// newlines (no line after a final newline), control characters removed,
/// lines with icon data replaced by a placeholder.
pub fn sanitize_lines(text: &str) -> (r: Vec<Vec<char>>)
    ensures
        lines_view(r) == shown_lines(text@),
{
    let chars = chars_of(text);
    let mut out: Vec<Vec<char>> = Vec::new();
    let mut cur: Vec<char> = Vec::new();
    let mut i: usize = 0;
    proof {
        assert(chars@.take(0) =~= Seq::<char>::empty());
        assert(lines_view(out) =~= pieces(chars@.take(0)).drop_last().map_values(
            |l: Seq<char>| shown_line(l),
        ));
    }
    while i < chars.len()
        invariant
            i <= chars@.len(),
            pieces(chars@.take(i as int)).len() >= 1,
            lines_view(out) == pieces(chars@.take(i as int)).drop_last().map_values(
                |l: Seq<char>| shown_line(l),
            ),
            cur@ == pieces(chars@.take(i as int)).last(),
        decreases chars@.len() - i,
    {
        let c = chars[i];
        let ghost before = chars@.take(i as int);
        let ghost after = chars@.take(i as int + 1);
        let ghost p = pieces(before);
        proof {
            assert(after.drop_last() =~= before);
            assert(after.last() == c);
        }
        if c == '\n' {
            let shown = shown_line_of(&cur);
            let ghost old_lv = lines_view(out);
            out.push(shown);
            cur = Vec::new();
            proof {
                assert(lines_view(out) =~= old_lv.push(shown_line(p.last())));
                assert(pieces(after) == p.push(Seq::<char>::empty()));
                assert(pieces(after).drop_last() =~= p);
                assert(lines_view(out) =~= p.map_values(|l: Seq<char>| shown_line(l)));
            }
        } else {
            cur.push(c);
            proof {
                assert(pieces(after) == p.update(p.len() - 1, p.last().push(c)));
                assert(pieces(after).drop_last() =~= p.drop_last());
            }
        }
        i = i + 1;
    }
    proof {
        assert(chars@.take(i as int) =~= text@);
    }
    if cur.len() > 0 {
        let shown = shown_line_of(&cur);
        let ghost old_lv = lines_view(out);
        out.push(shown);
        proof {
            let p = pieces(text@);
            assert(lines_view(out) =~= old_lv.push(shown_line(p.last())));
            assert(lines_view(out) =~= p.map_values(|l: Seq<char>| shown_line(l)));
        }
    } else {
        proof {
            assert(cur@.len() == 0);
        }
    }
    out
}

/// The indices, in increasing order, of the lines that contain the query.
pub fn find_matches(lines: &Vec<Vec<char>>, query: &Vec<char>) -> (r: Vec<usize>)
    ensures
        r@ == matching_lines(lines_view(*lines), query@),
{
    let mut r: Vec<usize> = Vec::new();
    let mut i: usize = 0;
    while i < lines.len()
        invariant
            i <= lines@.len(),
            r@ == matches_upto(lines_view(*lines), query@, i as int),
        decreases lines@.len() - i,
    {
        if contains_chars(&lines[i], query) {
            r.push(i);
        }
        i = i + 1;
    }
    r
}

/// A key press, as the viewer distinguishes them.
#[derive(PartialEq, Eq, Structural, Debug, Clone, Copy)]
pub enum Key {
    Char(char),
    Esc,
    Enter,
    Backspace,
    Up,
    Down,
    Other,
}

/// What the loop around the viewer does after a key.
#[derive(PartialEq, Eq, Structural, Debug, Clone, Copy)]
pub enum Action {
    /// Redraw and wait for the next key.
    Continue,
    /// Leave the viewer.
    Quit,
    /// Ask where to save the decrypted text, write it, and report the
    /// outcome in the status line.
    Export,
}

/// The message of the status line.
#[derive(Debug)]
pub enum Status {
    Clear,
    /// A search found this many lines.
    Found(usize),
    /// A search found no line.
    NotFound,
    /// The text was written to this path.
    Exported(String),
    /// Writing the text failed with this message.
    ExportFailed(String),
    ExportCancelled,
}

/// The state of the text viewer: the shown lines, the first line on screen,
/// and the search.
pub struct Viewer {
    pub lines: Vec<Vec<char>>,
    pub scroll: usize,
    pub search_mode: bool,
    pub query: Vec<char>,
    pub results: Vec<usize>,
    pub search_index: usize,
    pub status: Status,
}

impl Viewer {
    /// The first line on screen is a line (or the end), every search result
    /// is a line, and the current result is one of them.
    pub open spec fn wf(&self) -> bool {
        &&& self.scroll <= self.lines@.len()
        &&& forall|k: int|
            0 <= k < self.results@.len() ==> #[trigger] self.results@[k] < self.lines@.len()
        &&& self.results@.len() > 0 ==> self.search_index < self.results@.len()
    }

    /// A viewer of a decrypted text, at its top, with no search.
    pub fn new(text: &str) -> (r: Viewer)
        ensures
            r.wf(),
            lines_view(r.lines) == shown_lines(text@),
            r.scroll == 0,
            !r.search_mode,
            r.query@.len() == 0,
            r.results@.len() == 0,
            r.search_index == 0,
            r.status is Clear,
    {
        Viewer {
            lines: sanitize_lines(text),
            scroll: 0,
            search_mode: false,
            query: Vec::new(),
            results: Vec::new(),
            search_index: 0,
            status: Status::Clear,
        }
    }
}

/// The search fields are the same in both states.
pub open spec fn same_search(v: Viewer, w: Viewer) -> bool {
    &&& w.search_mode == v.search_mode
    &&& w.query@ == v.query@
    &&& w.results@ == v.results@
    &&& w.search_index == v.search_index
}

/// Nothing that the viewer shows has changed.
pub open spec fn unchanged(v: Viewer, w: Viewer) -> bool {
    &&& same_search(v, w)
    &&& w.scroll == v.scroll
    &&& w.status == v.status
}

/// A key typed while the search query is being entered.
pub open spec fn search_key_step(v: Viewer, w: Viewer, key: Key) -> bool {
    match key {
        Key::Esc => {
            &&& !w.search_mode
            &&& w.query@.len() == 0
            &&& w.results@.len() == 0
            &&& w.search_index == 0
            &&& w.scroll == v.scroll
            &&& w.status == v.status
        },
        Key::Char(c) => {
            &&& w.search_mode
            &&& w.query@ == v.query@.push(c)
            &&& w.results@ == v.results@
            &&& w.search_index == v.search_index
            &&& w.scroll == v.scroll
            &&& w.status == v.status
        },
        Key::Backspace => {
            &&& w.search_mode
            &&& w.query@ == (if v.query@.len() > 0 {
                v.query@.drop_last()
            } else {
                v.query@
            })
            &&& w.results@ == v.results@
            &&& w.search_index == v.search_index
            &&& w.scroll == v.scroll
            &&& w.status == v.status
        },
        Key::Enter => {
            &&& !w.search_mode
            &&& w.query@ == v.query@
            &&& w.results@ == matching_lines(lines_view(v.lines), v.query@)
            &&& if w.results@.len() > 0 {
                &&& w.scroll == w.results@[0]
                &&& w.search_index == 0
                &&& w.status == Status::Found(w.results@.len() as usize)
            } else {
                &&& w.scroll == v.scroll
                &&& w.search_index == v.search_index
                &&& w.status == Status::NotFound
            }
        },
        _ => unchanged(v, w),
    }
}

/// A key typed while browsing, with `height` lines on screen.
pub open spec fn browse_key_step(v: Viewer, w: Viewer, key: Key, height: usize) -> bool {
    let n = v.results@.len();
    match key {
        Key::Up => {
            &&& same_search(v, w)
            &&& w.status == v.status
            &&& w.scroll == (if v.scroll > 0 {
                v.scroll - 1
            } else {
                v.scroll as int
            })
        },
        Key::Down => {
            &&& same_search(v, w)
            &&& w.status == v.status
            &&& w.scroll == (if v.scroll + height < v.lines@.len() {
                v.scroll + 1
            } else {
                v.scroll as int
            })
        },
        Key::Char('/') => {
            &&& w.search_mode
            &&& w.query@.len() == 0
            &&& w.results@ == v.results@
            &&& w.search_index == v.search_index
            &&& w.scroll == v.scroll
            &&& w.status is Clear
        },
        Key::Char('n') => if n > 0 {
            &&& w.search_mode == v.search_mode
            &&& w.query@ == v.query@
            &&& w.results@ == v.results@
            &&& w.search_index == (v.search_index + 1) % (n as int)
            &&& w.scroll == w.results@[w.search_index as int]
            &&& w.status == v.status
        } else {
            unchanged(v, w)
        },
        Key::Char('N') => if n > 0 {
            &&& w.search_mode == v.search_mode
            &&& w.query@ == v.query@
            &&& w.results@ == v.results@
            &&& w.search_index == (v.search_index + n - 1) % (n as int)
            &&& w.scroll == w.results@[w.search_index as int]
            &&& w.status == v.status
        } else {
            unchanged(v, w)
        },
        _ => unchanged(v, w),
    }
}

/// What a key does: the next state and the action for the loop around.
pub open spec fn key_step(v: Viewer, w: Viewer, key: Key, height: usize, action: Action) -> bool {
    &&& lines_view(w.lines) == lines_view(v.lines)
    &&& if v.search_mode {
        action == Action::Continue && search_key_step(v, w, key)
    } else if key == Key::Char('q') || key == Key::Esc {
        action == Action::Quit && unchanged(v, w)
    } else if key == Key::Char('e') {
        action == Action::Export && unchanged(v, w)
    } else {
        action == Action::Continue && browse_key_step(v, w, key, height)
    }
}

impl Viewer {
    /// Handles one key, with `height` lines of text on screen.
    pub fn handle_key(&mut self, key: Key, height: usize) -> (action: Action)
        requires
            old(self).wf(),
        ensures
            final(self).wf(),
            key_step(*old(self), *final(self), key, height, action),
    {
        if self.search_mode {
            match key {
                Key::Esc => {
                    self.search_mode = false;
                    self.query = Vec::new();
                    self.results = Vec::new();
                    self.search_index = 0;
                },
                Key::Char(c) => {
                    self.query.push(c);
                },
                Key::Backspace => {
                    self.query.pop();
                },
                Key::Enter => {
                    let n_lines = self.lines.len();
                    let results = find_matches(&self.lines, &self.query);
                    proof {
                        lemma_matches_below(lines_view(self.lines), self.query@, n_lines as int);
                    }
                    if results.len() > 0 {
                        self.scroll = results[0];
                        self.search_index = 0;
                        self.status = Status::Found(results.len());
                    } else {
                        self.status = Status::NotFound;
                    }
                    self.results = results;
                    self.search_mode = false;
                },
                _ => {},
            }
            return Action::Continue;
        }
        match key {
            Key::Char('q') | Key::Esc => Action::Quit,
            Key::Char('e') => Action::Export,
            Key::Up => {
                if self.scroll > 0 {
                    self.scroll = self.scroll - 1;
                }
                Action::Continue
            },
            Key::Down => {
                if height < self.lines.len() - self.scroll {
                    self.scroll = self.scroll + 1;
                }
                Action::Continue
            },
            Key::Char('/') => {
                self.search_mode = true;
                self.query = Vec::new();
                self.status = Status::Clear;
                Action::Continue
            },
            Key::Char('n') => {
                let n = self.results.len();
                if n > 0 {
                    let i0 = self.search_index;
                    let next: usize = if i0 + 1 == n {
                        0
                    } else {
                        i0 + 1
                    };
                    assert(next as int == (i0 + 1) % (n as int)) by (nonlinear_arith)
                        requires
                            i0 < n,
                            next == (if i0 + 1 == n {
                                0
                            } else {
                                i0 + 1
                            }),
                    ;
                    self.search_index = next;
                    self.scroll = self.results[self.search_index];
                }
                Action::Continue
            },
            Key::Char('N') => {
                let n = self.results.len();
                if n > 0 {
                    let i0 = self.search_index;
                    let prev: usize = if i0 == 0 {
                        n - 1
                    } else {
                        i0 - 1
                    };
                    assert(prev as int == (i0 + n - 1) % (n as int)) by (nonlinear_arith)
                        requires
                            i0 < n,
                            prev == (if i0 == 0 {
                                n - 1
                            } else {
                                i0 - 1
                            }),
                    ;
                    self.search_index = prev;
                    self.scroll = self.results[self.search_index];
                }
                Action::Continue
            },
            _ => Action::Continue,
        }
    }
}

/// One past the last line on screen, `height` lines from the first.
pub open spec fn window_end(v: Viewer, height: usize) -> int {
    if v.scroll + height <= v.lines@.len() {
        v.scroll + height
    } else {
        v.lines@.len() as int
    }
}

/// Line `j` is a search result.
pub open spec fn is_result(v: Viewer, j: int) -> bool {
    exists|k: int| 0 <= k < v.results@.len() && v.results@[k] == j
}

/// Line `j` as drawn: search results are marked with a leading `> `.
pub open spec fn drawn_line(v: Viewer, j: int) -> Seq<char> {
    if is_result(v, j) {
        seq!['>', ' '] + lines_view(v.lines)[j]
    } else {
        lines_view(v.lines)[j]
    }
}

/// The lines on screen, from the first one on, `height` of them at most.
pub open spec fn visible(v: Viewer, height: usize) -> Seq<Seq<char>> {
    Seq::new((window_end(v, height) - v.scroll) as nat, |i: int| drawn_line(v, v.scroll + i))
}

/// The name offered for the exported text: the file's stem, `_uncyphered`,
/// and its extension after a dot where it has one; empty without a stem.
pub open spec fn export_name(stem: Option<Seq<char>>, extension: Option<Seq<char>>) -> Seq<char> {
    match stem {
        None => Seq::empty(),
        Some(s) => match extension {
            Some(e) => s + "_uncyphered"@ + "."@ + e,
            None => s + "_uncyphered"@,
        },
    }
}

pub open spec fn str_view(s: Option<&str>) -> Option<Seq<char>> {
    match s {
        Some(t) => Some(t@),
        None => None,
    }
}

/// Whether `j` is one of the indices.
pub fn holds_index(indices: &Vec<usize>, j: usize) -> (r: bool)
    ensures
        r == exists|k: int| 0 <= k < indices@.len() && indices@[k] == j,
{
    let mut k: usize = 0;
    while k < indices.len()
        invariant
            k <= indices@.len(),
            forall|m: int| 0 <= m < k ==> indices@[m] != j,
        decreases indices@.len() - k,
    {
        if indices[k] == j {
            return true;
        }
        k = k + 1;
    }
    false
}

impl Viewer {
    /// The lines to draw with `height` lines of text on screen.
    pub fn visible_lines(&self, height: usize) -> (r: Vec<Vec<char>>)
        requires
            self.wf(),
        ensures
            lines_view(r) == visible(*self, height),
    {
        let end = if height <= self.lines.len() - self.scroll {
            self.scroll + height
        } else {
            self.lines.len()
        };
        let mut r: Vec<Vec<char>> = Vec::new();
        let mut j: usize = self.scroll;
        while j < end
            invariant
                self.scroll <= j <= end,
                end == window_end(*self, height),
                end <= self.lines@.len(),
                lines_view(r) == visible(*self, height).take(j - self.scroll),
            decreases end - j,
        {
            let line = &self.lines[j];
            let mut drawn: Vec<char> = Vec::new();
            if holds_index(&self.results, j) {
                drawn.push('>');
                drawn.push(' ');
            }
            let ghost prefix = drawn@;
            let mut k: usize = 0;
            while k < line.len()
                invariant
                    k <= line@.len(),
                    drawn@ == prefix + line@.take(k as int),
                decreases line@.len() - k,
            {
                drawn.push(line[k]);
                proof {
                    assert(line@.take(k as int + 1) =~= line@.take(k as int).push(line@[k as int]));
                }
                k = k + 1;
            }
            proof {
                assert(line@.take(line@.len() as int) =~= line@);
                assert(drawn@ =~= drawn_line(*self, j as int));
            }
            let ghost old_lv = lines_view(r);
            r.push(drawn);
            proof {
                assert(lines_view(r) =~= old_lv.push(drawn_line(*self, j as int)));
                assert(lines_view(r) =~= visible(*self, height).take(j + 1 - self.scroll));
            }
            j = j + 1;
        }
        proof {
            assert(visible(*self, height).take(end - self.scroll) =~= visible(*self, height));
        }
        r
    }
}

/// The file name offered when the decrypted text is exported.
pub fn export_file_name(stem: Option<&str>, extension: Option<&str>) -> (r: String)
    ensures
        r@ == export_name(str_view(stem), str_view(extension)),
{
    match stem {
        None => String::new(),
        Some(s) => {
            let mut name = String::from_str(s);
            name.append("_uncyphered");
            match extension {
                Some(e) => {
                    name.append(".");
                    name.append(e);
                },
                None => {},
            }
            name
        },
    }
}

} // verus!
