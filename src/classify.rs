use vstd::prelude::*;

use crate::text::{
    chars_of, contains, contains_exec, find_char, find_char_from, push_all, slice_of, string_of,
};

verus! {

/// What one line of server output means to the chat side.
#[derive(Debug, PartialEq, Eq)]
pub enum ClassifiedEvent {
    /// A player spoke: `user` said `body`.
    ChatLine { user: String, body: String },
    /// A join, leave or advancement notice, trimmed to start at its timestamp.
    SystemLine { text: String },
    /// Noise that is not forwarded.
    Ignored,
}

/// The mathematical form of a [`ClassifiedEvent`].
pub ghost enum EventView {
    ChatLine { user: Seq<char>, body: Seq<char> },
    SystemLine { text: Seq<char> },
    Ignored,
}

impl View for ClassifiedEvent {
    type V = EventView;

    open spec fn view(&self) -> EventView {
        match self {
            ClassifiedEvent::ChatLine { user, body } => EventView::ChatLine {
                user: user@,
                body: body@,
            },
            ClassifiedEvent::SystemLine { text } => EventView::SystemLine { text: text@ },
            ClassifiedEvent::Ignored => EventView::Ignored,
        }
    }
}

/// The three characters `: <` stand at index `i`.
pub open spec fn chat_marker_at(s: Seq<char>, i: int) -> bool {
    0 <= i && i + 3 <= s.len() && s[i] == ':' && s[i + 1] == ' ' && s[i + 2] == '<'
}

/// Index of the `>` that closes the user name of a chat marker at `i`.
pub open spec fn chat_close(s: Seq<char>, i: int) -> int {
    find_char(s, '>', i + 3)
}

/// A chat line starts at `i`: `: <`, a non-empty name without `>`, then `> `,
/// then a non-empty body that runs to the end of the line without a line break.
pub open spec fn chat_at(s: Seq<char>, i: int) -> bool {
    &&& chat_marker_at(s, i)
    &&& i + 3 < chat_close(s, i)
    &&& chat_close(s, i) + 2 < s.len()
    &&& s[chat_close(s, i) + 1] == ' '
    &&& find_char(s, '\n', chat_close(s, i) + 2) == s.len()
}

/// First index at or after `i` where a chat line starts, or `s.len()`.
pub open spec fn scan_chat(s: Seq<char>, i: int) -> int
    decreases s.len() - i,
{
    if i < 0 || i >= s.len() {
        s.len() as int
    } else if chat_at(s, i) {
        i
    } else {
        scan_chat(s, i + 1)
    }
}

pub open spec fn chat_pos(s: Seq<char>) -> int {
    scan_chat(s, 0)
}

pub open spec fn is_chat(s: Seq<char>) -> bool {
    chat_pos(s) < s.len()
}

pub open spec fn chat_user(s: Seq<char>) -> Seq<char> {
    s.subrange(chat_pos(s) + 3, chat_close(s, chat_pos(s)))
}

pub open spec fn chat_body(s: Seq<char>) -> Seq<char> {
    s.subrange(chat_close(s, chat_pos(s)) + 2, s.len() as int)
}

pub open spec fn is_digit(c: char) -> bool {
    '0' <= c && c <= '9'
}

/// A timestamp `[HH:MM:SS]` (ASCII digits) starts at index `i`.
pub open spec fn timestamp_at(s: Seq<char>, i: int) -> bool {
    &&& 0 <= i && i + 10 <= s.len()
    &&& s[i] == '['
    &&& is_digit(s[i + 1]) && is_digit(s[i + 2])
    &&& s[i + 3] == ':'
    &&& is_digit(s[i + 4]) && is_digit(s[i + 5])
    &&& s[i + 6] == ':'
    &&& is_digit(s[i + 7]) && is_digit(s[i + 8])
    &&& s[i + 9] == ']'
}

/// First index at or after `i` where a timestamp starts, or `s.len()`.
pub open spec fn scan_timestamp(s: Seq<char>, i: int) -> int
    decreases s.len() - i,
{
    if i < 0 || i >= s.len() {
        s.len() as int
    } else if timestamp_at(s, i) {
        i
    } else {
        scan_timestamp(s, i + 1)
    }
}

/// The line holds one of the phrases of a join, leave or advancement notice.
pub open spec fn is_notice(s: Seq<char>) -> bool {
    contains(s, "joined the game"@) || contains(s, "left the game"@) || contains(
        s,
        "has made the advancement"@,
    )
}

/// The line from its first timestamp on, or the whole line when it has none.
pub open spec fn notice_text(s: Seq<char>) -> Seq<char> {
    let t = scan_timestamp(s, 0);
    if t < s.len() {
        s.subrange(t, s.len() as int)
    } else {
        s
    }
}

/// What a line means: a chat line first, then a notice, else nothing.
pub open spec fn classify_spec(s: Seq<char>) -> EventView {
    if is_chat(s) {
        EventView::ChatLine { user: chat_user(s), body: chat_body(s) }
    } else if is_notice(s) {
        EventView::SystemLine { text: notice_text(s) }
    } else {
        EventView::Ignored
    }
}

/// Whether a chat line starts at `i`; when it does, also the index of its closing `>`.
fn chat_at_exec(v: &Vec<char>, i: usize) -> (r: (bool, usize))
    requires
        i < v@.len(),
    ensures
        r.0 == chat_at(v@, i as int),
        r.0 ==> r.1 == chat_close(v@, i as int),
{
    if v.len() < 3 || i > v.len() - 3 || v[i] != ':' || v[i + 1] != ' ' || v[i + 2] != '<' {
        return (false, 0);
    }
    let j = find_char_from(v, '>', i + 3);
    if j <= i + 3 || v.len() < 2 || j >= v.len() - 2 || v[j + 1] != ' ' {
        return (false, 0);
    }
    let n = find_char_from(v, '\n', j + 2);
    (n == v.len(), j)
}

fn is_digit_exec(c: char) -> (r: bool)
    ensures
        r == is_digit(c),
{
    '0' <= c && c <= '9'
}

fn timestamp_at_exec(v: &Vec<char>, i: usize) -> (r: bool)
    requires
        i < v@.len(),
    ensures
        r == timestamp_at(v@, i as int),
{
    if v.len() < 10 || i > v.len() - 10 {
        return false;
    }
    v[i] == '[' && is_digit_exec(v[i + 1]) && is_digit_exec(v[i + 2]) && v[i + 3] == ':'
        && is_digit_exec(v[i + 4]) && is_digit_exec(v[i + 5]) && v[i + 6] == ':'
        && is_digit_exec(v[i + 7]) && is_digit_exec(v[i + 8]) && v[i + 9] == ']'
}

/// Finds the first chat line start; `v.len()` when there is none.
fn find_chat(v: &Vec<char>) -> (r: (usize, usize))
    ensures
        r.0 == chat_pos(v@),
        r.0 < v@.len() ==> chat_at(v@, r.0 as int) && r.1 == chat_close(v@, r.0 as int),
{
    let mut i: usize = 0;
    while i < v.len()
        invariant
            i <= v@.len(),
            scan_chat(v@, 0) == scan_chat(v@, i as int),
        decreases v@.len() - i,
    {
        let (hit, j) = chat_at_exec(v, i);
        if hit {
            return (i, j);
        }
        i = i + 1;
    }
    (i, 0)
}

/// Finds the first timestamp; `v.len()` when there is none.
fn find_timestamp(v: &Vec<char>) -> (r: usize)
    ensures
        r == scan_timestamp(v@, 0),
{
    let mut i: usize = 0;
    while i < v.len()
        invariant
            i <= v@.len(),
            scan_timestamp(v@, 0) == scan_timestamp(v@, i as int),
        decreases v@.len() - i,
    {
        if timestamp_at_exec(v, i) {
            return i;
        }
        i = i + 1;
    }
    i
}

fn is_notice_exec(v: &Vec<char>) -> (r: bool)
    ensures
        r == is_notice(v@),
{
    let joined = chars_of("joined the game");
    let left = chars_of("left the game");
    let advancement = chars_of("has made the advancement");
    contains_exec(v, &joined) || contains_exec(v, &left) || contains_exec(v, &advancement)
}

/// Decides what one line of server output means.
pub fn classify(line: &str) -> (r: ClassifiedEvent)
    ensures
        r@ == classify_spec(line@),
{
    let v = chars_of(line);
    let (p, j) = find_chat(&v);
    if p < v.len() {
        let user = slice_of(&v, p + 3, j);
        let body = slice_of(&v, j + 2, v.len());
        return ClassifiedEvent::ChatLine { user: string_of(&user), body: string_of(&body) };
    }
    if is_notice_exec(&v) {
        let t = find_timestamp(&v);
        let text = if t < v.len() {
            slice_of(&v, t, v.len())
        } else {
            v
        };
        return ClassifiedEvent::SystemLine { text: string_of(&text) };
    }
    ClassifiedEvent::Ignored
}

/// The message the chat channel receives for an event, if any.
pub open spec fn render_spec(e: EventView) -> Option<Seq<char>> {
    match e {
        EventView::ChatLine { user, body } => Some(user + seq![':', ' '] + body),
        EventView::SystemLine { text } => Some(text),
        EventView::Ignored => None,
    }
}

impl ClassifiedEvent {
    /// The message for the chat channel: `user: body` for a chat line,
    /// the text itself for a notice, nothing for noise.
    pub fn render(&self) -> (r: Option<String>)
        ensures
            r is Some <==> render_spec(self@) is Some,
            r is Some ==> r->0@ == render_spec(self@)->0,
    {
        match self {
            ClassifiedEvent::ChatLine { user, body } => {
                let mut out = chars_of(user.as_str());
                let sep = chars_of(": ");
                proof {
                    reveal_strlit(": ");
                }
                push_all(&mut out, &sep);
                let b = chars_of(body.as_str());
                push_all(&mut out, &b);
                Some(string_of(&out))
            },
            ClassifiedEvent::SystemLine { text } => Some(text.clone()),
            ClassifiedEvent::Ignored => None,
        }
    }
}

/// The message that the chat channel receives for one line of server output, if any.
pub fn relay_line(line: &str) -> (r: Option<String>)
    ensures
        r is Some <==> render_spec(classify_spec(line@)) is Some,
        r is Some ==> r->0@ == render_spec(classify_spec(line@))->0,
{
    classify(line).render()
}

proof fn lemma_find_char_skip(s: Seq<char>, c: char, k: int, m: int)
    requires
        0 <= k <= m <= s.len(),
        forall|t: int| k <= t < m ==> s[t] != c,
    ensures
        find_char(s, c, k) == find_char(s, c, m),
    decreases m - k,
{
    if k < m {
        lemma_find_char_skip(s, c, k + 1, m);
    }
}

proof fn lemma_scan_chat_skip(s: Seq<char>, i: int, m: int)
    requires
        0 <= i <= m <= s.len(),
        forall|t: int| i <= t < m ==> !chat_at(s, t),
    ensures
        scan_chat(s, i) == scan_chat(s, m),
    decreases m - i,
{
    if i < m {
        lemma_scan_chat_skip(s, i + 1, m);
    }
}

proof fn lemma_scan_timestamp(s: Seq<char>, i: int)
    requires
        0 <= i <= s.len(),
    ensures
        i <= scan_timestamp(s, i) <= s.len(),
        scan_timestamp(s, i) < s.len() ==> timestamp_at(s, scan_timestamp(s, i)),
        forall|t: int| i <= t < scan_timestamp(s, i) ==> !timestamp_at(s, t),
    decreases s.len() - i,
{
    if i < s.len() && !timestamp_at(s, i) {
        lemma_scan_timestamp(s, i + 1);
    }
}

/// A line `prefix: <name> body` is a chat line from `name` saying `body`, when the
/// name is non-empty without `>`, the body is non-empty without a line break, and no
/// chat line starts earlier, inside the prefix.
pub proof fn lemma_chat_line(prefix: Seq<char>, name: Seq<char>, body: Seq<char>)
    requires
        name.len() > 0,
        forall|k: int| 0 <= k < name.len() ==> name[k] != '>',
        body.len() > 0,
        forall|k: int| 0 <= k < body.len() ==> body[k] != '\n',
        forall|i: int|
            0 <= i < prefix.len() ==> !chat_at(
                prefix + seq![':', ' ', '<'] + name + seq!['>', ' '] + body,
                i,
            ),
    ensures
        classify_spec(prefix + seq![':', ' ', '<'] + name + seq!['>', ' '] + body)
            == (EventView::ChatLine { user: name, body: body }),
{
    let s = prefix + seq![':', ' ', '<'] + name + seq!['>', ' '] + body;
    let p = prefix.len() as int;
    let j = p + 3 + name.len();
    assert forall|t: int| p + 3 <= t < j implies s[t] != '>' by {
        assert(s[t] == name[t - p - 3]);
    }
    lemma_find_char_skip(s, '>', p + 3, j);
    assert(s[j] == '>');
    assert(find_char(s, '>', j) == j);
    assert forall|t: int| j + 2 <= t < s.len() implies s[t] != '\n' by {
        assert(s[t] == body[t - j - 2]);
    }
    lemma_find_char_skip(s, '\n', j + 2, s.len() as int);
    assert(chat_at(s, p));
    lemma_scan_chat_skip(s, 0, p);
    assert(chat_pos(s) == p);
    assert(chat_user(s) =~= name);
    assert(chat_body(s) =~= body);
}

/// A line with no chat line in it that holds "joined the game" is a notice whose text
/// starts at the first `[HH:MM:SS]` timestamp, or is the whole line when it has none.
pub proof fn lemma_join_notice(line: Seq<char>)
    requires
        forall|i: int| !chat_at(line, i),
        contains(line, "joined the game"@),
    ensures
        (forall|i: int| !timestamp_at(line, i)) ==> classify_spec(line) == (EventView::SystemLine {
            text: line,
        }),
        forall|t: int|
            timestamp_at(line, t) && (forall|k: int| 0 <= k < t ==> !timestamp_at(line, k))
                ==> classify_spec(line) == (EventView::SystemLine {
                text: line.subrange(t, line.len() as int),
            }),
{
    lemma_scan_chat_skip(line, 0, line.len() as int);
    lemma_scan_timestamp(line, 0);
    let f = scan_timestamp(line, 0);
    assert forall|t: int|
        timestamp_at(line, t) && (forall|k: int| 0 <= k < t ==> !timestamp_at(line, k))
        implies f == t by {
        if f < t {
            assert(!timestamp_at(line, f));
        }
    }
}

/// A line that is neither a chat line nor a notice is ignored, and nothing is sent for it.
pub proof fn lemma_noise_ignored(line: Seq<char>)
    requires
        !is_chat(line),
        !is_notice(line),
    ensures
        classify_spec(line) == EventView::Ignored,
        render_spec(classify_spec(line)) is None,
{
}

/// Classification depends on the characters of the line alone: two lines with the
/// same characters are classified, and rendered, alike.
pub proof fn lemma_classify_repeatable(a: Seq<char>, b: Seq<char>)
    requires
        a == b,
    ensures
        classify_spec(a) == classify_spec(b),
        render_spec(classify_spec(a)) == render_spec(classify_spec(b)),
{
}

} // verus!
