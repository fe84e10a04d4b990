//! Filters that decide which text may reach the island.
//!
//! Island copy must never show a raw locator (a URL or a file path) nor an
//! internal identifier (candidate, artifact or frame ids and the like).
//! Every text shown by the island goes through `safe_text`.
use vstd::prelude::*;
use crate::text::{
    ascii_lower, ascii_lowercase, chars_contain, chars_of, collapse_whitespace, collapse_state,
    collapse_ws, contains, is_ws, opt_str, starts_with, str_contains, str_eq, str_starts_with,
    strs, take_chars, take_prefix, unicode_lower, unicode_lowercase, char_is_whitespace,
};

verus! {

/// Characters that `looks_like_raw_locator` trims off each token.
pub open spec fn is_trim_char(c: char) -> bool {
    c == '(' || c == ')' || c == '[' || c == ']' || c == ',' || c == '.'
}

/// A whitespace-delimited token starts at `j`, and everything in it before
/// index `i` is a trimmed character.
pub open spec fn token_head(s: Seq<char>, j: int, i: int) -> bool {
    &&& 0 <= j <= i <= s.len()
    &&& j == 0 || is_ws(s[j - 1])
    &&& forall|k: int| j <= k < i ==> is_trim_char(#[trigger] s[k])
}

/// Some token of `s`, once `(`, `)`, `[`, `]`, `,` and `.` are trimmed off
/// its ends, starts with `/`.
pub open spec fn token_starts_with_slash(s: Seq<char>) -> bool {
    exists|j: int, i: int| #![trigger token_head(s, j, i)] token_head(s, j, i) && i < s.len() && s[i] == '/'
}

/// `looks_like_raw_locator`: a URL, a file path or a home-relative path,
/// judged on the Unicode lowercase of the text.
pub open spec fn raw_locator(v: Seq<char>) -> bool {
    let lower = unicode_lower(v);
    ||| contains(lower, "://"@)
    ||| contains(lower, "www."@)
    ||| starts_with(lower, "file:"@)
    ||| starts_with(lower, "/users/"@)
    ||| starts_with(lower, "/private/"@)
    ||| starts_with(lower, "~/"@)
    ||| contains(lower, "\\"@)
    ||| contains(lower, "/users/"@)
    ||| contains(lower, "/private/"@)
    ||| token_starts_with_slash(lower)
}

/// Two consecutive whitespace-separated words of `v` are `a` then `b`: with
/// the words joined by single spaces and a space added at each end, the
/// text holds ` a b `.
pub open spec fn adjacent_words(v: Seq<char>, a: Seq<char>, b: Seq<char>) -> bool {
    contains(seq![' '] + collapse_ws(v) + seq![' '], seq![' '] + a + seq![' '] + b + seq![' '])
}

/// `looks_like_internal_text`, judged on the ASCII lowercase of the text.
pub open spec fn internal_text(v: Seq<char>) -> bool {
    let lower = ascii_lower(v);
    ||| contains(lower, "continue-candidate-"@)
    ||| contains(lower, "continue-decision-"@)
    ||| contains(lower, "candidate-"@)
    ||| contains(lower, "workstream-"@)
    ||| contains(lower, "artifact-"@)
    ||| contains(lower, "task-action-"@)
    ||| contains(lower, "action-"@)
    ||| contains(lower, "episode-"@)
    ||| contains(lower, "open-loop-"@)
    ||| contains(lower, "frame-fallback"@)
    ||| contains(lower, "frame_fallback"@)
    ||| contains(lower, "frame_id"@)
    ||| contains(lower, "frame id"@)
    ||| contains(lower, "semantic moment"@)
    ||| contains(lower, "open loop"@)
    ||| contains(lower, "sqlite"@)
    ||| adjacent_words(lower, "resume"@, "query"@)
    ||| adjacent_words(lower, "cloud"@, "resume"@)
    ||| contains(lower, "scorer"@)
}

/// `safe_text`: the text with its whitespace collapsed, unless it is empty,
/// a raw locator or internal text; at most 160 characters.
pub open spec fn safe(v: Option<Seq<char>>) -> Option<Seq<char>> {
    match v {
        None => None,
        Some(s) => {
            let t = collapse_ws(s);
            if t.len() == 0 || raw_locator(t) || internal_text(t) {
                None
            } else {
                Some(take_chars(t, 160))
            }
        },
    }
}

/// The copy filter shows text only when, with its whitespace collapsed,
/// it is neither a raw locator nor internal text, and what it shows is the
/// start of that text, 160 characters at most; a raw locator or internal
/// text is never shown.
pub proof fn law_copy_shows_only_clean_text(v: Seq<char>)
    ensures
        safe(Some(v)) matches Some(s) ==> {
            &&& !raw_locator(collapse_ws(v))
            &&& !internal_text(collapse_ws(v))
            &&& s.len() <= 160
            &&& s == collapse_ws(v).take(s.len() as int)
        },
        raw_locator(collapse_ws(v)) || internal_text(collapse_ws(v)) ==> safe(Some(v)) is None,
{
    let t = collapse_ws(v);
    if t.len() <= 160 {
        assert(t == t.take(t.len() as int));
    }
}

/// `safe_code_or_note`: `safe_text`, at most 180 characters.
pub open spec fn safe_note(v: Seq<char>) -> Option<Seq<char>> {
    match safe(Some(v)) {
        None => None,
        Some(t) => Some(take_chars(t, 180)),
    }
}

/// Joining words with single spaces leaves no whitespace at either end and
/// no whitespace but single spaces between words.
pub proof fn lemma_collapse_is_clean(s: Seq<char>)
    ensures
        ({
            let st = collapse_state(s);
            let t = st.0;
            &&& t.len() > 0 ==> !is_ws(t[0]) && !is_ws(t.last())
            &&& forall|i: int| 0 <= i < t.len() && is_ws(#[trigger] t[i]) ==> t[i] == ' ' && 0 < i
                < t.len() - 1 && !is_ws(t[i - 1]) && !is_ws(t[i + 1])
        }),
    decreases s.len(),
{
    if s.len() > 0 {
        lemma_collapse_is_clean(s.drop_last());
        let prev = collapse_state(s.drop_last());
        let c = s.last();
        if !is_ws(c) {
            let t = collapse_state(s).0;
            if prev.1 {
                assert(t =~= prev.0.push(' ').push(c));
                assert forall|i: int| 0 <= i < t.len() && is_ws(#[trigger] t[i]) implies t[i] == ' '
                    && 0 < i < t.len() - 1 && !is_ws(t[i - 1]) && !is_ws(t[i + 1]) by {
                    if i < prev.0.len() {
                        assert(t[i] == prev.0[i]);
                    }
                }
            } else {
                assert(t =~= prev.0.push(c));
                assert forall|i: int| 0 <= i < t.len() && is_ws(#[trigger] t[i]) implies t[i] == ' '
                    && 0 < i < t.len() - 1 && !is_ws(t[i - 1]) && !is_ws(t[i + 1]) by {
                    if i < prev.0.len() {
                        assert(t[i] == prev.0[i]);
                    }
                }
            }
        }
    }
}

/// Whether some token of `v` starts with `/` once trimmed.
fn any_token_starts_with_slash(v: &Vec<char>) -> (b: bool)
    ensures
        b == token_starts_with_slash(v@),
{
    let n = v.len();
    let mut at_head = true;
    let ghost mut head: int = 0;
    let mut i: usize = 0;
    while i < n
        invariant
            n == v@.len(),
            i <= n,
            at_head ==> token_head(v@, head, i as int),
            !at_head ==> forall|j: int| !#[trigger] token_head(v@, j, i as int),
            forall|j: int, k: int|
                #![trigger token_head(v@, j, k)]
                k < i ==> !(token_head(v@, j, k) && v@[k] == '/'),
        decreases n - i,
    {
        let c = v[i];
        if char_is_whitespace(c) {
            proof {
                assert forall|j: int, k: int|
                    #![trigger token_head(v@, j, k)]
                    k < i + 1 implies !(token_head(v@, j, k) && v@[k] == '/') by {}
            }
            at_head = true;
            proof {
                head = i + 1;
            }
        } else if at_head && c == '/' {
            assert(token_head(v@, head, i as int) && (i as int) < v@.len() && v@[i as int] == '/');
            return true;
        } else if at_head && (c == '(' || c == ')' || c == '[' || c == ']' || c == ',' || c == '.') {
            proof {
                assert forall|j: int, k: int|
                    #![trigger token_head(v@, j, k)]
                    k < i + 1 implies !(token_head(v@, j, k) && v@[k] == '/') by {}
            }
        } else {
            proof {
                assert forall|j: int, k: int|
                    #![trigger token_head(v@, j, k)]
                    k < i + 1 implies !(token_head(v@, j, k) && v@[k] == '/') by {
                    if k == i && token_head(v@, j, k) && !at_head {
                        assert(token_head(v@, j, i as int));
                    }
                }
                assert forall|j: int| !#[trigger] token_head(v@, j, i + 1) by {
                    if token_head(v@, j, i + 1) {
                        if j <= i {
                            assert(is_trim_char(v@[i as int]));
                            if !at_head {
                                assert(token_head(v@, j, i as int));
                            }
                        }
                    }
                }
            }
            at_head = false;
        }
        i = i + 1;
    }
    false
}

/// `looks_like_raw_locator`.
pub fn looks_like_raw_locator(value: &str) -> (b: bool)
    ensures
        b == raw_locator(value@),
{
    let lower = unicode_lowercase(value);
    let lv = chars_of(lower.as_str());
    chars_contain(&lv, &chars_of("://")) || chars_contain(&lv, &chars_of("www."))
        || str_starts_with(lower.as_str(), "file:") || str_starts_with(lower.as_str(), "/users/")
        || str_starts_with(lower.as_str(), "/private/") || str_starts_with(lower.as_str(), "~/")
        || chars_contain(&lv, &chars_of("\\")) || chars_contain(&lv, &chars_of("/users/"))
        || chars_contain(&lv, &chars_of("/private/")) || any_token_starts_with_slash(&lv)
}

/// Whether `v` has the words `a` then `b` next to each other.
pub fn contains_adjacent_words(v: &str, a: &str, b: &str) -> (r: bool)
    ensures
        r == adjacent_words(v@, a@, b@),
{
    let collapsed = collapse_whitespace(v);
    let mut padded: Vec<char> = Vec::new();
    padded.push(' ');
    let cv = chars_of(collapsed.as_str());
    let mut i: usize = 0;
    while i < cv.len()
        invariant
            i <= cv@.len(),
            padded@ == seq![' '] + cv@.take(i as int),
        decreases cv.len() - i,
    {
        padded.push(cv[i]);
        i = i + 1;
        assert(padded@ =~= seq![' '] + cv@.take(i as int));
    }
    padded.push(' ');
    assert(cv@.take(cv@.len() as int) =~= cv@);
    assert(padded@ =~= seq![' '] + collapse_ws(v@) + seq![' ']);
    let mut needle: Vec<char> = Vec::new();
    needle.push(' ');
    let av = chars_of(a);
    let bv = chars_of(b);
    let mut j: usize = 0;
    while j < av.len()
        invariant
            j <= av@.len(),
            needle@ == seq![' '] + av@.take(j as int),
        decreases av.len() - j,
    {
        needle.push(av[j]);
        j = j + 1;
        assert(needle@ =~= seq![' '] + av@.take(j as int));
    }
    assert(av@.take(av@.len() as int) =~= av@);
    needle.push(' ');
    let mut k: usize = 0;
    while k < bv.len()
        invariant
            k <= bv@.len(),
            needle@ == seq![' '] + a@ + seq![' '] + bv@.take(k as int),
        decreases bv.len() - k,
    {
        needle.push(bv[k]);
        k = k + 1;
        assert(needle@ =~= seq![' '] + a@ + seq![' '] + bv@.take(k as int));
    }
    assert(bv@.take(bv@.len() as int) =~= bv@);
    needle.push(' ');
    assert(needle@ =~= seq![' '] + a@ + seq![' '] + b@ + seq![' ']);
    chars_contain(&padded, &needle)
}

/// `looks_like_internal_text`.
pub fn looks_like_internal_text(value: &str) -> (b: bool)
    ensures
        b == internal_text(value@),
{
    let lower = ascii_lowercase(value);
    let l = lower.as_str();
    str_contains(l, "continue-candidate-") || str_contains(l, "continue-decision-")
        || str_contains(l, "candidate-") || str_contains(l, "workstream-") || str_contains(
        l,
        "artifact-",
    ) || str_contains(l, "task-action-") || str_contains(l, "action-") || str_contains(
        l,
        "episode-",
    ) || str_contains(l, "open-loop-") || str_contains(l, "frame-fallback") || str_contains(
        l,
        "frame_fallback",
    ) || str_contains(l, "frame_id") || str_contains(l, "frame id") || str_contains(
        l,
        "semantic moment",
    ) || str_contains(l, "open loop") || str_contains(l, "sqlite") || contains_adjacent_words(
        l,
        "resume",
        "query",
    ) || contains_adjacent_words(l, "cloud", "resume") || str_contains(l, "scorer")
}

/// `safe_text`.
pub fn safe_text(value: Option<&str>) -> (r: Option<String>)
    ensures
        opt_str(r) == safe(match value {
            Some(s) => Some(s@),
            None => None,
        }),
{
    match value {
        None => None,
        Some(v) => {
            let text = collapse_whitespace(v);
            let t = text.as_str();
            if t.unicode_len() == 0 || looks_like_raw_locator(t) || looks_like_internal_text(t) {
                None
            } else {
                Some(take_prefix(t, 160))
            }
        },
    }
}

/// `safe_text` of an optional owned string.
pub fn safe_text_opt(value: &Option<String>) -> (r: Option<String>)
    ensures
        opt_str(r) == safe(opt_str(*value)),
{
    match value {
        None => None,
        Some(s) => safe_text(Some(s.as_str())),
    }
}

/// `safe_code_or_note`.
pub fn safe_code_or_note(value: &str) -> (r: Option<String>)
    ensures
        opt_str(r) == safe_note(value@),
{
    match safe_text(Some(value)) {
        None => None,
        Some(t) => Some(take_prefix(t.as_str(), 180)),
    }
}

/// `clean_one_line`: the words of the text joined by single spaces, unless
/// there are none.
pub open spec fn clean_line(v: Option<Seq<char>>) -> Option<Seq<char>> {
    match v {
        None => None,
        Some(s) => if collapse_ws(s).len() == 0 {
            None
        } else {
            Some(collapse_ws(s))
        },
    }
}

/// `clean_one_line`.
pub fn clean_one_line(value: Option<&str>) -> (r: Option<String>)
    ensures
        opt_str(r) == clean_line(match value {
            Some(s) => Some(s@),
            None => None,
        }),
{
    match value {
        None => None,
        Some(v) => {
            let text = collapse_whitespace(v);
            if text.as_str().unicode_len() == 0 {
                None
            } else {
                Some(text)
            }
        },
    }
}

/// What `merge_safe_notes` keeps of a list of notes, after `acc`: each safe
/// note in order, the first time it occurs.
pub open spec fn merge_notes(acc: Seq<Seq<char>>, notes: Seq<Seq<char>>) -> Seq<Seq<char>>
    decreases notes.len(),
{
    if notes.len() == 0 {
        acc
    } else {
        let prev = merge_notes(acc, notes.drop_last());
        match safe_note(notes.last()) {
            Some(t) => if prev.contains(t) {
                prev
            } else {
                prev.push(t)
            },
            None => prev,
        }
    }
}

/// Whether `v` holds a string equal to `s`.
pub fn vec_contains_str(v: &Vec<String>, s: &str) -> (b: bool)
    ensures
        b == strs(v@).contains(s@),
{
    let mut i: usize = 0;
    while i < v.len()
        invariant
            i <= v@.len(),
            forall|k: int| 0 <= k < i ==> strs(v@)[k] != s@,
        decreases v.len() - i,
    {
        if str_eq(v[i].as_str(), s) {
            assert(strs(v@)[i as int] == s@);
            return true;
        }
        i = i + 1;
    }
    false
}

/// Appends the safe notes of `values` not already in `notes`.
fn merge_notes_into(notes: &mut Vec<String>, values: &Vec<String>)
    ensures
        strs(final(notes)@) == merge_notes(strs(old(notes)@), strs(values@)),
{
    let ghost start = strs(notes@);
    let mut i: usize = 0;
    while i < values.len()
        invariant
            i <= values@.len(),
            strs(notes@) == merge_notes(start, strs(values@).take(i as int)),
        decreases values.len() - i,
    {
        assert(strs(values@).take(i as int + 1).drop_last() =~= strs(values@).take(i as int));
        assert(strs(values@).take(i as int + 1).last() == values@[i as int]@);
        match safe_code_or_note(values[i].as_str()) {
            Some(value) => {
                if !vec_contains_str(notes, value.as_str()) {
                    notes.push(value);
                    assert(strs(notes@) =~= merge_notes(start, strs(values@).take(i as int)).push(
                        value@,
                    ));
                }
            },
            None => {},
        }
        i = i + 1;
    }
    assert(strs(values@).take(values@.len() as int) =~= strs(values@));
}

/// `merge_safe_notes`: the safe notes of `primary` then `secondary`, each
/// once, in order of first occurrence.
pub fn merge_safe_notes(primary: &Vec<String>, secondary: &Vec<String>) -> (r: Vec<String>)
    ensures
        strs(r@) == merge_notes(merge_notes(Seq::empty(), strs(primary@)), strs(secondary@)),
{
    let mut notes: Vec<String> = Vec::new();
    assert(strs(notes@) =~= Seq::<Seq<char>>::empty());
    merge_notes_into(&mut notes, primary);
    merge_notes_into(&mut notes, secondary);
    notes
}

/// `first_safe_text`: the first value whose `safe_text` is defined.
pub open spec fn first_safe(values: Seq<Option<Seq<char>>>) -> Option<Seq<char>>
    decreases values.len(),
{
    if values.len() == 0 {
        None
    } else {
        match safe(values[0]) {
            Some(t) => Some(t),
            None => first_safe(values.drop_first()),
        }
    }
}

} // verus!
