//! Character-level text model used by every copy filter of the island.
//!
//! Strings are reasoned about through their `Seq<char>` views. The
//! operations mirror the std methods that the island logic is written
//! with (`split_whitespace`, `contains`, `starts_with`, ASCII case folding,
//! `chars().take(n)`), each stated as a spec function and implemented by a
//! verified loop.
use vstd::prelude::*;

verus! {

/// Unicode `White_Space`, the property behind `char::is_whitespace`.
pub open spec fn is_ws(c: char) -> bool {
    let u = c as u32;
    ||| 9 <= u <= 13
    ||| u == 32
    ||| u == 0x85
    ||| u == 0xA0
    ||| u == 0x1680
    ||| 0x2000 <= u <= 0x200A
    ||| u == 0x2028
    ||| u == 0x2029
    ||| u == 0x202F
    ||| u == 0x205F
    ||| u == 0x3000
}

/// Every character of `s` is whitespace (`s.trim().is_empty()`).
pub open spec fn is_blank(s: Seq<char>) -> bool {
    forall|i: int| 0 <= i < s.len() ==> is_ws(#[trigger] s[i])
}

/// State of `split_whitespace().join(" ")` after reading a prefix: the text
/// emitted so far and whether a separator is owed before the next word.
pub open spec fn collapse_state(s: Seq<char>) -> (Seq<char>, bool)
    decreases s.len(),
{
    if s.len() == 0 {
        (Seq::<char>::empty(), false)
    } else {
        let prev = collapse_state(s.drop_last());
        let c = s.last();
        if is_ws(c) {
            (prev.0, prev.0.len() > 0)
        } else if prev.1 {
            (prev.0.push(' ').push(c), false)
        } else {
            (prev.0.push(c), false)
        }
    }
}

/// `s.split_whitespace().collect::<Vec<_>>().join(" ")`.
pub open spec fn collapse_ws(s: Seq<char>) -> Seq<char> {
    collapse_state(s).0
}

/// `n` occurs in `h` starting at index `i`.
pub open spec fn occurs_at(h: Seq<char>, n: Seq<char>, i: int) -> bool {
    0 <= i && i + n.len() <= h.len() && h.subrange(i, i + n.len()) == n
}

/// `h.contains(n)` for a string needle.
pub open spec fn contains(h: Seq<char>, n: Seq<char>) -> bool {
    exists|i: int| occurs_at(h, n, i)
}

/// `h.starts_with(p)`.
pub open spec fn starts_with(h: Seq<char>, p: Seq<char>) -> bool {
    occurs_at(h, p, 0)
}

/// `c.to_ascii_lowercase()`.
pub open spec fn ascii_lower_char(c: char) -> char {
    if 'A' <= c <= 'Z' {
        ((c as u32) + 32) as char
    } else {
        c
    }
}

/// `s.to_ascii_lowercase()`.
pub open spec fn ascii_lower(s: Seq<char>) -> Seq<char> {
    Seq::new(s.len(), |i: int| ascii_lower_char(s[i]))
}

/// `s.chars().take(n)`.
pub open spec fn take_chars(s: Seq<char>, n: nat) -> Seq<char> {
    if s.len() <= n {
        s
    } else {
        s.take(n as int)
    }
}

/// `a` and `b` agree on their first `k` characters.
pub open spec fn common_prefix(a: Seq<char>, b: Seq<char>, k: int) -> bool {
    &&& 0 <= k <= a.len()
    &&& k <= b.len()
    &&& forall|j: int| 0 <= j < k ==> a[j] == b[j]
}

/// `a < b` in the order of `str::cmp` (code point by code point).
pub open spec fn str_lt(a: Seq<char>, b: Seq<char>) -> bool {
    exists|k: int|
        #![trigger common_prefix(a, b, k)]
        common_prefix(a, b, k) && ((k < a.len() && k < b.len() && a[k] < b[k])
            || (k == a.len() && k < b.len()))
}

/// Views of a sequence of strings.
pub open spec fn strs(v: Seq<String>) -> Seq<Seq<char>> {
    v.map_values(|s: String| s@)
}

/// View of an optional string.
pub open spec fn opt_str(o: Option<String>) -> Option<Seq<char>> {
    match o {
        Some(s) => Some(s@),
        None => None,
    }
}

/// Strictly increasing in `str::cmp` order, hence free of duplicates.
pub open spec fn sorted_unique(s: Seq<Seq<char>>) -> bool {
    forall|i: int, j: int| 0 <= i < j < s.len() ==> str_lt(#[trigger] s[i], #[trigger] s[j])
}

/// The exact position at which the first difference of `a` and `b` sits.
proof fn lemma_first_difference(a: Seq<char>, b: Seq<char>) -> (k: int)
    ensures
        common_prefix(a, b, k),
        k == a.len() || k == b.len() || a[k] != b[k],
    decreases a.len(),
{
    if a.len() == 0 || b.len() == 0 {
        0
    } else if a[0] != b[0] {
        0
    } else {
        let k0 = lemma_first_difference(a.drop_first(), b.drop_first());
        assert forall|j: int| 0 <= j < k0 + 1 implies a[j] == b[j] by {
            if j > 0 {
                assert(a.drop_first()[j - 1] == a[j]);
                assert(b.drop_first()[j - 1] == b[j]);
            }
        }
        k0 + 1
    }
}

/// Any witness of `str_lt` is the first difference.
proof fn lemma_lt_witness_unique(a: Seq<char>, b: Seq<char>, k1: int, k2: int)
    requires
        common_prefix(a, b, k1),
        k1 == a.len() || k1 == b.len() || a[k1] != b[k1],
        common_prefix(a, b, k2),
        k2 == a.len() || k2 == b.len() || a[k2] != b[k2],
    ensures
        k1 == k2,
{
    if k1 < k2 {
        assert(a[k1] == b[k1]);
    } else if k2 < k1 {
        assert(a[k2] == b[k2]);
    }
}

/// `str_lt` is a strict total order on distinct strings.
pub proof fn lemma_str_lt_total(a: Seq<char>, b: Seq<char>)
    ensures
        a == b || str_lt(a, b) || str_lt(b, a),
        !(str_lt(a, b) && str_lt(b, a)),
        !str_lt(a, a),
{
    let k = lemma_first_difference(a, b);
    assert(common_prefix(b, a, k));
    if k == a.len() && k == b.len() {
        assert(a =~= b);
    } else if k < a.len() && k < b.len() {
        if a[k] < b[k] {
            assert(common_prefix(a, b, k));
        } else {
            assert(common_prefix(b, a, k));
        }
    } else if k == a.len() {
        assert(common_prefix(a, b, k));
    } else {
        assert(common_prefix(b, a, k));
    }
    if str_lt(a, b) {
        let k1 = choose|k1: int|
            #![trigger common_prefix(a, b, k1)]
            common_prefix(a, b, k1) && ((k1 < a.len() && k1 < b.len() && a[k1] < b[k1]) || (k1 == a.len() && k1 < b.len()));
        lemma_lt_witness_unique(a, b, k, k1);
        if str_lt(b, a) {
            let k2 = choose|k2: int|
                #![trigger common_prefix(b, a, k2)]
                common_prefix(b, a, k2) && ((k2 < b.len() && k2 < a.len() && b[k2] < a[k2]) || (k2 == b.len() && k2 < a.len()));
            assert(common_prefix(a, b, k2));
            lemma_lt_witness_unique(a, b, k, k2);
        }
    }
    if str_lt(a, a) {
        let k1 = choose|k1: int|
            #![trigger common_prefix(a, a, k1)]
            common_prefix(a, a, k1) && ((k1 < a.len() && k1 < a.len() && a[k1] < a[k1]) || (k1 == a.len() && k1 < a.len()));
    }
}

/// `str_lt` is transitive.
pub proof fn lemma_str_lt_trans(a: Seq<char>, b: Seq<char>, c: Seq<char>)
    requires
        str_lt(a, b),
        str_lt(b, c),
    ensures
        str_lt(a, c),
{
    let k1 = choose|k1: int|
        #![trigger common_prefix(a, b, k1)]
        common_prefix(a, b, k1) && ((k1 < a.len() && k1 < b.len() && a[k1] < b[k1]) || (k1 == a.len() && k1 < b.len()));
    let k2 = choose|k2: int|
        #![trigger common_prefix(b, c, k2)]
        common_prefix(b, c, k2) && ((k2 < b.len() && k2 < c.len() && b[k2] < c[k2]) || (k2 == b.len() && k2 < c.len()));
    let k = if k1 < k2 {
        k1
    } else {
        k2
    };
    assert(common_prefix(a, c, k));
}

/// In a strictly sorted list, the first element comes before every other.
proof fn lemma_sorted_head_distinct(a: Seq<Seq<char>>, i: int)
    requires
        sorted_unique(a),
        0 < i < a.len(),
    ensures
        a[i] != a[0],
{
    lemma_str_lt_total(a[0], a[i]);
    assert(str_lt(a[0], a[i]));
}

/// Two strictly sorted lists with the same elements are the same list.
pub proof fn lemma_sorted_unique_same_set(a: Seq<Seq<char>>, b: Seq<Seq<char>>)
    requires
        sorted_unique(a),
        sorted_unique(b),
        a.to_set() == b.to_set(),
    ensures
        a == b,
    decreases a.len(),
{
    if a.len() == 0 {
        if b.len() > 0 {
            assert(b.to_set().contains(b[0]));
            assert(a.to_set().contains(b[0]));
        }
        assert(a =~= b);
    } else if b.len() == 0 {
        assert(a.to_set().contains(a[0]));
        assert(b.to_set().contains(a[0]));
    } else {
        assert(a.to_set().contains(a[0]));
        assert(b.contains(a[0]));
        let j = choose|j: int| 0 <= j < b.len() && b[j] == a[0];
        assert(b.to_set().contains(b[0]));
        assert(a.contains(b[0]));
        let k = choose|k: int| 0 <= k < a.len() && a[k] == b[0];
        lemma_str_lt_total(a[0], b[0]);
        if j > 0 {
            assert(str_lt(b[0], b[j]));
            if k > 0 {
                assert(str_lt(a[0], a[k]));
            }
        } else if k > 0 {
            assert(str_lt(a[0], a[k]));
        }
        assert(a[0] == b[0]);
        let ta = a.drop_first();
        let tb = b.drop_first();
        assert forall|x: Seq<char>| ta.to_set().contains(x) <==> tb.to_set().contains(x) by {
            if ta.contains(x) {
                let i = choose|i: int| 0 <= i < ta.len() && ta[i] == x;
                lemma_sorted_head_distinct(a, i + 1);
                assert(a[i + 1] == x);
                assert(a.to_set().contains(x));
                assert(b.contains(x));
                let m = choose|m: int| 0 <= m < b.len() && b[m] == x;
                assert(m != 0);
                assert(tb[m - 1] == x);
            }
            if tb.contains(x) {
                let i = choose|i: int| 0 <= i < tb.len() && tb[i] == x;
                lemma_sorted_head_distinct(b, i + 1);
                assert(b[i + 1] == x);
                assert(b.to_set().contains(x));
                assert(a.contains(x));
                let m = choose|m: int| 0 <= m < a.len() && a[m] == x;
                assert(m != 0);
                assert(ta[m - 1] == x);
            }
        }
        assert(ta.to_set() =~= tb.to_set());
        assert forall|i: int, j2: int| 0 <= i < j2 < ta.len() implies str_lt(#[trigger] ta[i], #[trigger] ta[j2]) by {
            assert(ta[i] == a[i + 1] && ta[j2] == a[j2 + 1]);
        }
        assert forall|i: int, j2: int| 0 <= i < j2 < tb.len() implies str_lt(#[trigger] tb[i], #[trigger] tb[j2]) by {
            assert(tb[i] == b[i + 1] && tb[j2] == b[j2 + 1]);
        }
        lemma_sorted_unique_same_set(ta, tb);
        assert forall|i: int| 0 <= i < a.len() implies a[i] == b[i] by {
            if i > 0 {
                assert(a[i] == ta[i - 1]);
                assert(b[i] == tb[i - 1]);
            }
        }
        assert(a =~= b);
    }
}

/// `c.is_whitespace()`.
pub fn char_is_whitespace(c: char) -> (b: bool)
    ensures
        b == is_ws(c),
{
    let u = c as u32;
    (9 <= u && u <= 13) || u == 32 || u == 0x85 || u == 0xA0 || u == 0x1680 || (0x2000 <= u && u
        <= 0x200A) || u == 0x2028 || u == 0x2029 || u == 0x202F || u == 0x205F || u == 0x3000
}

/// `c.to_ascii_lowercase()`.
pub fn char_to_ascii_lower(c: char) -> (r: char)
    ensures
        r == ascii_lower_char(c),
{
    if 'A' <= c && c <= 'Z' {
        ((c as u8) + 32) as char
    } else {
        c
    }
}

/// Appends one character; `String::push`.
#[verifier::external_body]
pub(crate) fn push_char(s: &mut String, c: char)
    ensures
        final(s)@ == old(s)@.push(c),
{
    s.push(c);
}

/// The characters of `s`, in order.
pub fn chars_of(s: &str) -> (v: Vec<char>)
    ensures
        v@ == s@,
{
    let n = s.unicode_len();
    let mut v: Vec<char> = Vec::new();
    let mut i: usize = 0;
    while i < n
        invariant
            n == s@.len(),
            i <= n,
            v@ == s@.take(i as int),
        decreases n - i,
    {
        let c = s.get_char(i);
        v.push(c);
        i = i + 1;
        assert(v@ =~= s@.take(i as int));
    }
    assert(v@ =~= s@);
    v
}

/// A `String` holding exactly the characters of `v`.
pub fn string_of(v: &Vec<char>) -> (s: String)
    ensures
        s@ == v@,
{
    let mut s = String::new();
    let mut i: usize = 0;
    while i < v.len()
        invariant
            i <= v.len(),
            s@ == v@.take(i as int),
        decreases v.len() - i,
    {
        push_char(&mut s, v[i]);
        i = i + 1;
        assert(s@ =~= v@.take(i as int));
    }
    assert(v@.take(v@.len() as int) =~= v@);
    s
}

/// A copy of `s`.
pub fn copy_str(s: &str) -> (r: String)
    ensures
        r@ == s@,
{
    let v = chars_of(s);
    string_of(&v)
}

/// `s.trim().is_empty()`.
pub fn str_is_blank(s: &str) -> (b: bool)
    ensures
        b == is_blank(s@),
{
    let v = chars_of(s);
    let mut i: usize = 0;
    while i < v.len()
        invariant
            v@ == s@,
            i <= v.len(),
            forall|j: int| 0 <= j < i ==> is_ws(#[trigger] v@[j]),
        decreases v.len() - i,
    {
        if !char_is_whitespace(v[i]) {
            return false;
        }
        i = i + 1;
    }
    true
}

/// `s.split_whitespace().collect::<Vec<_>>().join(" ")`.
pub fn collapse_whitespace(s: &str) -> (r: String)
    ensures
        r@ == collapse_ws(s@),
{
    let v = chars_of(s);
    let mut out: Vec<char> = Vec::new();
    let mut pending = false;
    let mut i: usize = 0;
    while i < v.len()
        invariant
            v@ == s@,
            i <= v.len(),
            collapse_state(v@.take(i as int)) == (out@, pending),
        decreases v.len() - i,
    {
        let c = v[i];
        assert(v@.take(i as int + 1).drop_last() =~= v@.take(i as int));
        if char_is_whitespace(c) {
            pending = out.len() > 0;
        } else {
            if pending {
                out.push(' ');
            }
            out.push(c);
            pending = false;
        }
        i = i + 1;
    }
    assert(v@.take(v@.len() as int) =~= v@);
    string_of(&out)
}

/// `s.to_ascii_lowercase()`.
pub fn ascii_lowercase(s: &str) -> (r: String)
    ensures
        r@ == ascii_lower(s@),
{
    let v = chars_of(s);
    let mut out: Vec<char> = Vec::new();
    let mut i: usize = 0;
    while i < v.len()
        invariant
            v@ == s@,
            i <= v.len(),
            out@ == ascii_lower(s@).take(i as int),
        decreases v.len() - i,
    {
        out.push(char_to_ascii_lower(v[i]));
        i = i + 1;
        assert(out@ =~= ascii_lower(s@).take(i as int));
    }
    assert(ascii_lower(s@).take(v@.len() as int) =~= ascii_lower(s@));
    string_of(&out)
}

/// The name of `str::to_lowercase`'s result (full Unicode case mapping).
pub uninterp spec fn unicode_lower(s: Seq<char>) -> Seq<char>;

/// `str::to_lowercase`: the result is named by `unicode_lower` of the input
/// characters; the Unicode case tables themselves are not restated here.
#[verifier::external_body]
pub(crate) fn unicode_lowercase(s: &str) -> (r: String)
    ensures
        r@ == unicode_lower(s@),
{
    s.to_lowercase()
}

/// `n` occurs in `h` at `i` (checked character by character).
fn matches_at(h: &Vec<char>, n: &Vec<char>, i: usize) -> (b: bool)
    requires
        i + n@.len() <= h@.len(),
    ensures
        b == occurs_at(h@, n@, i as int),
{
    let hl = h.len();
    let mut j: usize = 0;
    while j < n.len()
        invariant
            hl == h@.len(),
            i + n@.len() <= h@.len(),
            j <= n@.len(),
            forall|k: int| 0 <= k < j ==> h@[i + k] == n@[k],
        decreases n.len() - j,
    {
        assert(i + j < h@.len());
        if h[i + j] != n[j] {
            assert(h@.subrange(i as int, i + n@.len())[j as int] != n@[j as int]);
            return false;
        }
        j = j + 1;
    }
    assert(h@.subrange(i as int, i + n@.len()) =~= n@);
    true
}

/// `h.contains(n)` on character vectors.
pub fn chars_contain(h: &Vec<char>, n: &Vec<char>) -> (b: bool)
    ensures
        b == contains(h@, n@),
{
    if n.len() > h.len() {
        return false;
    }
    let last = h.len() - n.len();
    let mut i: usize = 0;
    while i <= last
        invariant
            last == h@.len() - n@.len(),
            n@.len() <= h@.len(),
            forall|k: int| 0 <= k < i ==> !occurs_at(h@, n@, k),
        decreases last + 1 - i,
    {
        if matches_at(h, n, i) {
            return true;
        }
        if i == last {
            return false;
        }
        i = i + 1;
    }
    false
}

/// `h.contains(n)`.
pub fn str_contains(h: &str, n: &str) -> (b: bool)
    ensures
        b == contains(h@, n@),
{
    let hv = chars_of(h);
    let nv = chars_of(n);
    chars_contain(&hv, &nv)
}

/// `h.starts_with(p)`.
pub fn str_starts_with(h: &str, p: &str) -> (b: bool)
    ensures
        b == starts_with(h@, p@),
{
    let hv = chars_of(h);
    let pv = chars_of(p);
    if pv.len() > hv.len() {
        return false;
    }
    matches_at(&hv, &pv, 0)
}

/// `a == b` on string views.
pub fn str_eq(a: &str, b: &str) -> (r: bool)
    ensures
        r == (a@ == b@),
{
    let av = chars_of(a);
    let bv = chars_of(b);
    if av.len() != bv.len() {
        return false;
    }
    let r = matches_at(&av, &bv, 0);
    assert(av@.subrange(0, bv@.len() as int) =~= av@);
    r
}

/// `a.eq_ignore_ascii_case(b)`.
pub fn str_eq_ignore_ascii_case(a: &str, b: &str) -> (r: bool)
    ensures
        r == (ascii_lower(a@) == ascii_lower(b@)),
{
    let la = ascii_lowercase(a);
    let lb = ascii_lowercase(b);
    str_eq(la.as_str(), lb.as_str())
}

/// `s.chars().take(n).collect::<String>()`.
pub fn take_prefix(s: &str, n: usize) -> (r: String)
    ensures
        r@ == take_chars(s@, n as nat),
{
    let v = chars_of(s);
    if v.len() <= n {
        return string_of(&v);
    }
    let mut out: Vec<char> = Vec::new();
    let mut i: usize = 0;
    while i < n
        invariant
            v@ == s@,
            n < v@.len(),
            i <= n,
            out@ == s@.take(i as int),
        decreases n - i,
    {
        out.push(v[i]);
        i = i + 1;
        assert(out@ =~= s@.take(i as int));
    }
    string_of(&out)
}

/// `a < b` in `str::cmp` order.
pub fn str_less(a: &str, b: &str) -> (r: bool)
    ensures
        r == str_lt(a@, b@),
{
    let av = chars_of(a);
    let bv = chars_of(b);
    let mut i: usize = 0;
    while i < av.len() && i < bv.len()
        invariant
            av@ == a@,
            bv@ == b@,
            common_prefix(a@, b@, i as int),
        decreases av.len() - i,
    {
        if av[i] != bv[i] {
            proof {
                lemma_str_lt_total(a@, b@);
                if str_lt(a@, b@) {
                    let k1 = choose|k1: int|
                        #![trigger common_prefix(a@, b@, k1)]
                        common_prefix(a@, b@, k1) && ((k1 < a@.len() && k1 < b@.len() && 
                        a@[k1] < b@[k1]) || (k1 == a@.len() && k1 < b@.len()));
                    lemma_lt_witness_unique(a@, b@, i as int, k1);
                }
                if av@[i as int] < bv@[i as int] {
                    assert(common_prefix(a@, b@, i as int));
                }
            }
            return av[i] < bv[i];
        }
        i = i + 1;
    }
    proof {
        if str_lt(a@, b@) {
            let k1 = choose|k1: int|
                #![trigger common_prefix(a@, b@, k1)]
                common_prefix(a@, b@, k1) && ((k1 < a@.len() && k1 < b@.len() && a@[k1] < b@[k1]) || (k1 == a@.len() && k1 < b@.len()));
            lemma_lt_witness_unique(a@, b@, i as int, k1);
        }
        if i == av.len() && i < bv.len() {
            assert(common_prefix(a@, b@, i as int));
        }
    }
    i == av.len() && i < bv.len()
}

/// Inserts `s` into a strictly sorted list unless it is already there.
pub fn insert_sorted_unique(v: &mut Vec<String>, s: String)
    requires
        sorted_unique(strs(old(v)@)),
    ensures
        sorted_unique(strs(final(v)@)),
        strs(final(v)@).to_set() == strs(old(v)@).to_set().insert(s@),
{
    let ghost old_v = strs(v@);
    let mut p: usize = 0;
    while p < v.len() && str_less(v[p].as_str(), s.as_str())
        invariant
            strs(v@) == old_v,
            sorted_unique(old_v),
            p <= v@.len(),
            forall|i: int| 0 <= i < p ==> str_lt(#[trigger] old_v[i], s@),
        decreases v.len() - p,
    {
        p = p + 1;
    }
    if p < v.len() && str_eq(v[p].as_str(), s.as_str()) {
        assert(strs(v@).to_set() =~= old_v.to_set().insert(s@)) by {
            assert(old_v[p as int] == s@);
            assert(old_v.contains(s@));
        }
        return;
    }
    proof {
        if p < v.len() {
            lemma_str_lt_total(old_v[p as int], s@);
            assert forall|j: int| p <= j < old_v.len() implies str_lt(s@, #[trigger] old_v[j]) by {
                if j > p {
                    lemma_str_lt_trans(s@, old_v[p as int], old_v[j]);
                }
            }
        }
    }
    v.insert(p, s);
    proof {
        let nv = strs(v@);
        assert(nv =~= old_v.insert(p as int, s@));
        assert forall|i: int, j: int| 0 <= i < j < nv.len() implies str_lt(
            #[trigger] nv[i],
            #[trigger] nv[j],
        ) by {
            if i < p && j > p {
                lemma_str_lt_trans(nv[i], s@, nv[j]);
            }
        }
        assert(nv.to_set() =~= old_v.to_set().insert(s@)) by {
            assert forall|x: Seq<char>| nv.to_set().contains(x) implies old_v.to_set().insert(
                s@,
            ).contains(x) by {
                let k = choose|k: int| 0 <= k < nv.len() && nv[k] == x;
                if k < p {
                    assert(old_v[k] == x);
                } else if k > p {
                    assert(old_v[k - 1] == x);
                }
            }
            assert forall|x: Seq<char>| old_v.to_set().insert(s@).contains(x) implies nv.to_set().contains(x) by {
                if x == s@ {
                    assert(nv[p as int] == x);
                } else {
                    let k = choose|k: int| 0 <= k < old_v.len() && old_v[k] == x;
                    if k < p {
                        assert(nv[k] == x);
                    } else {
                        assert(nv[k + 1] == x);
                    }
                }
            }
        }
    }
}

/// `v.sort(); v.dedup();`: the distinct strings of `v` in ascending order.
pub fn sort_dedup(v: Vec<String>) -> (r: Vec<String>)
    ensures
        sorted_unique(strs(r@)),
        strs(r@).to_set() == strs(v@).to_set(),
{
    let mut r: Vec<String> = Vec::new();
    let mut i: usize = 0;
    let n = v.len();
    let mut rest = v;
    let ghost orig = strs(rest@);
    assert(strs(r@).to_set() =~= orig.take(0).to_set());
    while i < n
        invariant
            n == orig.len(),
            i <= n,
            strs(rest@) == orig,
            sorted_unique(strs(r@)),
            strs(r@).to_set() == orig.take(i as int).to_set(),
        decreases n - i,
    {
        let s = rest[i].clone();
        insert_sorted_unique(&mut r, s);
        proof {
            assert(orig.take(i as int + 1) =~= orig.take(i as int).push(orig[i as int]));
            assert(orig.take(i as int + 1).to_set() =~= orig.take(i as int).to_set().insert(
                orig[i as int],
            )) by {
                orig.take(i as int).lemma_push_to_set_commute(orig[i as int]);
            }
        }
        i = i + 1;
    }
    assert(orig.take(n as int) =~= orig);
    r
}

/// `s` without leading whitespace.
pub open spec fn trim_start(s: Seq<char>) -> Seq<char>
    decreases s.len(),
{
    if s.len() > 0 && is_ws(s[0]) {
        trim_start(s.drop_first())
    } else {
        s
    }
}

/// `s` without trailing whitespace.
pub open spec fn trim_end(s: Seq<char>) -> Seq<char>
    decreases s.len(),
{
    if s.len() > 0 && is_ws(s.last()) {
        trim_end(s.drop_last())
    } else {
        s
    }
}

/// `str::trim`: `s` without leading or trailing whitespace.
pub open spec fn trim(s: Seq<char>) -> Seq<char> {
    trim_end(trim_start(s))
}

/// `str::trim`, as an owned string.
pub fn str_trim(s: &str) -> (r: String)
    ensures
        r@ == trim(s@),
{
    let v = chars_of(s);
    let n = v.len();
    let mut i: usize = 0;
    assert(v@.subrange(0, n as int) =~= v@);
    while i < n && char_is_whitespace(v[i])
        invariant
            i <= n,
            n == v@.len(),
            trim_start(v@) == trim_start(v@.subrange(i as int, n as int)),
        decreases n - i,
    {
        assert(v@.subrange(i as int, n as int).drop_first() =~= v@.subrange(i as int + 1, n as int));
        i = i + 1;
    }
    let mut j: usize = n;
    while j > i && char_is_whitespace(v[j - 1])
        invariant
            i <= j <= n,
            n == v@.len(),
            trim_end(v@.subrange(i as int, n as int)) == trim_end(v@.subrange(i as int, j as int)),
        decreases j - i,
    {
        assert(v@.subrange(i as int, j as int).drop_last() =~= v@.subrange(i as int, j as int - 1));
        j = j - 1;
    }
    let mut out: Vec<char> = Vec::new();
    let mut k: usize = i;
    while k < j
        invariant
            i <= k <= j,
            j <= v@.len(),
            out@ == v@.subrange(i as int, k as int),
        decreases j - k,
    {
        out.push(v[k]);
        k = k + 1;
        assert(out@ =~= v@.subrange(i as int, k as int));
    }
    proof {
        let sub = v@.subrange(i as int, n as int);
        if i < n {
            assert(sub[0] == v@[i as int]);
        }
        assert(trim_start(v@) == sub);
    }
    string_of(&out)
}

/// Pushes a string.
pub fn push_string(v: &mut Vec<String>, s: String)
    ensures
        strs(final(v)@) == strs(old(v)@).push(s@),
{
    v.push(s);
    assert(strs(v@) =~= strs(old(v)@).push(s@));
}

/// The number of whitespace-separated words of `s`
/// (`s.split_whitespace().count()`): the characters that start a word.
pub open spec fn word_count(s: Seq<char>) -> nat
    decreases s.len(),
{
    if s.len() == 0 {
        0
    } else if !is_ws(s.last()) && (s.len() == 1 || is_ws(s[s.len() - 2])) {
        word_count(s.drop_last()) + 1
    } else {
        word_count(s.drop_last())
    }
}

/// The number of whitespace-separated words of `s`.
pub fn count_words(s: &str) -> (n: usize)
    ensures
        n == word_count(s@),
{
    let v = chars_of(s);
    let mut n: usize = 0;
    let mut i: usize = 0;
    while i < v.len()
        invariant
            v@ == s@,
            i <= v@.len(),
            n <= i,
            n == word_count(v@.take(i as int)),
        decreases v.len() - i,
    {
        let c = v[i];
        let starts = !char_is_whitespace(c) && (i == 0 || char_is_whitespace(v[i - 1]));
        proof {
            let t = v@.take(i as int + 1);
            assert(t.drop_last() =~= v@.take(i as int));
            assert(t.last() == c);
            if i > 0 {
                assert(t[t.len() - 2] == v@[i - 1]);
            }
        }
        if starts {
            n = n + 1;
        }
        i = i + 1;
    }
    assert(v@.take(i as int) =~= s@);
    n
}

} // verus!
