//! Text helpers shared by the menus: Godot-style edge stripping, decimal
//! rendering of integers and the "text (NN%)" progress labels.
use vstd::prelude::*;

verus! {

/// Appends one character to a string (`String::push`).
#[verifier::external_body]
pub(crate) fn push_char(s: &mut String, c: char)
    ensures
        final(s)@ == old(s)@.push(c),
{
    s.push(c);
}

/// Copies the characters of a string slice into a vector.
pub fn chars_of(s: &str) -> (v: Vec<char>)
    ensures
        v@ == s@,
{
    let mut v: Vec<char> = Vec::new();
    for c in it: s.chars()
        invariant
            v@ == it.seq().take(it.index() as int),
    {
        v.push(c);
    }
    v
}

/// Builds a string out of the characters `v[from..to]`.
pub fn string_from_range(v: &Vec<char>, from: usize, to: usize) -> (s: String)
    requires
        from <= to <= v.len(),
    ensures
        s@ == v@.subrange(from as int, to as int),
{
    let mut s = String::new();
    let mut i = from;
    while i < to
        invariant
            from <= i <= to <= v.len(),
            s@ == v@.subrange(from as int, i as int),
        decreases to - i,
    {
        push_char(&mut s, v[i]);
        assert(v@.subrange(from as int, i + 1) == v@.subrange(from as int, i as int).push(v@[i as int]));
        i = i + 1;
    }
    s
}

// ---------------------------------------------------------------------------
// Edge stripping
// ---------------------------------------------------------------------------

/// The characters that Godot's `String.strip_edges` removes from both ends:
/// every code point up to and including the space (spaces, tabs, newlines and
/// the other control characters).
pub open spec fn is_edge_char(c: char) -> bool {
    (c as u32) <= 32
}

/// `(b, e)` delimits the stripped part of `s`: everything before `b` and from
/// `e` on is edge characters, and when the part is not empty it starts and ends
/// with a character that is kept.
pub open spec fn is_strip_window(s: Seq<char>, b: int, e: int) -> bool {
    &&& 0 <= b <= e <= s.len()
    &&& forall|i: int| 0 <= i < b ==> is_edge_char(#[trigger] s[i])
    &&& forall|i: int| e <= i < s.len() ==> is_edge_char(#[trigger] s[i])
    &&& b < e ==> !is_edge_char(s[b]) && !is_edge_char(s[e - 1])
}

/// `s` with its leading and trailing edge characters removed.
pub open spec fn strip_edges_spec(s: Seq<char>) -> Seq<char> {
    let (b, e) = choose|b: int, e: int| is_strip_window(s, b, e);
    s.subrange(b, e)
}

/// Every string has a strip window.
pub proof fn lemma_strip_window_exists(s: Seq<char>)
    ensures
        exists|b: int, e: int| is_strip_window(s, b, e),
    decreases s.len(),
{
    if s.len() == 0 {
        assert(is_strip_window(s, 0, 0));
    } else {
        let t = s.drop_last();
        lemma_strip_window_exists(t);
        let (b, e) = choose|b: int, e: int| is_strip_window(t, b, e);
        let n = s.len() as int;
        assert(forall|i: int| 0 <= i < t.len() ==> t[i] == s[i]);
        if is_edge_char(s[n - 1]) {
            assert(is_strip_window(s, b, e));
        } else if b < e {
            assert(is_strip_window(s, b, n));
        } else {
            assert(is_strip_window(s, n - 1, n));
        }
    }
}

/// Two strip windows of the same string delimit the same characters.
pub proof fn lemma_strip_window_unique(s: Seq<char>, b1: int, e1: int, b2: int, e2: int)
    requires
        is_strip_window(s, b1, e1),
        is_strip_window(s, b2, e2),
    ensures
        s.subrange(b1, e1) == s.subrange(b2, e2),
{
    if b1 < e1 && b2 < e2 {
        if b1 < b2 {
            assert(is_edge_char(s[b1]));
        }
        if b2 < b1 {
            assert(is_edge_char(s[b2]));
        }
        if e1 < e2 {
            assert(is_edge_char(s[e2 - 1]));
        }
        if e2 < e1 {
            assert(is_edge_char(s[e1 - 1]));
        }
    } else if b1 < e1 {
        assert(is_edge_char(s[b1]));
    } else if b2 < e2 {
        assert(is_edge_char(s[b2]));
    } else {
        assert(s.subrange(b1, e1) =~= s.subrange(b2, e2));
    }
}

/// Any strip window of `s` delimits `strip_edges_spec(s)`.
pub proof fn lemma_strip_window_gives_spec(s: Seq<char>, b: int, e: int)
    requires
        is_strip_window(s, b, e),
    ensures
        strip_edges_spec(s) == s.subrange(b, e),
{
    let (b2, e2) = choose|b2: int, e2: int| is_strip_window(s, b2, e2);
    lemma_strip_window_unique(s, b, e, b2, e2);
}

/// Godot's `String.strip_edges()` on a plain string: removes the edge
/// characters (code points up to the space) from both ends.
pub fn strip_edges(s: &str) -> (r: String)
    ensures
        r@ == strip_edges_spec(s@),
{
    let v = chars_of(s);
    let n = v.len();
    let mut b: usize = 0;
    while b < n && (v[b] as u32) <= 32
        invariant
            b <= n == v.len(),
            forall|i: int| 0 <= i < b ==> is_edge_char(#[trigger] v@[i]),
        decreases n - b,
    {
        b = b + 1;
    }
    let mut e: usize = n;
    if b < n {
        while e > b + 1 && (v[e - 1] as u32) <= 32
            invariant
                b < e <= n == v.len(),
                !is_edge_char(v@[b as int]),
                forall|i: int| e <= i < n ==> is_edge_char(#[trigger] v@[i]),
            decreases e,
        {
            e = e - 1;
        }
    }
    proof {
        assert(is_strip_window(v@, b as int, e as int));
        lemma_strip_window_gives_spec(v@, b as int, e as int);
    }
    string_from_range(&v, b, e)
}

// ---------------------------------------------------------------------------
// Decimal rendering
// ---------------------------------------------------------------------------

/// The character of the decimal digit `d` (`0 <= d < 10`).
pub open spec fn digit_char(d: int) -> char {
    (48 + d) as char
}

/// The decimal digits of a natural number, most significant first, without
/// leading zeros ("0" for zero).
pub open spec fn decimal_digits(n: nat) -> Seq<char>
    decreases n,
{
    if n < 10 {
        seq![digit_char(n as int)]
    } else {
        decimal_digits(n / 10).push(digit_char((n % 10) as int))
    }
}

/// How `format!("{}", n)` writes an integer: a minus sign for negative
/// numbers, then the decimal digits of its magnitude.
pub open spec fn decimal_of(n: int) -> Seq<char> {
    if n < 0 {
        seq!['-'] + decimal_digits((-n) as nat)
    } else {
        decimal_digits(n as nat)
    }
}

fn digit(d: u64) -> (c: char)
    requires
        d < 10,
    ensures
        c == digit_char(d as int),
{
    let b: u8 = 48 + (d as u8);
    b as char
}

fn push_decimal_digits(out: &mut String, n: u64)
    ensures
        final(out)@ == old(out)@ + decimal_digits(n as nat),
    decreases n,
{
    if n < 10 {
        push_char(out, digit(n));
    } else {
        push_decimal_digits(out, n / 10);
        push_char(out, digit(n % 10));
    }
}

/// Appends the decimal rendering of `n` to `out`.
pub fn push_decimal(out: &mut String, n: i64)
    ensures
        final(out)@ == old(out)@ + decimal_of(n as int),
{
    if n < 0 {
        push_char(out, '-');
        let m: u64 = ((-(n + 1)) as u64) + 1;
        push_decimal_digits(out, m);
    } else {
        push_decimal_digits(out, n as u64);
    }
}

// ---------------------------------------------------------------------------
// Progress labels
// ---------------------------------------------------------------------------

/// `base (NN%)`: a label followed by a percentage in brackets.
pub open spec fn label_with_percent(base: Seq<char>, percent: int) -> Seq<char> {
    base + seq![' ', '('] + decimal_of(percent) + seq!['%', ')']
}

/// Renders `format!("{} ({}%)", base, percent)`.
pub fn progress_label(base: &str, percent: i64) -> (r: String)
    ensures
        r@ == label_with_percent(base@, percent as int),
{
    let mut r = String::new();
    r.append(base);
    push_char(&mut r, ' ');
    push_char(&mut r, '(');
    push_decimal(&mut r, percent);
    push_char(&mut r, '%');
    push_char(&mut r, ')');
    r
}

/// The two characters " (" that open the percentage of a progress label
/// start at index `i` of `s`.
pub open spec fn marker_at(s: Seq<char>, i: int) -> bool {
    0 <= i && i + 1 < s.len() && s[i] == ' ' && s[i + 1] == '('
}

/// `i` is the first index at which " (" starts in `s`.
pub open spec fn is_first_marker(s: Seq<char>, i: int) -> bool {
    marker_at(s, i) && forall|j: int| 0 <= j < i ==> !marker_at(s, j)
}

/// The text of a progress label without its percentage: everything before
/// the first " (", or the whole text when it holds none.
pub open spec fn label_base(s: Seq<char>) -> Seq<char> {
    if exists|i: int| marker_at(s, i) {
        s.take(choose|i: int| is_first_marker(s, i))
    } else {
        s
    }
}

/// The first " (" of a text is unique.
proof fn lemma_first_marker_unique(s: Seq<char>, i: int, k: int)
    requires
        is_first_marker(s, i),
        is_first_marker(s, k),
    ensures
        i == k,
{
    if i < k {
        assert(!marker_at(s, i));
    }
    if k < i {
        assert(!marker_at(s, k));
    }
}

/// When " (" occurs in a text, it has a first occurrence.
proof fn lemma_first_marker_exists(s: Seq<char>, i: int)
    requires
        marker_at(s, i),
    ensures
        exists|k: int| is_first_marker(s, k),
    decreases i,
{
    if forall|j: int| 0 <= j < i ==> !marker_at(s, j) {
        assert(is_first_marker(s, i));
    } else {
        let j = choose|j: int| 0 <= j < i && marker_at(s, j);
        lemma_first_marker_exists(s, j);
    }
}

/// Finds the first index at which " (" starts in `v`.
pub fn find_marker(v: &Vec<char>) -> (r: Option<usize>)
    ensures
        match r {
            Some(i) => is_first_marker(v@, i as int),
            None => forall|j: int| !marker_at(v@, j),
        },
{
    let n = v.len();
    let mut i: usize = 0;
    while i < n && i + 1 < n
        invariant
            i <= n == v.len(),
            forall|j: int| 0 <= j < i ==> !marker_at(v@, j),
        decreases n - i,
    {
        if v[i] == ' ' && v[i + 1] == '(' {
            return Some(i);
        }
        i = i + 1;
    }
    None
}

/// Replaces the percentage of a progress label: keeps the text before the
/// first " (" and appends " (NN%)".
pub fn relabel_progress(text: &str, percent: i64) -> (r: String)
    ensures
        r@ == label_with_percent(label_base(text@), percent as int),
{
    let v = chars_of(text);
    let base = match find_marker(&v) {
        Some(i) => {
            proof {
                lemma_first_marker_exists(v@, i as int);
                let k = choose|k: int| is_first_marker(v@, k);
                lemma_first_marker_unique(v@, i as int, k);
            }
            string_from_range(&v, 0, i)
        },
        None => {
            assert(v@.subrange(0, v@.len() as int) =~= v@);
            string_from_range(&v, 0, v.len())
        },
    };
    progress_label(base.as_str(), percent)
}

// ---------------------------------------------------------------------------
// Laws
// ---------------------------------------------------------------------------

/// Stripping the edges twice gives what stripping once gives.
pub proof fn law_strip_edges_idempotent(s: Seq<char>)
    ensures
        strip_edges_spec(strip_edges_spec(s)) == strip_edges_spec(s),
{
    lemma_strip_window_exists(s);
    let (b, e) = choose|b: int, e: int| is_strip_window(s, b, e);
    lemma_strip_window_gives_spec(s, b, e);
    let r = s.subrange(b, e);
    if b < e {
        assert(is_strip_window(r, 0, r.len() as int));
        lemma_strip_window_gives_spec(r, 0, r.len() as int);
        assert(r.subrange(0, r.len() as int) =~= r);
    } else {
        assert(is_strip_window(r, 0, 0));
        lemma_strip_window_gives_spec(r, 0, 0);
        assert(r.subrange(0, 0) =~= r);
    }
}

/// The stripped text neither starts nor ends with an edge character, and it
/// is a contiguous part of the input.
pub proof fn law_strip_edges_trims_both_ends(s: Seq<char>)
    ensures
        strip_edges_spec(s).len() > 0 ==> !is_edge_char(strip_edges_spec(s)[0]),
        strip_edges_spec(s).len() > 0 ==> !is_edge_char(strip_edges_spec(s).last()),
        exists|b: int, e: int| 0 <= b <= e <= s.len() && strip_edges_spec(s) == s.subrange(b, e),
{
    lemma_strip_window_exists(s);
    let (b, e) = choose|b: int, e: int| is_strip_window(s, b, e);
    lemma_strip_window_gives_spec(s, b, e);
}

/// The base of a progress label holds no " (".
proof fn lemma_label_base_has_no_marker(t: Seq<char>)
    ensures
        forall|j: int| !marker_at(label_base(t), j),
{
    if exists|i: int| marker_at(t, i) {
        let i = choose|i: int| marker_at(t, i);
        lemma_first_marker_exists(t, i);
        let k = choose|k: int| is_first_marker(t, k);
        let b = t.take(k);
        assert forall|j: int| !marker_at(b, j) by {
            if marker_at(b, j) {
                assert(marker_at(t, j));
            }
        }
    }
}

/// Relabelling a progress label twice keeps only the last percentage: the
/// base text is kept as it was after the first relabelling.
pub proof fn law_relabel_keeps_base(t: Seq<char>, p: int)
    ensures
        label_base(label_with_percent(label_base(t), p)) == label_base(t),
{
    let b = label_base(t);
    lemma_label_base_has_no_marker(t);
    let l = label_with_percent(b, p);
    let n = b.len() as int;
    assert(l[n] == ' ' && l[n + 1] == '(');
    assert(marker_at(l, n));
    assert forall|j: int| 0 <= j < n implies !marker_at(l, j) by {
        if j + 1 < n {
            assert(!marker_at(b, j));
        } else {
            assert(l[j + 1] == ' ');
        }
    }
    assert(is_first_marker(l, n));
    let k = choose|k: int| is_first_marker(l, k);
    lemma_first_marker_unique(l, n, k);
    assert(l.take(n) =~= b);
}

} // verus!
