//! String helpers shared by the translators: decimal rendering, joining and splitting on a
//! delimiter, and character-exact comparison.
use vstd::prelude::*;

verus! {

/// The character of a decimal digit.
pub open spec fn digit_char(d: nat) -> char {
    seq!['0', '1', '2', '3', '4', '5', '6', '7', '8', '9'][d as int]
}

/// The decimal representation of `n`, without sign or leading zeros.
pub open spec fn decimal_of(n: nat) -> Seq<char>
    decreases n,
{
    if n < 10 {
        seq![digit_char(n)]
    } else {
        decimal_of(n / 10).push(digit_char(n % 10))
    }
}

fn digit_str(d: u64) -> (r: &'static str)
    requires
        d < 10,
    ensures
        r@ == seq![digit_char(d as nat)],
{
    let r = match d {
        0 => "0",
        1 => "1",
        2 => "2",
        3 => "3",
        4 => "4",
        5 => "5",
        6 => "6",
        7 => "7",
        8 => "8",
        _ => "9",
    };
    proof {
        reveal_strlit("0");
        reveal_strlit("1");
        reveal_strlit("2");
        reveal_strlit("3");
        reveal_strlit("4");
        reveal_strlit("5");
        reveal_strlit("6");
        reveal_strlit("7");
        reveal_strlit("8");
        reveal_strlit("9");
        assert(r@ =~= seq![digit_char(d as nat)]);
    }
    r
}

/// Renders `n` in decimal.
pub fn decimal(n: u64) -> (r: String)
    ensures
        r@ == decimal_of(n as nat),
    decreases n,
{
    if n < 10 {
        digit_str(n).to_owned()
    } else {
        let mut s = decimal(n / 10);
        s.append(digit_str(n % 10));
        s
    }
}

/// Compares two strings character by character.
pub fn str_eq(a: &str, b: &str) -> (r: bool)
    ensures
        r == (a@ == b@),
{
    let n = a.unicode_len();
    if n != b.unicode_len() {
        return false;
    }
    let mut i: usize = 0;
    while i < n
        invariant
            n == a@.len(),
            n == b@.len(),
            i <= n,
            forall|j: int| 0 <= j < i ==> a@[j] == b@[j],
        decreases n - i,
    {
        if a.get_char(i) != b.get_char(i) {
            return false;
        }
        i = i + 1;
    }
    assert(a@ =~= b@);
    true
}

/// The characters of `s`, one by one.
pub fn chars_of(s: &str) -> (r: Vec<char>)
    ensures
        r@ == s@,
{
    let n = s.unicode_len();
    let mut r: Vec<char> = Vec::new();
    let mut i: usize = 0;
    while i < n
        invariant
            n == s@.len(),
            i <= n,
            r@ == s@.subrange(0, i as int),
        decreases n - i,
    {
        r.push(s.get_char(i));
        i = i + 1;
        assert(r@ =~= s@.subrange(0, i as int));
    }
    assert(r@ =~= s@);
    r
}

/// The views of a sequence of strings.
pub open spec fn views(xs: Seq<String>) -> Seq<Seq<char>> {
    xs.map_values(|x: String| x@)
}

/// The parts joined, with `d` between each two neighbours.
pub open spec fn joined(xs: Seq<Seq<char>>, d: Seq<char>) -> Seq<char>
    decreases xs.len(),
{
    if xs.len() == 0 {
        Seq::empty()
    } else if xs.len() == 1 {
        xs[0]
    } else {
        xs[0] + d + joined(xs.drop_first(), d)
    }
}

/// `d` occurs in `s` at position `i`.
pub open spec fn occurs_at(s: Seq<char>, d: Seq<char>, i: int) -> bool {
    0 <= i && i + d.len() <= s.len() && s.subrange(i, i + d.len()) == d
}

/// The first position at or after `i` where `d` occurs in `s`.
pub open spec fn find_from(s: Seq<char>, d: Seq<char>, i: int) -> Option<int>
    decreases s.len() + 1 - i,
{
    if i < 0 || i + d.len() > s.len() {
        None
    } else if occurs_at(s, d, i) {
        Some(i)
    } else {
        find_from(s, d, i + 1)
    }
}

/// The pieces of `s` from position `i` on, cut at each occurrence of `d`, scanning left to right.
pub open spec fn split_from(s: Seq<char>, d: Seq<char>, i: int) -> Seq<Seq<char>>
    decreases s.len() - i,
{
    if d.len() == 0 || i < 0 || i > s.len() {
        seq![s.subrange(i, s.len() as int)]
    } else {
        match find_from(s, d, i) {
            Some(j) => if i <= j && j + d.len() <= s.len() {
                seq![s.subrange(i, j)] + split_from(s, d, j + d.len())
            } else {
                seq![s.subrange(i, s.len() as int)]
            },
            None => seq![s.subrange(i, s.len() as int)],
        }
    }
}

/// The pieces of `s` cut at each occurrence of `d`, as `str::split` gives them.
pub open spec fn split_on(s: Seq<char>, d: Seq<char>) -> Seq<Seq<char>> {
    split_from(s, d, 0)
}

proof fn lemma_find_from_bounds(s: Seq<char>, d: Seq<char>, i: int)
    requires
        0 <= i,
    ensures
        find_from(s, d, i) matches Some(j) ==> i <= j && occurs_at(s, d, j) && forall|k: int|
            i <= k < j ==> !occurs_at(s, d, k),
        find_from(s, d, i) is None ==> forall|k: int| i <= k ==> !occurs_at(s, d, k),
    decreases s.len() + 1 - i,
{
    if i + d.len() > s.len() {
    } else if occurs_at(s, d, i) {
    } else {
        lemma_find_from_bounds(s, d, i + 1);
    }
}

proof fn lemma_find_from_first(s: Seq<char>, d: Seq<char>, i: int, j: int)
    requires
        0 <= i <= j,
        occurs_at(s, d, j),
        forall|k: int| i <= k < j ==> !occurs_at(s, d, k),
    ensures
        find_from(s, d, i) == Some(j),
    decreases j - i,
{
    if i < j {
        lemma_find_from_first(s, d, i + 1, j);
    }
}

proof fn lemma_find_from_shift(p: Seq<char>, r: Seq<char>, d: Seq<char>, i: int)
    requires
        0 <= i,
    ensures
        find_from(p + r, d, p.len() + i) == (match find_from(r, d, i) {
            Some(j) => Some(j + p.len()),
            None => None,
        }),
    decreases r.len() + 1 - i,
{
    let s = p + r;
    if i + d.len() > r.len() {
    } else {
        assert(s.subrange(p.len() + i, p.len() + i + d.len()) =~= r.subrange(i, i + d.len()));
        if !occurs_at(r, d, i) {
            lemma_find_from_shift(p, r, d, i + 1);
            assert(p.len() + i + 1 == p.len() + (i + 1));
        }
    }
}

proof fn lemma_split_from_shift(p: Seq<char>, r: Seq<char>, d: Seq<char>, i: int)
    requires
        0 <= i <= r.len(),
        d.len() > 0,
    ensures
        split_from(p + r, d, p.len() + i) == split_from(r, d, i),
    decreases r.len() - i,
{
    let s = p + r;
    lemma_find_from_shift(p, r, d, i);
    lemma_find_from_bounds(r, d, i);
    match find_from(r, d, i) {
        Some(j) => {
            assert(s.subrange(p.len() + i, j + p.len()) =~= r.subrange(i, j));
            lemma_split_from_shift(p, r, d, j + d.len());
            assert(j + p.len() + d.len() == p.len() + (j + d.len()));
        },
        None => {
            assert(s.subrange(p.len() + i, s.len() as int) =~= r.subrange(i, r.len() as int));
        },
    }
}

/// A part that the delimiter cannot be found in, nor across its border with a following
/// delimiter: in `x + d` the first occurrence of `d` is the one appended.
pub open spec fn clean_part(x: Seq<char>, d: Seq<char>) -> bool {
    find_from(x + d, d, 0) == Some(x.len() as int)
}

/// Splitting the parts joined by a delimiter gives back the same parts, in the same order,
/// when no part holds the delimiter, nor the start of it at its end.
pub proof fn lemma_split_joined(xs: Seq<Seq<char>>, d: Seq<char>)
    requires
        xs.len() > 0,
        d.len() > 0,
        forall|i: int| 0 <= i < xs.len() ==> clean_part(#[trigger] xs[i], d),
    ensures
        split_on(joined(xs, d), d) == xs,
    decreases xs.len(),
{
    let x = xs[0];
    assert(clean_part(xs[0], d));
    lemma_find_from_bounds(x + d, d, 0);
    assert forall|k: int| 0 <= k < x.len() implies !occurs_at(joined(xs, d), d, k) by {
        let js = joined(xs, d);
        if occurs_at(js, d, k) {
            if xs.len() > 1 {
                assert(js =~= (x + d) + joined(xs.drop_first(), d));
            }
            assert((x + d).subrange(k, k + d.len()) =~= js.subrange(k, k + d.len()));
            assert(occurs_at(x + d, d, k));
        }
    }
    if xs.len() == 1 {
        assert forall|k: int| 0 <= k implies !occurs_at(x, d, k) by {
            if occurs_at(x, d, k) {
                assert((x + d).subrange(k, k + d.len()) =~= x.subrange(k, k + d.len()));
                assert(occurs_at(x + d, d, k));
            }
        }
        lemma_find_from_bounds(x, d, 0);
        assert(x.subrange(0, x.len() as int) =~= x);
        assert(seq![x] =~= xs);
    } else {
        let rest = xs.drop_first();
        assert forall|i: int| 0 <= i < rest.len() implies clean_part(#[trigger] rest[i], d) by {
            assert(rest[i] == xs[i + 1]);
        }
        lemma_split_joined(rest, d);
        let s = joined(xs, d);
        let p = x + d;
        assert(s =~= p + joined(rest, d));
        assert(s.subrange(x.len() as int, (x.len() + d.len()) as int) =~= d);
        lemma_find_from_first(s, d, 0, x.len() as int);
        lemma_split_from_shift(p, joined(rest, d), d, 0);
        assert(s.subrange(0, x.len() as int) =~= x);
        assert(seq![x] + rest =~= xs);
    }
}

fn occurs_at_exec(s: &Vec<char>, d: &Vec<char>, i: usize) -> (r: bool)
    ensures
        r == occurs_at(s@, d@, i as int),
{
    if d.len() > s.len() || i > s.len() - d.len() {
        return false;
    }
    let mut k: usize = 0;
    while k < d.len()
        invariant
            i + d@.len() <= s@.len(),
            k <= d@.len(),
            d@.len() == d.len(),
            s@.len() == s.len(),
            forall|j: int| 0 <= j < k ==> s@[i + j] == d@[j],
        decreases d@.len() - k,
    {
        if s[i + k] != d[k] {
            assert(s@.subrange(i as int, i + d@.len())[k as int] != d@[k as int]);
            return false;
        }
        k = k + 1;
    }
    assert(s@.subrange(i as int, i + d@.len()) =~= d@);
    true
}

/// Concatenates the parts with `d` between each two neighbours.
pub fn join(parts: &[String], d: &str) -> (r: String)
    ensures
        r@ == joined(views(parts@), d@),
{
    let n = parts.len();
    if n == 0 {
        return String::new();
    }
    let mut r = parts[n - 1].clone();
    let mut i: usize = n - 1;
    while i > 0
        invariant
            n == parts@.len(),
            0 <= i < n,
            r@ == joined(views(parts@).subrange(i as int, n as int), d@),
        decreases i,
    {
        let ghost tail = views(parts@).subrange(i as int, n as int);
        let mut next = parts[i - 1].clone();
        next.append(d);
        next.append(r.as_str());
        r = next;
        i = i - 1;
        proof {
            let xs = views(parts@).subrange(i as int, n as int);
            assert(xs.drop_first() =~= tail);
            assert(xs[0] == parts@[i as int]@);
        }
    }
    assert(views(parts@).subrange(0, n as int) =~= views(parts@));
    r
}

/// Cuts `s` at each occurrence of `d`, scanning left to right.
pub fn split(s: &str, d: &str) -> (r: Vec<String>)
    requires
        d@.len() > 0,
    ensures
        views(r@) == split_on(s@, d@),
{
    let sc = chars_of(s);
    let dc = chars_of(d);
    let n = sc.len();
    let mut r: Vec<String> = Vec::new();
    let mut start: usize = 0;
    let mut i: usize = 0;
    while i < n
        invariant
            sc@ == s@,
            dc@ == d@,
            d@.len() > 0,
            n == s@.len(),
            start <= i <= n,
            views(r@) + split_from(s@, d@, start as int) == split_on(s@, d@),
            find_from(s@, d@, start as int) == find_from(s@, d@, i as int),
        decreases n - i,
    {
        if occurs_at_exec(&sc, &dc, i) {
            proof {
                lemma_find_from_bounds(s@, d@, start as int);
                assert(find_from(s@, d@, i as int) == Some(i as int));
            }
            let piece = s.substring_char(start, i).to_owned();
            let ghost old_r = r@;
            let ghost old_start = start as int;
            r.push(piece);
            start = i + dc.len();
            i = start;
            proof {
                assert(views(r@) =~= views(old_r).push(s@.subrange(old_start, i - d@.len())));
                let tail = split_from(s@, d@, start as int);
                assert(split_from(s@, d@, old_start) == seq![s@.subrange(old_start, i - d@.len())]
                    + tail);
                assert(views(r@) + tail =~= views(old_r) + split_from(s@, d@, old_start));
            }
        } else {
            proof {
                assert(!occurs_at(s@, d@, i as int));
            }
            i = i + 1;
        }
    }
    proof {
        lemma_find_from_bounds(s@, d@, start as int);
        assert(find_from(s@, d@, start as int) is None);
    }
    let ghost old_r = r@;
    let last = s.substring_char(start, n).to_owned();
    r.push(last);
    assert(views(r@) =~= views(old_r) + split_from(s@, d@, start as int));
    r
}

} // verus!
