//! Character-level building blocks shared by the parser and the emitters.
use vstd::prelude::*;

verus! {

/// What `char::is_uppercase` answers for a character.
pub uninterp spec fn is_upper_char(c: char) -> bool;

/// The first character of `char::to_lowercase`.
pub uninterp spec fn lower_char(c: char) -> char;

/// The first character of `char::to_uppercase`.
pub uninterp spec fn upper_char(c: char) -> char;

/// Relies on `String::push`: appends one character.
#[verifier::external_body]
pub fn push_char(s: &mut String, c: char)
    ensures
        final(s)@ == old(s)@.push(c),
{
    s.push(c);
}

/// Relies on `char::is_uppercase`: the Unicode `Uppercase` property, which
/// holds of the ASCII capitals and not of ASCII lower-case letters, digits or `_`.
#[verifier::external_body]
pub fn char_is_uppercase(c: char) -> (r: bool)
    ensures
        r == is_upper_char(c),
        ('A' <= c && c <= 'Z') ==> r,
        (('a' <= c && c <= 'z') || ('0' <= c && c <= '9') || c == '_') ==> !r,
{
    c.is_uppercase()
}

/// Relies on `char::to_lowercase`, which yields at least one character;
/// the first one is taken.
#[verifier::external_body]
pub fn char_to_lowercase(c: char) -> (r: char)
    ensures
        r == lower_char(c),
{
    c.to_lowercase().next().unwrap()
}

/// Relies on `char::to_uppercase`, which yields at least one character;
/// the first one is taken.
#[verifier::external_body]
pub fn char_to_uppercase(c: char) -> (r: char)
    ensures
        r == upper_char(c),
{
    c.to_uppercase().next().unwrap()
}

/// The characters of a string, in order.
pub fn chars_of(s: &str) -> (r: Vec<char>)
    ensures
        r@ == s@,
{
    let mut r: Vec<char> = Vec::new();
    for c in it: s.chars()
        invariant
            it.seq() == s@,
            r@ == s@.take(it.index() as int),
    {
        r.push(c);
    }
    assert(r@ =~= s@);
    r
}

} // verus!

verus! {

/// A string holding exactly the given characters.
pub fn string_of(v: &Vec<char>) -> (r: String)
    ensures
        r@ == v@,
{
    let mut r = String::new();
    let mut i: usize = 0;
    while i < v.len()
        invariant
            i <= v.len(),
            r@ == v@.take(i as int),
        decreases v.len() - i,
    {
        push_char(&mut r, v[i]);
        i = i + 1;
        assert(r@ =~= v@.take(i as int));
    }
    assert(r@ =~= v@);
    r
}

/// `s` with every leading `c` removed.
pub open spec fn trim_start_of(s: Seq<char>, c: char) -> Seq<char>
    decreases s.len(),
{
    if s.len() > 0 && s[0] == c {
        trim_start_of(s.drop_first(), c)
    } else {
        s
    }
}

/// `s` with every trailing `c` removed.
pub open spec fn trim_end_of(s: Seq<char>, c: char) -> Seq<char>
    decreases s.len(),
{
    if s.len() > 0 && s.last() == c {
        trim_end_of(s.drop_last(), c)
    } else {
        s
    }
}

/// The characters of `v` from the first one that is not `c` on.
pub fn trim_start_chars(v: &Vec<char>, c: char) -> (r: Vec<char>)
    ensures
        r@ == trim_start_of(v@, c),
{
    let mut i: usize = 0;
    assert(v@.skip(0) =~= v@);
    while i < v.len() && v[i] == c
        invariant
            i <= v.len(),
            trim_start_of(v@, c) == trim_start_of(v@.skip(i as int), c),
        decreases v.len() - i,
    {
        assert(v@.skip(i as int).drop_first() =~= v@.skip(i + 1));
        i = i + 1;
    }
    let mut r: Vec<char> = Vec::new();
    let mut j: usize = i;
    while j < v.len()
        invariant
            i <= j <= v.len(),
            r@ == v@.subrange(i as int, j as int),
        decreases v.len() - j,
    {
        r.push(v[j]);
        j = j + 1;
        assert(r@ =~= v@.subrange(i as int, j as int));
    }
    assert(r@ =~= v@.skip(i as int));
    r
}

/// The characters of `v` up to the last one that is not `c`.
pub fn trim_end_chars(v: &Vec<char>, c: char) -> (r: Vec<char>)
    ensures
        r@ == trim_end_of(v@, c),
{
    let mut n: usize = v.len();
    assert(v@.take(n as int) =~= v@);
    while n > 0 && v[n - 1] == c
        invariant
            n <= v.len(),
            trim_end_of(v@, c) == trim_end_of(v@.take(n as int), c),
        decreases n,
    {
        assert(v@.take(n as int).drop_last() =~= v@.take(n - 1));
        n = n - 1;
    }
    let mut r: Vec<char> = Vec::new();
    let mut j: usize = 0;
    while j < n
        invariant
            j <= n <= v.len(),
            r@ == v@.take(j as int),
        decreases n - j,
    {
        r.push(v[j]);
        j = j + 1;
        assert(r@ =~= v@.take(j as int));
    }
    r
}

/// The items joined with `sep` between each two.
pub open spec fn join_spec(items: Seq<Seq<char>>, sep: Seq<char>) -> Seq<char>
    decreases items.len(),
{
    if items.len() == 0 {
        seq![]
    } else if items.len() == 1 {
        items[0]
    } else {
        join_spec(items.drop_last(), sep) + sep + items.last()
    }
}

/// The texts of a sequence of strings.
pub open spec fn texts(v: Seq<String>) -> Seq<Seq<char>> {
    v.map_values(|s: String| s@)
}

/// The strings joined with `sep` between each two.
pub fn join_strings(items: &Vec<String>, sep: &str) -> (r: String)
    ensures
        r@ == join_spec(texts(items@), sep@),
{
    let mut out = String::new();
    let mut i: usize = 0;
    while i < items.len()
        invariant
            i <= items.len(),
            out@ == join_spec(texts(items@.take(i as int)), sep@),
        decreases items.len() - i,
    {
        assert(texts(items@.take(i + 1)).drop_last() =~= texts(items@.take(i as int)));
        assert(texts(items@.take(i + 1)).last() == items@[i as int]@);
        if i > 0 {
            out.append(sep);
        } else {
            assert(out@ =~= seq![]);
        }
        out.append(items[i].as_str());
        i = i + 1;
    }
    assert(items@.take(i as int) =~= items@);
    out
}

/// Whether `pat` occurs in `s`.
pub open spec fn contains_spec(s: Seq<char>, pat: Seq<char>) -> bool {
    exists|i: int| 0 <= i && i + pat.len() <= s.len() && #[trigger] s.subrange(i, i + pat.len()) == pat
}

/// Whether `pat` occurs in `s`.
pub fn contains_text(s: &str, pat: &str) -> (r: bool)
    ensures
        r == contains_spec(s@, pat@),
{
    let a = chars_of(s);
    let b = chars_of(pat);
    if b.len() > a.len() {
        return false;
    }
    let last: usize = a.len() - b.len();
    let mut i: usize = 0;
    while i <= last
        invariant
            a@ == s@,
            b@ == pat@,
            last == a.len() - b.len(),
            i <= last + 1,
            forall|k: int| 0 <= k < i ==> #[trigger] a@.subrange(k, k + b@.len()) != b@,
        decreases last + 1 - i,
    {
        let mut j: usize = 0;
        while j < b.len() && a[i + j] == b[j]
            invariant
                i <= last,
                last == a.len() - b.len(),
                j <= b.len(),
                a@.subrange(i as int, i + j) == b@.take(j as int),
            decreases b.len() - j,
        {
            assert(a@.subrange(i as int, i + j + 1) =~= a@.subrange(i as int, i + j).push(a@[i + j]));
            assert(b@.take(j + 1) =~= b@.take(j as int).push(b@[j as int]));
            j = j + 1;
        }
        if j == b.len() {
            assert(b@.take(j as int) =~= b@);
            assert(a@.subrange(i as int, i + b@.len()) == b@);
            return true;
        }
        assert(a@.subrange(i as int, i + b@.len())[j as int] != b@[j as int]);
        i = i + 1;
    }
    assert forall|k: int| 0 <= k && k + pat@.len() <= s@.len() implies #[trigger] s@.subrange(k, k + pat@.len()) != pat@ by {
        assert(k < i);
    }
    false
}

/// Joins two strings.
pub fn join(a: &str, b: &str) -> (r: String)
    ensures
        r@ == a@ + b@,
{
    let mut s = a.to_string();
    s.append(b);
    s
}

/// The first position at which `pat` occurs in `s`.
pub open spec fn find_spec(s: Seq<char>, pat: Seq<char>) -> Option<int>
    decreases s.len(),
{
    if s.len() < pat.len() {
        None
    } else if s.take(pat.len() as int) == pat {
        Some(0)
    } else if s.len() == 0 {
        None
    } else {
        match find_spec(s.drop_first(), pat) {
            Some(i) => Some(i + 1),
            None => None,
        }
    }
}

/// `o` moved `k` positions on.
pub open spec fn shifted(o: Option<int>, k: int) -> Option<int> {
    match o {
        Some(i) => Some(i + k),
        None => None,
    }
}

/// Where `find_spec` finds `pat`, it lies inside `s`.
pub proof fn lemma_find_in_bounds(s: Seq<char>, pat: Seq<char>)
    ensures
        find_spec(s, pat) matches Some(k) ==> 0 <= k && k + pat.len() <= s.len(),
    decreases s.len(),
{
    if s.len() >= pat.len() && s.take(pat.len() as int) != pat && s.len() > 0 {
        lemma_find_in_bounds(s.drop_first(), pat);
    }
}

/// The first position at which `pat` occurs in `s`.
pub fn find_chars(s: &Vec<char>, pat: &Vec<char>) -> (r: Option<usize>)
    ensures
        match r {
            Some(i) => find_spec(s@, pat@) == Some(i as int),
            None => find_spec(s@, pat@) is None,
        },
{
    let mut i: usize = 0;
    assert(s@.skip(0) =~= s@);
    while i <= s.len() && pat.len() <= s.len() - i
        invariant
            i <= s.len() + 1,
            i <= s.len() ==> find_spec(s@, pat@) == shifted(find_spec(s@.skip(i as int), pat@), i as int),
            i > s.len() ==> find_spec(s@, pat@) is None,
        decreases s.len() + 1 - i,
    {
        let mut j: usize = 0;
        while j < pat.len() && s[i + j] == pat[j]
            invariant
                i <= s.len(),
                pat.len() <= s.len() - i,
                j <= pat.len(),
                s@.subrange(i as int, i + j) == pat@.take(j as int),
            decreases pat.len() - j,
        {
            assert(s@.subrange(i as int, i + j + 1) =~= s@.subrange(i as int, i + j).push(s@[i + j]));
            assert(pat@.take(j + 1) =~= pat@.take(j as int).push(pat@[j as int]));
            j = j + 1;
        }
        assert(s@.skip(i as int).take(pat@.len() as int) =~= s@.subrange(i as int, i + pat@.len()));
        if j == pat.len() {
            assert(pat@.take(j as int) =~= pat@);
            return Some(i);
        }
        assert(s@.subrange(i as int, i + pat@.len())[j as int] != pat@[j as int]);
        if i == s.len() {
            i = i + 1;
        } else {
            assert(s@.skip(i as int).drop_first() =~= s@.skip(i + 1));
            i = i + 1;
        }
    }
    if i <= s.len() {
        assert(s@.skip(i as int).len() < pat@.len());
    }
    None
}

/// The characters of `v` from `lo` up to `hi`.
pub fn sub_chars(v: &Vec<char>, lo: usize, hi: usize) -> (r: Vec<char>)
    requires
        lo <= hi <= v.len(),
    ensures
        r@ == v@.subrange(lo as int, hi as int),
{
    let mut r: Vec<char> = Vec::new();
    let mut j: usize = lo;
    while j < hi
        invariant
            lo <= j <= hi <= v.len(),
            r@ == v@.subrange(lo as int, j as int),
        decreases hi - j,
    {
        r.push(v[j]);
        j = j + 1;
        assert(r@ =~= v@.subrange(lo as int, j as int));
    }
    r
}

/// Each item stands whole in the joined text.
pub proof fn lemma_join_contains(items: Seq<Seq<char>>, sep: Seq<char>, i: int)
    requires
        0 <= i < items.len(),
    ensures
        exists|pre: Seq<char>, post: Seq<char>| #[trigger] (pre + items[i] + post) == join_spec(items, sep),
    decreases items.len(),
{
    let last = items.len() - 1;
    if i == last {
        if items.len() == 1 {
            assert(seq![] + items[i] + seq![] =~= join_spec(items, sep));
        } else {
            let pre = join_spec(items.drop_last(), sep) + sep;
            assert(pre + items[i] + seq![] =~= join_spec(items, sep));
        }
    } else {
        lemma_join_contains(items.drop_last(), sep, i);
        let (pre, post) = choose|pre: Seq<char>, post: Seq<char>|
            #[trigger] (pre + items.drop_last()[i] + post) == join_spec(items.drop_last(), sep);
        assert(items.drop_last()[i] == items[i]);
        assert(pre + items[i] + (post + sep + items.last()) =~= join_spec(items, sep));
    }
}

} // verus!
