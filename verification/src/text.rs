//! Character-level text operations shared by the rest of the crate.
//!
//! Strings are modelled by their view, a `Seq<char>`. The specifications here
//! are stated over such sequences; the executable functions work on `&str`.

use vstd::prelude::*;

verus! {

/// Membership in the Unicode `White_Space` property.
pub open spec fn is_whitespace(c: char) -> bool {
    ||| c == ' '
    ||| ('\u{9}' <= c && c <= '\u{d}')
    ||| c == '\u{85}'
    ||| c == '\u{a0}'
    ||| c == '\u{1680}'
    ||| ('\u{2000}' <= c && c <= '\u{200a}')
    ||| c == '\u{2028}'
    ||| c == '\u{2029}'
    ||| c == '\u{202f}'
    ||| c == '\u{205f}'
    ||| c == '\u{3000}'
}

/// The predicate "is a whitespace character".
pub open spec fn whitespace() -> spec_fn(char) -> bool {
    |c: char| is_whitespace(c)
}

/// The predicate "is not a whitespace character".
pub open spec fn non_whitespace() -> spec_fn(char) -> bool {
    |c: char| !is_whitespace(c)
}

/// The predicate "is not a line feed".
pub open spec fn non_newline() -> spec_fn(char) -> bool {
    |c: char| c != '\n'
}

/// Length of the longest prefix of `s` whose characters all satisfy `p`.
pub open spec fn run_len(s: Seq<char>, p: spec_fn(char) -> bool) -> nat
    decreases s.len(),
{
    if s.len() > 0 && p(s[0]) {
        1 + run_len(s.drop_first(), p)
    } else {
        0
    }
}

/// `run_len` stays inside the sequence, covers only characters that satisfy
/// `p`, and stops at the first character that does not.
pub proof fn lemma_run_len(s: Seq<char>, p: spec_fn(char) -> bool)
    ensures
        run_len(s, p) <= s.len(),
        forall|i: int| 0 <= i < run_len(s, p) ==> p(#[trigger] s[i]),
        run_len(s, p) < s.len() ==> !p(s[run_len(s, p) as int]),
    decreases s.len(),
{
    if s.len() > 0 && p(s[0]) {
        let t = s.drop_first();
        lemma_run_len(t, p);
        assert forall|i: int| 0 <= i < run_len(s, p) implies p(#[trigger] s[i]) by {
            if i > 0 {
                assert(s[i] == t[i - 1]);
            }
        }
        if run_len(s, p) < s.len() {
            assert(s[run_len(s, p) as int] == t[run_len(t, p) as int]);
        }
    }
}

/// Any length with the three properties of `lemma_run_len` is `run_len`.
pub proof fn lemma_run_len_unique(s: Seq<char>, p: spec_fn(char) -> bool, n: int)
    requires
        0 <= n <= s.len(),
        forall|i: int| 0 <= i < n ==> p(#[trigger] s[i]),
        n < s.len() ==> !p(s[n]),
    ensures
        run_len(s, p) == n,
{
    lemma_run_len(s, p);
    let m = run_len(s, p) as int;
    if m < n {
        assert(p(s[m]));
    } else if n < m {
        assert(p(s[n]));
    }
}

/// True when every character of `s` is whitespace; the empty text is blank.
pub open spec fn is_blank(s: Seq<char>) -> bool {
    forall|i: int| 0 <= i < s.len() ==> is_whitespace(#[trigger] s[i])
}

/// `s` without its leading and trailing whitespace.
pub open spec fn trimmed(s: Seq<char>) -> Seq<char> {
    let rest = s.skip(run_len(s, whitespace()) as int);
    rest.take(rest.len() - run_len(rest.reverse(), whitespace()))
}

/// The whitespace-separated fields of `s`, in order: each maximal run of
/// non-whitespace characters.
pub open spec fn fields(s: Seq<char>) -> Seq<Seq<char>>
    decreases s.len(),
{
    let rest = s.skip(run_len(s, whitespace()) as int);
    let n = run_len(rest, non_whitespace());
    if n > 0 {
        proof {
            lemma_run_len(s, whitespace());
            lemma_run_len(rest, non_whitespace());
        }
        seq![rest.take(n as int)] + fields(rest.skip(n as int))
    } else {
        Seq::empty()
    }
}

/// A text has no fields exactly when it is blank.
pub proof fn lemma_fields_of_blank(s: Seq<char>)
    ensures
        is_blank(s) <==> fields(s).len() == 0,
{
    lemma_run_len(s, whitespace());
    let start = run_len(s, whitespace()) as int;
    let rest = s.skip(start);
    lemma_run_len(rest, non_whitespace());
    if is_blank(s) {
        lemma_run_len_unique(s, whitespace(), s.len() as int);
    } else {
        let i = choose|i: int| 0 <= i < s.len() && !is_whitespace(#[trigger] s[i]);
        assert(!whitespace()(s[i]));
        assert(start <= i);
        assert(rest[0] == s[start]);
        assert(non_whitespace()(rest[0]));
    }
}

/// Every field is a word: it is not empty and holds no whitespace.
pub proof fn lemma_fields_are_words(s: Seq<char>, i: int)
    requires
        0 <= i < fields(s).len(),
    ensures
        fields(s)[i].len() > 0,
        forall|j: int| 0 <= j < fields(s)[i].len() ==> !is_whitespace(#[trigger] fields(s)[i][j]),
    decreases s.len(),
{
    lemma_run_len(s, whitespace());
    let rest = s.skip(run_len(s, whitespace()) as int);
    lemma_run_len(rest, non_whitespace());
    let n = run_len(rest, non_whitespace()) as int;
    let word = rest.take(n);
    if i == 0 {
        assert(fields(s)[0] == word);
        assert forall|j: int| 0 <= j < word.len() implies !is_whitespace(#[trigger] word[j]) by {
            assert(non_whitespace()(rest[j]));
        }
    } else {
        lemma_fields_are_words(rest.skip(n), i - 1);
        assert(fields(s)[i] == fields(rest.skip(n))[i - 1]);
    }
}

/// A word is its own and only field.
pub proof fn lemma_fields_of_word(word: Seq<char>)
    requires
        word.len() > 0,
        forall|j: int| 0 <= j < word.len() ==> !is_whitespace(#[trigger] word[j]),
    ensures
        fields(word) == seq![word],
{
    lemma_run_len_unique(word, whitespace(), 0);
    assert(word.skip(0) =~= word);
    assert forall|j: int| 0 <= j < word.len() implies non_whitespace()(#[trigger] word[j]) by {}
    lemma_run_len_unique(word, non_whitespace(), word.len() as int);
    let after = word.skip(word.len() as int);
    lemma_run_len_unique(after, whitespace(), 0);
    lemma_run_len_unique(after.skip(0), non_whitespace(), 0);
    assert(fields(after) =~= Seq::<Seq<char>>::empty());
    assert(word.take(word.len() as int) =~= word);
    assert(seq![word] + Seq::<Seq<char>>::empty() =~= seq![word]);
}

/// The fields of two texts with a whitespace character between them are the
/// fields of the first followed by the fields of the second.
pub proof fn lemma_fields_across_whitespace(a: Seq<char>, c: char, b: Seq<char>)
    requires
        is_whitespace(c),
    ensures
        fields(a + seq![c] + b) == fields(a) + fields(b),
    decreases a.len(),
{
    let s = a + seq![c] + b;
    lemma_run_len(a, whitespace());
    let la = run_len(a, whitespace()) as int;
    let rest_a = a.skip(la);
    lemma_run_len(rest_a, non_whitespace());
    if la == a.len() {
        lemma_run_len(b, whitespace());
        let lb = run_len(b, whitespace()) as int;
        let start = la + 1 + lb;
        assert forall|i: int| 0 <= i < start implies whitespace()(#[trigger] s[i]) by {
            if i < la {
                assert(s[i] == a[i]);
            } else if i > la {
                assert(s[i] == b[i - la - 1]);
            }
        }
        if start < s.len() {
            assert(s[start] == b[lb]);
        }
        lemma_run_len_unique(s, whitespace(), start);
        assert(s.skip(start) =~= b.skip(lb));
        assert(fields(a) =~= Seq::<Seq<char>>::empty());
        assert(fields(s) == fields(b));
        assert(fields(a) + fields(b) =~= fields(b));
    } else {
        assert(rest_a[0] == a[la]);
        assert forall|i: int| 0 <= i < la implies whitespace()(#[trigger] s[i]) by {
            assert(s[i] == a[i]);
        }
        assert(s[la] == a[la]);
        lemma_run_len_unique(s, whitespace(), la);
        let rest_s = s.skip(la);
        assert(rest_s =~= rest_a + seq![c] + b);
        let n = run_len(rest_a, non_whitespace()) as int;
        assert(non_whitespace()(rest_a[0]));
        assert forall|i: int| 0 <= i < n implies non_whitespace()(#[trigger] rest_s[i]) by {
            assert(rest_s[i] == rest_a[i]);
        }
        if n < rest_a.len() {
            assert(rest_s[n] == rest_a[n]);
        } else {
            assert(rest_s[n] == c);
        }
        lemma_run_len_unique(rest_s, non_whitespace(), n);
        let tail = rest_a.skip(n);
        assert(rest_s.take(n) =~= rest_a.take(n));
        assert(rest_s.skip(n) =~= tail + seq![c] + b);
        lemma_fields_across_whitespace(tail, c, b);
        let word = rest_a.take(n);
        assert(fields(s) == seq![word] + fields(tail + seq![c] + b));
        assert(fields(a) == seq![word] + fields(tail));
        assert(seq![word] + (fields(tail) + fields(b)) =~= (seq![word] + fields(tail)) + fields(b));
    }
}

/// What trimming keeps is one stretch of the text. It begins and ends with a
/// character that is not whitespace, unless it is empty, and what is cut off on
/// either side is whitespace.
pub proof fn lemma_trimmed(s: Seq<char>)
    ensures
        exists|from: int, to: int|
            {
                &&& 0 <= from <= to <= s.len()
                &&& #[trigger] s.subrange(from, to) == trimmed(s)
                &&& is_blank(s.take(from))
                &&& is_blank(s.skip(to))
                &&& from < to ==> !is_whitespace(s[from]) && !is_whitespace(s[to - 1])
            },
{
    lemma_run_len(s, whitespace());
    let from = run_len(s, whitespace()) as int;
    let rest = s.skip(from);
    let back = rest.reverse();
    lemma_run_len(back, whitespace());
    let cut = run_len(back, whitespace()) as int;
    let to = s.len() - cut;
    assert(rest.take(rest.len() - cut) =~= s.subrange(from, to));
    assert forall|i: int| 0 <= i < s.take(from).len() implies is_whitespace(
        #[trigger] s.take(from)[i],
    ) by {
        assert(whitespace()(s[i]));
    }
    assert forall|i: int| 0 <= i < s.skip(to).len() implies is_whitespace(
        #[trigger] s.skip(to)[i],
    ) by {
        let k = s.len() - 1 - (to + i);
        assert(whitespace()(back[k]));
        assert(back[k] == rest[rest.len() - 1 - k]);
    }
    if from < to {
        assert(!whitespace()(s[from]));
        assert(back[cut] == rest[rest.len() - 1 - cut]);
        assert(!whitespace()(back[cut]));
    }
}

/// A line without the carriage return that may end it.
pub open spec fn without_carriage_return(line: Seq<char>) -> Seq<char> {
    if line.len() > 0 && line.last() == '\r' {
        line.drop_last()
    } else {
        line
    }
}

/// The lines of `s`. A line ends at a line feed, or at a carriage return
/// directly followed by one; the terminator is not part of the line. Text after
/// the last line feed is a line of its own unless it is empty, and keeps a
/// carriage return at its end.
pub open spec fn lines(s: Seq<char>) -> Seq<Seq<char>>
    decreases s.len(),
{
    let n = run_len(s, non_newline());
    if s.len() == 0 {
        Seq::empty()
    } else if n < s.len() {
        seq![without_carriage_return(s.take(n as int))] + lines(s.skip(n as int + 1))
    } else {
        seq![s]
    }
}

/// Whether `needle` stands in `s` at the position `at`.
pub open spec fn occurs_at(s: Seq<char>, needle: Seq<char>, at: int) -> bool {
    0 <= at && at + needle.len() <= s.len() && s.subrange(at, at + needle.len()) == needle
}

/// Whether `needle` stands somewhere in `s`.
pub open spec fn contains_text(s: Seq<char>, needle: Seq<char>) -> bool {
    exists|at: int| occurs_at(s, needle, at)
}

/// What stands in a text still stands there when text is put before and after
/// it.
pub proof fn lemma_occurs_within(
    before: Seq<char>,
    s: Seq<char>,
    after: Seq<char>,
    needle: Seq<char>,
    at: int,
)
    requires
        occurs_at(s, needle, at),
    ensures
        occurs_at(before + s + after, needle, before.len() + at),
        contains_text(before + s + after, needle),
{
    let whole = before + s + after;
    assert(whole.subrange(before.len() + at, before.len() + at + needle.len()) =~= s.subrange(
        at,
        at + needle.len(),
    ));
}

/// A needle that does not hold the character `c` cannot lie across a `c`: if
/// it stands in `left`, `c`, `right` put together, it stands in `left` or in
/// `right`.
pub proof fn lemma_not_across(left: Seq<char>, c: char, right: Seq<char>, needle: Seq<char>)
    requires
        !needle.contains(c),
        contains_text(left + seq![c] + right, needle),
    ensures
        contains_text(left, needle) || contains_text(right, needle),
{
    let whole = left + seq![c] + right;
    let at = choose|at: int| occurs_at(whole, needle, at);
    let mid = left.len() as int;
    if at + needle.len() <= mid {
        assert(left.subrange(at, at + needle.len()) =~= whole.subrange(at, at + needle.len()));
        assert(occurs_at(left, needle, at));
    } else if at > mid {
        assert(right.subrange(at - mid - 1, at - mid - 1 + needle.len()) =~= whole.subrange(
            at,
            at + needle.len(),
        ));
        assert(occurs_at(right, needle, at - mid - 1));
    } else {
        assert(whole.subrange(at, at + needle.len())[mid - at] == whole[mid]);
        assert(needle[mid - at] == c);
        assert(false);
    }
}

/// The characters of `s`, in order.
pub fn chars_of(s: &str) -> (v: Vec<char>)
    ensures
        v@ == s@,
{
    let mut v: Vec<char> = Vec::new();
    for c in it: s.chars()
        invariant
            v@ == it.seq().take(it.index() as int),
    {
        v.push(c);
    }
    v
}

/// Whether `c` is whitespace.
pub fn is_whitespace_char(c: char) -> (r: bool)
    ensures
        r == is_whitespace(c),
{
    c == ' ' || ('\u{9}' <= c && c <= '\u{d}') || c == '\u{85}' || c == '\u{a0}' || c == '\u{1680}'
        || ('\u{2000}' <= c && c <= '\u{200a}') || c == '\u{2028}' || c == '\u{2029}' || c
        == '\u{202f}' || c == '\u{205f}' || c == '\u{3000}'
}

/// Whether two texts hold the same characters.
pub fn same_text(a: &str, b: &str) -> (r: bool)
    ensures
        r == (a@ == b@),
{
    let x = chars_of(a);
    let y = chars_of(b);
    if x.len() != y.len() {
        return false;
    }
    let mut i: usize = 0;
    while i < x.len()
        invariant
            i <= x.len(),
            x.len() == y.len(),
            x@ == a@,
            y@ == b@,
            forall|j: int| 0 <= j < i ==> x@[j] == y@[j],
        decreases x.len() - i,
    {
        if x[i] != y[i] {
            return false;
        }
        i += 1;
    }
    assert(a@ =~= b@);
    true
}

/// Splits `s` into its whitespace-separated fields.
pub fn split_whitespace(s: &str) -> (r: Vec<String>)
    ensures
        r.deep_view() == fields(s@),
{
    let chars = chars_of(s);
    let n = chars.len();
    let mut out: Vec<String> = Vec::new();
    let mut i: usize = 0;
    proof {
        assert(s@.skip(0) =~= s@);
        assert(out.deep_view() + fields(s@) =~= fields(s@));
    }
    loop
        invariant
            i <= n,
            n == chars.len(),
            chars@ == s@,
            out.deep_view() + fields(s@.skip(i as int)) == fields(s@),
        ensures
            out.deep_view() == fields(s@),
        decreases n - i,
    {
        let mut j = i;
        while j < n && is_whitespace_char(chars[j])
            invariant
                i <= j <= n,
                n == chars.len(),
                forall|k: int| i <= k < j ==> is_whitespace(#[trigger] chars@[k]),
            decreases n - j,
        {
            j += 1;
        }
        let mut k = j;
        while k < n && !is_whitespace_char(chars[k])
            invariant
                j <= k <= n,
                n == chars.len(),
                forall|m: int| j <= m < k ==> !is_whitespace(#[trigger] chars@[m]),
            decreases n - k,
        {
            k += 1;
        }
        proof {
            let from = s@.skip(i as int);
            assert forall|m: int| 0 <= m < j - i implies whitespace()(#[trigger] from[m]) by {
                assert(from[m] == chars@[i + m]);
            }
            lemma_run_len_unique(from, whitespace(), j - i);
            let rest = from.skip(j - i);
            assert(rest =~= s@.skip(j as int));
            assert forall|m: int| 0 <= m < k - j implies non_whitespace()(#[trigger] rest[m]) by {
                assert(rest[m] == chars@[j + m]);
            }
            lemma_run_len_unique(rest, non_whitespace(), k - j);
            assert(rest.take(k - j) =~= s@.subrange(j as int, k as int));
            assert(rest.skip(k - j) =~= s@.skip(k as int));
        }
        if k == j {
            assert(fields(s@.skip(i as int)) =~= Seq::<Seq<char>>::empty());
            break;
        }
        let ghost before = out.deep_view();
        let word = s.substring_char(j, k).to_owned();
        out.push(word);
        proof {
            let w = s@.subrange(j as int, k as int);
            assert(out.deep_view() =~= before.push(w));
            assert(fields(s@.skip(i as int)) == seq![w] + fields(s@.skip(k as int)));
            assert(before.push(w) + fields(s@.skip(k as int)) =~= before + (seq![w] + fields(
                s@.skip(k as int),
            )));
        }
        i = k;
    }
    out
}

/// Splits `s` into its lines.
pub fn split_lines(s: &str) -> (r: Vec<String>)
    ensures
        r.deep_view() == lines(s@),
{
    let chars = chars_of(s);
    let n = chars.len();
    let mut out: Vec<String> = Vec::new();
    let mut i: usize = 0;
    proof {
        assert(s@.skip(0) =~= s@);
        assert(out.deep_view() + lines(s@) =~= lines(s@));
    }
    while i < n
        invariant
            i <= n,
            n == chars.len(),
            chars@ == s@,
            out.deep_view() + lines(s@.skip(i as int)) == lines(s@),
        decreases n - i,
    {
        let mut k = i;
        while k < n && chars[k] != '\n'
            invariant
                i <= k <= n,
                n == chars.len(),
                forall|m: int| i <= m < k ==> #[trigger] chars@[m] != '\n',
            decreases n - k,
        {
            k += 1;
        }
        let ghost from = s@.skip(i as int);
        let ghost before = out.deep_view();
        proof {
            assert forall|m: int| 0 <= m < k - i implies non_newline()(#[trigger] from[m]) by {
                assert(from[m] == chars@[i + m]);
            }
            lemma_run_len_unique(from, non_newline(), k - i);
        }
        if k < n {
            let end = if k > i && chars[k - 1] == '\r' {
                k - 1
            } else {
                k
            };
            let line = s.substring_char(i, end).to_owned();
            out.push(line);
            proof {
                let raw = from.take(k - i);
                assert(raw =~= s@.subrange(i as int, k as int));
                let w = without_carriage_return(raw);
                assert(w =~= s@.subrange(i as int, end as int));
                assert(from.skip(k - i + 1) =~= s@.skip(k + 1));
                assert(out.deep_view() =~= before.push(w));
                assert(lines(from) == seq![w] + lines(s@.skip(k + 1)));
                assert(before.push(w) + lines(s@.skip(k + 1)) =~= before + (seq![w] + lines(
                    s@.skip(k + 1),
                )));
            }
            i = k + 1;
        } else {
            let line = s.substring_char(i, n).to_owned();
            out.push(line);
            proof {
                assert(from =~= s@.subrange(i as int, n as int));
                assert(out.deep_view() =~= before.push(from));
                assert(lines(from) == seq![from]);
                assert(lines(s@.skip(n as int)) =~= Seq::<Seq<char>>::empty());
                assert(before.push(from) + Seq::<Seq<char>>::empty() =~= before + seq![from]);
            }
            i = n;
        }
    }
    proof {
        assert(lines(s@.skip(n as int)) =~= Seq::<Seq<char>>::empty());
        assert(out.deep_view() + Seq::<Seq<char>>::empty() =~= out.deep_view());
    }
    out
}

/// Whether every character of `s` is whitespace.
pub fn is_blank_text(s: &str) -> (r: bool)
    ensures
        r == is_blank(s@),
{
    let chars = chars_of(s);
    let mut i: usize = 0;
    while i < chars.len()
        invariant
            i <= chars.len(),
            chars@ == s@,
            forall|j: int| 0 <= j < i ==> is_whitespace(#[trigger] chars@[j]),
        decreases chars.len() - i,
    {
        if !is_whitespace_char(chars[i]) {
            return false;
        }
        i += 1;
    }
    true
}

/// `s` without its leading and trailing whitespace.
pub fn trim(s: &str) -> (r: String)
    ensures
        r@ == trimmed(s@),
{
    let chars = chars_of(s);
    let n = chars.len();
    let mut a: usize = 0;
    while a < n && is_whitespace_char(chars[a])
        invariant
            a <= n,
            n == chars.len(),
            forall|m: int| 0 <= m < a ==> is_whitespace(#[trigger] chars@[m]),
        decreases n - a,
    {
        a += 1;
    }
    let mut b: usize = n;
    while b > a && is_whitespace_char(chars[b - 1])
        invariant
            a <= b <= n,
            n == chars.len(),
            forall|m: int| b <= m < n ==> is_whitespace(#[trigger] chars@[m]),
        decreases b,
    {
        b -= 1;
    }
    proof {
        assert forall|m: int| 0 <= m < a implies whitespace()(#[trigger] s@[m]) by {}
        lemma_run_len_unique(s@, whitespace(), a as int);
        let rest = s@.skip(a as int);
        let back = rest.reverse();
        assert forall|m: int| 0 <= m < n - b implies whitespace()(#[trigger] back[m]) by {
            assert(back[m] == chars@[n - 1 - m]);
        }
        if n - b < back.len() {
            assert(back[n - b] == chars@[b - 1]);
        }
        lemma_run_len_unique(back, whitespace(), n - b);
        assert(rest.take(rest.len() - (n - b)) =~= s@.subrange(a as int, b as int));
    }
    s.substring_char(a, b).to_owned()
}

} // verus!
