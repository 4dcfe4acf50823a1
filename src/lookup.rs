//! Finding threads of the current process by their description: reading a
//! thread id out of a thread record's handle text, and comparing names.
use vstd::prelude::*;

verus! {

/// A thread found by its description.
#[derive(Clone, Debug, PartialEq, Eq)]
pub struct Thread {
    pub thread_id: u32,
    pub thread_name: String,
}

/// `s` without its leading double quotes.
pub open spec fn trim_start_quotes(s: Seq<char>) -> Seq<char>
    decreases s.len(),
{
    if s.len() > 0 && s[0] == '"' {
        trim_start_quotes(s.drop_first())
    } else {
        s
    }
}

/// `s` without its trailing double quotes.
pub open spec fn trim_end_quotes(s: Seq<char>) -> Seq<char>
    decreases s.len(),
{
    if s.len() > 0 && s.last() == '"' {
        trim_end_quotes(s.drop_last())
    } else {
        s
    }
}

/// `s` without leading and trailing double quotes.
pub open spec fn trim_quotes(s: Seq<char>) -> Seq<char> {
    trim_end_quotes(trim_start_quotes(s))
}

pub open spec fn is_digit(c: char) -> bool {
    '0' <= c && c <= '9'
}

/// The number that a string of decimal digits stands for.
pub open spec fn digits_value(s: Seq<char>) -> int
    decreases s.len(),
{
    if s.len() == 0 {
        0
    } else {
        digits_value(s.drop_last()) * 10 + (s.last() as int - '0' as int)
    }
}

/// The unsigned 32-bit number that `s` spells: an optional `+`, then one
/// or more decimal digits, with a value that fits.
pub open spec fn spec_parse_u32(s: Seq<char>) -> Option<u32> {
    let d = unsigned_digits(s);
    if d.len() > 0 && (forall|i: int| 0 <= i < d.len() ==> is_digit(d[i])) && digits_value(d)
        <= u32::MAX {
        Some(digits_value(d) as u32)
    } else {
        None
    }
}

/// Whether `needle` occurs in `hay` as a contiguous run.
pub open spec fn is_infix(needle: Seq<char>, hay: Seq<char>) -> bool {
    exists|i: int|
        0 <= i && i + needle.len() <= hay.len() && #[trigger] hay.subrange(i, i + needle.len())
            == needle
}

/// Whether a thread named `name` is the one asked for by `query`: the same
/// name when `full_match`, else a name that contains the query.
pub open spec fn spec_name_matches(name: Seq<char>, query: Seq<char>, full_match: bool) -> bool {
    if full_match {
        name == query
    } else {
        is_infix(query, name)
    }
}

/// The digits that `spec_parse_u32` reads from `s`.
pub open spec fn unsigned_digits(s: Seq<char>) -> Seq<char> {
    if s.len() > 0 && s[0] == '+' {
        s.drop_first()
    } else {
        s
    }
}

proof fn lemma_trim_start_skip(s: Seq<char>, k: int)
    requires
        0 <= k <= s.len(),
        forall|j: int| 0 <= j < k ==> s[j] == '"',
    ensures
        trim_start_quotes(s) == trim_start_quotes(s.subrange(k, s.len() as int)),
    decreases k,
{
    if k > 0 {
        let rest = s.drop_first();
        assert(rest.subrange(k - 1, rest.len() as int) =~= s.subrange(k, s.len() as int));
        lemma_trim_start_skip(s.drop_first(), k - 1);
    } else {
        assert(s.subrange(0, s.len() as int) =~= s);
    }
}

proof fn lemma_trim_end_skip(s: Seq<char>, k: int)
    requires
        0 <= k <= s.len(),
        forall|j: int| k <= j < s.len() ==> s[j] == '"',
    ensures
        trim_end_quotes(s) == trim_end_quotes(s.subrange(0, k)),
    decreases s.len() - k,
{
    if k < s.len() {
        assert(s.drop_last().subrange(0, k) =~= s.subrange(0, k));
        lemma_trim_end_skip(s.drop_last(), k);
    } else {
        assert(s.subrange(0, s.len() as int) =~= s);
    }
}

proof fn lemma_digits_prefix(d: Seq<char>, k: int)
    requires
        0 <= k <= d.len(),
        forall|i: int| 0 <= i < d.len() ==> is_digit(d[i]),
    ensures
        digits_value(d.subrange(0, k)) <= digits_value(d),
    decreases d.len() - k,
{
    if k < d.len() {
        let p = d.subrange(0, k + 1);
        assert(p.drop_last() =~= d.subrange(0, k));
        assert(is_digit(p.last()));
        assert(digits_value(d.subrange(0, k)) >= 0) by {
            lemma_digits_nonneg(d.subrange(0, k));
        }
        lemma_digits_prefix(d, k + 1);
    } else {
        assert(d.subrange(0, k) =~= d);
    }
}

proof fn lemma_digits_nonneg(d: Seq<char>)
    requires
        forall|i: int| 0 <= i < d.len() ==> is_digit(d[i]),
    ensures
        digits_value(d) >= 0,
    decreases d.len(),
{
    if d.len() > 0 {
        lemma_digits_nonneg(d.drop_last());
    }
}

/// The thread id in the handle text of a thread record: the text without
/// surrounding double quotes, read as an unsigned decimal number.
pub fn parse_thread_handle(handle: &str) -> (r: Option<u32>)
    ensures
        r == spec_parse_u32(trim_quotes(handle@)),
{
    let ghost s = handle@;
    let len = handle.unicode_len();
    let mut start: usize = 0;
    while start < len && handle.get_char(start) == '"'
        invariant
            s == handle@,
            len == s.len(),
            start <= len,
            forall|j: int| 0 <= j < start ==> s[j] == '"',
        decreases len - start,
    {
        start = start + 1;
    }
    proof {
        lemma_trim_start_skip(s, start as int);
    }
    let ghost t = s.subrange(start as int, len as int);
    assert(trim_start_quotes(t) == t);
    let mut end: usize = len;
    while end > start && handle.get_char(end - 1) == '"'
        invariant
            s == handle@,
            len == s.len(),
            start <= end <= len,
            t == s.subrange(start as int, len as int),
            forall|j: int| end <= j < len ==> s[j] == '"',
        decreases end - start,
    {
        end = end - 1;
    }
    proof {
        lemma_trim_end_skip(t, end - start);
    }
    let ghost body = s.subrange(start as int, end as int);
    assert(t.subrange(0, end - start) =~= body);
    assert(trim_end_quotes(body) == body);
    assert(trim_quotes(s) == body);
    if start < end && handle.get_char(start) == '+' {
        start = start + 1;
    }
    let ghost d = s.subrange(start as int, end as int);
    assert(d =~= unsigned_digits(body));
    if start == end {
        return None;
    }
    let mut value: u64 = 0;
    let mut i: usize = start;
    while i < end
        invariant
            s == handle@,
            len == s.len(),
            start < end <= len,
            start <= i <= end,
            d == s.subrange(start as int, end as int),
            trim_quotes(handle@) == body,
            d == unsigned_digits(body),
            forall|j: int| 0 <= j < i - start ==> is_digit(d[j]),
            value == digits_value(d.subrange(0, i - start)),
            value <= u32::MAX,
        decreases end - i,
    {
        let c = handle.get_char(i);
        if !('0' <= c && c <= '9') {
            assert(!is_digit(d[i - start]));
            return None;
        }
        let digit = (c as u32 - '0' as u32) as u64;
        let next = value * 10 + digit;
        let ghost p = d.subrange(0, i - start + 1);
        assert(p.drop_last() =~= d.subrange(0, i - start));
        assert(p.last() == c);
        if next > u32::MAX as u64 {
            proof {
                assert(digits_value(p) == next);
                if forall|j: int| 0 <= j < d.len() ==> is_digit(d[j]) {
                    lemma_digits_prefix(d, i - start + 1);
                }
            }
            return None;
        }
        value = next;
        i = i + 1;
    }
    assert(d.subrange(0, i - start) =~= d);
    Some(value as u32)
}

/// Whether two strings hold the same characters.
fn same_chars(a: &str, b: &str) -> (r: bool)
    ensures
        r == (a@ == b@),
{
    let n = a.unicode_len();
    if n != b.unicode_len() {
        return false;
    }
    let mut i: usize = 0;
    while i < n
        invariant
            n == a@.len() == b@.len(),
            i <= n,
            forall|j: int| 0 <= j < i ==> a@[j] == b@[j],
        decreases n - i,
    {
        if a.get_char(i) != b.get_char(i) {
            return false;
        }
        i = i + 1;
    }
    assert(a@ =~= b@);
    true
}

/// Whether `needle` occurs in `hay`.
fn contains_chars(hay: &str, needle: &str) -> (r: bool)
    ensures
        r == is_infix(needle@, hay@),
{
    let n = hay.unicode_len();
    let m = needle.unicode_len();
    if m > n {
        assert(!is_infix(needle@, hay@));
        return false;
    }
    let mut i: usize = 0;
    while i <= n - m
        invariant
            n == hay@.len(),
            m == needle@.len(),
            m <= n,
            i <= n - m + 1,
            forall|k: int| 0 <= k < i ==> #[trigger] hay@.subrange(k, k + m) != needle@,
        decreases n - m + 1 - i,
    {
        let mut j: usize = 0;
        while j < m && hay.get_char(i + j) == needle.get_char(j)
            invariant
                n == hay@.len(),
                m == needle@.len(),
                i + m <= n,
                j <= m,
                forall|l: int| 0 <= l < j ==> hay@[i + l] == needle@[l],
            decreases m - j,
        {
            j = j + 1;
        }
        if j == m {
            assert(hay@.subrange(i as int, i + m) =~= needle@);
            return true;
        }
        assert(hay@.subrange(i as int, i + m)[j as int] != needle@[j as int]);
        i = i + 1;
    }
    assert forall|k: int| 0 <= k && k + m <= n implies #[trigger] hay@.subrange(k, k + m)
        != needle@ by {
        assert(k < i);
    }
    false
}

/// Whether a thread named `name` is the one asked for: the same name when
/// `full_match`, else a name that contains `query`.
pub fn name_matches(name: &str, query: &str, full_match: bool) -> (r: bool)
    ensures
        r == spec_name_matches(name@, query@, full_match),
{
    if full_match {
        same_chars(name, query)
    } else {
        contains_chars(name, query)
    }
}

/// The thread found when the thread `thread_id` has description `name` and
/// the lookup asks for `query`.
pub fn pick_thread(thread_id: u32, name: String, query: &str, full_match: bool) -> (r: Option<
    Thread,
>)
    ensures
        r is Some <==> spec_name_matches(name@, query@, full_match),
        r is Some ==> r->Some_0.thread_id == thread_id && r->Some_0.thread_name@ == name@,
{
    if name_matches(name.as_str(), query, full_match) {
        Some(Thread { thread_id, thread_name: name })
    } else {
        None
    }
}

} // verus!
