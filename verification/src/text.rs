//! Character-level text utilities: whitespace trimming and the
//! fully-qualified role prefix test, each against an exact specification.
use vstd::prelude::*;
use vstd::string::StrSliceExecFns;

verus! {

/// The Unicode `White_Space` code points, the set that `char::is_whitespace`
/// recognises.
pub open spec fn is_ws_char(c: char) -> bool {
    c == '\u{0009}' || c == '\u{000A}' || c == '\u{000B}' || c == '\u{000C}'
        || c == '\u{000D}' || c == ' ' || c == '\u{0085}' || c == '\u{00A0}'
        || c == '\u{1680}' || c == '\u{2000}' || c == '\u{2001}' || c == '\u{2002}'
        || c == '\u{2003}' || c == '\u{2004}' || c == '\u{2005}' || c == '\u{2006}'
        || c == '\u{2007}' || c == '\u{2008}' || c == '\u{2009}' || c == '\u{200A}'
        || c == '\u{2028}' || c == '\u{2029}' || c == '\u{202F}' || c == '\u{205F}'
        || c == '\u{3000}'
}

/// `s` with its leading whitespace removed.
pub open spec fn trim_front(s: Seq<char>) -> Seq<char>
    decreases s.len(),
{
    if s.len() > 0 && is_ws_char(s[0]) {
        trim_front(s.drop_first())
    } else {
        s
    }
}

/// `s` with its trailing whitespace removed.
pub open spec fn trim_back(s: Seq<char>) -> Seq<char>
    decreases s.len(),
{
    if s.len() > 0 && is_ws_char(s.last()) {
        trim_back(s.drop_last())
    } else {
        s
    }
}

/// `s` with leading and trailing whitespace removed.
pub open spec fn trim_spec(s: Seq<char>) -> Seq<char> {
    trim_back(trim_front(s))
}

fn is_ws(c: char) -> (b: bool)
    ensures
        b == is_ws_char(c),
{
    c == '\u{0009}' || c == '\u{000A}' || c == '\u{000B}' || c == '\u{000C}'
        || c == '\u{000D}' || c == ' ' || c == '\u{0085}' || c == '\u{00A0}'
        || c == '\u{1680}' || c == '\u{2000}' || c == '\u{2001}' || c == '\u{2002}'
        || c == '\u{2003}' || c == '\u{2004}' || c == '\u{2005}' || c == '\u{2006}'
        || c == '\u{2007}' || c == '\u{2008}' || c == '\u{2009}' || c == '\u{200A}'
        || c == '\u{2028}' || c == '\u{2029}' || c == '\u{202F}' || c == '\u{205F}'
        || c == '\u{3000}'
}

proof fn lemma_trim_front_skip(s: Seq<char>, k: int)
    requires
        0 <= k <= s.len(),
        forall|j: int| 0 <= j < k ==> is_ws_char(s[j]),
    ensures
        trim_front(s) == trim_front(s.subrange(k, s.len() as int)),
    decreases k,
{
    if k > 0 {
        assert(s.drop_first() =~= s.subrange(1, s.len() as int));
        lemma_trim_front_skip(s.drop_first(), k - 1);
        assert(s.drop_first().subrange(k - 1, s.drop_first().len() as int) =~= s.subrange(
            k,
            s.len() as int,
        ));
    } else {
        assert(s.subrange(0, s.len() as int) =~= s);
    }
}

proof fn lemma_trim_back_skip(s: Seq<char>, m: int)
    requires
        0 <= m <= s.len(),
        forall|j: int| s.len() - m <= j < s.len() ==> is_ws_char(s[j]),
    ensures
        trim_back(s) == trim_back(s.subrange(0, s.len() - m)),
    decreases m,
{
    if m > 0 {
        assert(is_ws_char(s.last()));
        assert(s.drop_last() =~= s.subrange(0, s.len() - 1));
        lemma_trim_back_skip(s.drop_last(), m - 1);
        assert(s.drop_last().subrange(0, s.drop_last().len() - (m - 1)) =~= s.subrange(
            0,
            s.len() - m,
        ));
    } else {
        assert(s.subrange(0, s.len() as int) =~= s);
    }
}

/// Removes leading and trailing whitespace from `s`.
pub fn trim(s: &str) -> (r: String)
    ensures
        r@ == trim_spec(s@),
{
    let n = s.unicode_len();
    let mut start: usize = 0;
    while start < n && is_ws(s.get_char(start))
        invariant
            n == s@.len(),
            start <= n,
            forall|j: int| 0 <= j < start ==> is_ws_char(s@[j]),
        decreases n - start,
    {
        start += 1;
    }
    proof {
        lemma_trim_front_skip(s@, start as int);
        if start < n {
            assert(!is_ws_char(s@.subrange(start as int, n as int)[0]));
        }
        assert(trim_front(s@) == s@.subrange(start as int, n as int));
    }
    let mut end: usize = n;
    while end > start && is_ws(s.get_char(end - 1))
        invariant
            n == s@.len(),
            start <= end <= n,
            forall|j: int| end <= j < n ==> is_ws_char(s@[j]),
        decreases end,
    {
        end -= 1;
    }
    proof {
        let t = s@.subrange(start as int, n as int);
        assert(forall|j: int| t.len() - (n - end) <= j < t.len() ==> is_ws_char(t[j]));
        lemma_trim_back_skip(t, n - end);
        assert(t.subrange(0, t.len() - (n - end)) =~= s@.subrange(start as int, end as int));
        if end > start {
            assert(!is_ws_char(s@.subrange(start as int, end as int).last()));
        }
        assert(trim_spec(s@) == s@.subrange(start as int, end as int));
    }
    s.substring_char(start, end).to_owned()
}

/// The prefix that marks a fully-qualified role identifier.
pub open spec fn arn_prefix() -> Seq<char> {
    seq!['a', 'r', 'n', ':', 'a', 'w', 's', ':']
}

/// Whether `s` begins with the fully-qualified role identifier prefix.
pub open spec fn starts_with_arn(s: Seq<char>) -> bool {
    s.len() >= 8 && s.subrange(0, 8) == arn_prefix()
}

/// Tests whether `s` begins with the fully-qualified role identifier prefix.
pub fn has_arn_prefix(s: &str) -> (b: bool)
    ensures
        b == starts_with_arn(s@),
{
    let n = s.unicode_len();
    if n < 8 {
        return false;
    }
    let b = s.get_char(0) == 'a' && s.get_char(1) == 'r' && s.get_char(2) == 'n' && s.get_char(3)
        == ':' && s.get_char(4) == 'a' && s.get_char(5) == 'w' && s.get_char(6) == 's'
        && s.get_char(7) == ':';
    proof {
        if b {
            assert(s@.subrange(0, 8) =~= arn_prefix());
        } else {
            if s@.subrange(0, 8) == arn_prefix() {
                assert(forall|j: int| 0 <= j < 8 ==> s@.subrange(0, 8)[j] == arn_prefix()[j]);
                assert(false);
            }
        }
    }
    b
}

} // verus!
