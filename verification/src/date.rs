use vstd::prelude::*;

verus! {

use vstd::string::StrSliceExecFns;

/// Index of the first 'T' in `s`, or `s.len()` when `s` has none.
pub open spec fn spec_t_index(s: Seq<char>) -> int
    decreases s.len(),
{
    if s.len() == 0 {
        0
    } else if s[0] == 'T' {
        0
    } else {
        1 + spec_t_index(s.drop_first())
    }
}

/// The characters of `s` strictly before its first 'T'; empty when `s`
/// has no 'T' at all.
pub open spec fn spec_date_prefix(s: Seq<char>) -> Seq<char> {
    if spec_t_index(s) < s.len() {
        s.subrange(0, spec_t_index(s))
    } else {
        Seq::empty()
    }
}

/// `spec_t_index` is in range, everything before it differs from 'T',
/// and it lands on a 'T' whenever one exists.
pub proof fn lemma_t_index(s: Seq<char>)
    ensures
        0 <= spec_t_index(s) <= s.len(),
        forall|j: int| 0 <= j < spec_t_index(s) ==> s[j] != 'T',
        spec_t_index(s) < s.len() ==> s[spec_t_index(s)] == 'T',
    decreases s.len(),
{
    if s.len() == 0 {
    } else if s[0] == 'T' {
    } else {
        lemma_t_index(s.drop_first());
        assert forall|j: int| 0 <= j < spec_t_index(s) implies s[j] != 'T' by {
            if j > 0 {
                assert(s.drop_first()[j - 1] == s[j]);
            }
        }
        if spec_t_index(s) < s.len() {
            assert(s.drop_first()[spec_t_index(s) - 1] == s[spec_t_index(s)]);
        }
    }
}

/// A position with only non-'T' characters before it, holding a 'T'
/// itself unless it is the length, is the first-'T' index.
pub proof fn lemma_t_index_at(s: Seq<char>, k: int)
    requires
        0 <= k <= s.len(),
        forall|j: int| 0 <= j < k ==> s[j] != 'T',
        k < s.len() ==> s[k] == 'T',
    ensures
        spec_t_index(s) == k,
    decreases s.len(),
{
    if s.len() == 0 {
    } else if s[0] == 'T' {
    } else {
        assert(s[0] != 'T');
        assert forall|j: int| 0 <= j < k - 1 implies s.drop_first()[j] != 'T' by {
            assert(s.drop_first()[j] == s[j + 1]);
        }
        if k < s.len() && 0 < k {
            assert(s.drop_first()[k - 1] == s[k]);
        }
        lemma_t_index_at(s.drop_first(), k - 1);
    }
}

/// Truncates `s` at its first 'T': the characters before that 'T', or
/// the empty string when no 'T' occurs.
pub fn date_prefix(s: &str) -> (r: String)
    ensures
        r@ == spec_date_prefix(s@),
{
    let n = s.unicode_len();
    let mut i: usize = 0;
    while i < n
        invariant
            i <= n,
            n == s@.len(),
            forall|j: int| 0 <= j < i ==> s@[j] != 'T',
        decreases n - i,
    {
        if s.get_char(i) == 'T' {
            proof {
                lemma_t_index_at(s@, i as int);
            }
            let pre = s.substring_char(0, i);
            return pre.to_owned();
        }
        i += 1;
    }
    proof {
        lemma_t_index_at(s@, n as int);
    }
    String::new()
}

/// Relies on `SystemTime::now` and chrono's `DateTime::<Utc>::to_rfc3339`:
/// for any year from 0 through 9999 the rendering opens with exactly
/// `YYYY-MM-DD`, the 'T' separator at index 10, then the time. Assumes
/// the system clock lies in that range of years (a clock outside
/// chrono's wider representable range would panic in the conversion;
/// one past year 9999 would render a longer, signed year).
#[verifier::external_body]
fn now_rfc3339() -> (r: String)
    ensures
        r@.len() >= 11,
        is_ymd(r@.subrange(0, 10)),
        r@[10] == 'T',
{
    let now: chrono::DateTime<chrono::Utc> = std::time::SystemTime::now().into();
    now.to_rfc3339()
}

/// Today's date: the current instant's RFC 3339 rendering truncated at
/// the first 'T'. The result is exactly ten characters in `YYYY-MM-DD`
/// shape and never holds a 'T'.
pub fn today() -> (r: String)
    ensures
        is_ymd(r@),
        r@.len() == 10,
        !r@.contains('T'),
{
    let now = now_rfc3339();
    let d = date_prefix(now.as_str());
    proof {
        lemma_date_prefix_of_instant(now@);
    }
    d
}

/// Truncation never leaves a 'T' behind, whatever the input.
pub proof fn lemma_date_prefix_no_t(s: Seq<char>)
    ensures
        !spec_date_prefix(s).contains('T'),
{
    lemma_t_index(s);
    if spec_t_index(s) < s.len() {
        assert forall|j: int| 0 <= j < spec_date_prefix(s).len() implies spec_date_prefix(s)[j]
            != 'T' by {
            assert(spec_date_prefix(s)[j] == s[j]);
        }
    }
}

/// Ten characters in `YYYY-MM-DD` shape: digits everywhere but the two
/// hyphens.
pub open spec fn is_ymd(s: Seq<char>) -> bool {
    &&& s.len() == 10
    &&& s[4] == '-'
    &&& s[7] == '-'
    &&& forall|i: int|
        0 <= i < 10 && i != 4 && i != 7 ==> '0' <= #[trigger] s[i] && s[i] <= '9'
}

/// A well-formed instant rendering opens with a full `YYYY-MM-DD` date
/// and its 'T' separator; truncation then returns exactly that
/// ten-character date, with no 'T' in it.
pub proof fn lemma_date_prefix_of_instant(s: Seq<char>)
    requires
        s.len() >= 11,
        is_ymd(s.subrange(0, 10)),
        s[10] == 'T',
    ensures
        spec_date_prefix(s) == s.subrange(0, 10),
        is_ymd(spec_date_prefix(s)),
        spec_date_prefix(s).len() == 10,
        !spec_date_prefix(s).contains('T'),
{
    assert forall|j: int| 0 <= j < 10 implies s[j] != 'T' by {
        assert(s.subrange(0, 10)[j] == s[j]);
    }
    lemma_t_index_at(s, 10);
    assert(spec_date_prefix(s) == s.subrange(0, 10));
    lemma_date_prefix_no_t(s);
}

} // verus!
