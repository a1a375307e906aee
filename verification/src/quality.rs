//! Quality model: parsing of `"<min>-<max>"` quality-range strings, the named
//! compression tiers, and the scalar quality derived for single-knob codecs.
//!
//! Parsing is deliberately lenient: each field of the range falls back to its
//! default (50 for the minimum, 80 for the maximum) when it does not parse as
//! a `u8`, and an unrecognized tier name means the middle tier.

use vstd::prelude::*;
use vstd::seq_lib::*;
use vstd::string::*;

use crate::text::{char_eq_ci, chars_of, eq_ignore_ascii_case, str_eq_ci};

verus! {

// ---------------------------------------------------------------------------
// Spec model: decimal u8 tokens
// ---------------------------------------------------------------------------

/// An ASCII decimal digit.
pub open spec fn is_digit_char(c: char) -> bool {
    '0' as u32 <= c as u32 && c as u32 <= '9' as u32
}

/// Numeric value of a digit character.
pub open spec fn digit_val(c: char) -> int {
    c as u32 - '0' as u32
}

/// Value of a digit string read in base 10 (most significant digit first).
pub open spec fn dec_val(s: Seq<char>) -> int
    decreases s.len(),
{
    if s.len() == 0 {
        0
    } else {
        10 * dec_val(s.drop_last()) + digit_val(s.last())
    }
}

pub open spec fn all_digits(s: Seq<char>) -> bool {
    forall|i: int| 0 <= i < s.len() ==> is_digit_char(#[trigger] s[i])
}

/// A quality field may carry one leading `+` sign, as `str::parse::<u8>`
/// accepts.
pub open spec fn strip_plus(s: Seq<char>) -> Seq<char> {
    if s.len() > 0 && s[0] == '+' {
        s.drop_first()
    } else {
        s
    }
}

pub open spec fn token_parses(s: Seq<char>) -> bool {
    let d = strip_plus(s);
    d.len() > 0 && all_digits(d) && dec_val(d) <= 100
}

pub open spec fn token_value(s: Seq<char>) -> int {
    dec_val(strip_plus(s))
}

/// A quality field: the decimal value when the token is an optionally
/// `+`-signed digit string within the documented 0 to 100 bounds.  A value
/// above 100 counts as malformed, so it takes the per-field fallback.
pub open spec fn spec_parse_quality_field(s: Seq<char>) -> Option<u8> {
    if token_parses(s) {
        Some(token_value(s) as u8)
    } else {
        None
    }
}

// ---------------------------------------------------------------------------
// Spec model: splitting on '-'
// ---------------------------------------------------------------------------

/// The piece before the first `-`, or the whole string when there is none.
pub open spec fn spec_first_token(s: Seq<char>) -> Seq<char> {
    match s.index_of_first('-') {
        Some(i) => s.take(i),
        None => s,
    }
}

/// The piece between the first `-` and the second one (or the end);
/// `None` when the string holds no `-` at all.
pub open spec fn spec_second_token(s: Seq<char>) -> Option<Seq<char>> {
    match s.index_of_first('-') {
        Some(i) => {
            let rest = s.skip(i + 1);
            match rest.index_of_first('-') {
                Some(j) => Some(rest.take(j)),
                None => Some(rest),
            }
        },
        None => None,
    }
}

/// The lenient range parse: each side falls back independently, and a pair
/// that ends up violating the minimum-at-most-maximum invariant is malformed
/// as a whole, so it falls back to the default range.
pub open spec fn spec_parse_quality_range(s: Seq<char>) -> (u8, u8) {
    let min = match spec_parse_quality_field(spec_first_token(s)) {
        Some(v) => v,
        None => 50u8,
    };
    let max = match spec_second_token(s) {
        Some(t) => match spec_parse_quality_field(t) {
            Some(v) => v,
            None => 80u8,
        },
        None => 80u8,
    };
    if min <= max {
        (min, max)
    } else {
        (50u8, 80u8)
    }
}

// ---------------------------------------------------------------------------
// Spec model: derived quality values
// ---------------------------------------------------------------------------

/// Scalar quality for single-knob codecs: the truncating midpoint.
pub open spec fn spec_quality_scalar(min: u8, max: u8) -> u8 {
    (((min + max) / 2) as u8)
}

// ---------------------------------------------------------------------------
// Spec model: ASCII case-insensitive comparison
// ---------------------------------------------------------------------------

/// The canonical range for each named tier; unknown names mean the middle tier.
pub open spec fn spec_compression_level_to_range(level: Seq<char>) -> Seq<char> {
    if str_eq_ci(level, "low"@) {
        "70-90"@
    } else if str_eq_ci(level, "mid"@) {
        "50-80"@
    } else if str_eq_ci(level, "max"@) {
        "20-60"@
    } else {
        "50-80"@
    }
}

// ---------------------------------------------------------------------------
// Helper lemmas
// ---------------------------------------------------------------------------

pub(crate) proof fn lemma_dec_val_nonneg(s: Seq<char>)
    requires
        all_digits(s),
    ensures
        dec_val(s) >= 0,
    decreases s.len(),
{
    if s.len() > 0 {
        assert(all_digits(s.drop_last()));
        lemma_dec_val_nonneg(s.drop_last());
    }
}

/// A first occurrence found by scanning is what `index_of_first` returns.
proof fn lemma_index_of_first_is(s: Seq<char>, c: char, i: int)
    requires
        0 <= i < s.len(),
        s[i] == c,
        forall|j: int| 0 <= j < i ==> s[j] != c,
    ensures
        s.index_of_first(c) == Some(i),
{
    s.index_of_first_ensures(c);
    assert(s.contains(c));
    match s.index_of_first(c) {
        Some(k) => {
            assert(s[k] == c);
            assert(forall|j: int| 0 <= j < k ==> s[j] != c);
            if k < i {
                assert(s[k] != c);
            }
            if i < k {
                assert(s[i] != c);
            }
        },
        None => {
            assert(false);
        },
    }
}

proof fn lemma_index_of_first_none(s: Seq<char>, c: char)
    requires
        forall|j: int| 0 <= j < s.len() ==> s[j] != c,
    ensures
        s.index_of_first(c) is None,
{
    s.index_of_first_ensures(c);
    match s.index_of_first(c) {
        Some(k) => {
            assert(s[k] == c);
        },
        None => {},
    }
}

// ---------------------------------------------------------------------------
// Executable code
// ---------------------------------------------------------------------------

/// Find the first `-` at or after `from`.
fn find_dash(cs: &Vec<char>, from: usize) -> (r: Option<usize>)
    requires
        from <= cs@.len(),
    ensures
        match r {
            Some(i) => from <= i < cs@.len() && cs@[i as int] == '-' && (forall|j: int|
                from <= j < i ==> cs@[j] != '-'),
            None => forall|j: int| from <= j < cs@.len() ==> cs@[j] != '-',
        },
{
    let mut i = from;
    let n = cs.len();
    while i < n
        invariant
            from <= i <= n,
            n == cs@.len(),
            forall|j: int| from <= j < i ==> cs@[j] != '-',
        decreases n - i,
    {
        if cs[i] == '-' {
            return Some(i);
        }
        i = i + 1;
    }
    None
}

/// Parse `cs[start..end)` as one quality field: `str::parse::<u8>` with the
/// value bounded by 100.
fn parse_field_token(cs: &Vec<char>, start: usize, end: usize) -> (r: Option<u8>)
    requires
        start <= end <= cs@.len(),
    ensures
        r == spec_parse_quality_field(cs@.subrange(start as int, end as int)),
{
    let ghost tok = cs@.subrange(start as int, end as int);
    let mut i = start;
    if i < end && cs[i] == '+' {
        i = i + 1;
    }
    let ghost d = strip_plus(tok);
    proof {
        assert(d =~= cs@.subrange(i as int, end as int));
    }
    if i == end {
        return None;
    }
    let mut acc: u32 = 0;
    let mut over = false;
    let mut k = i;
    while k < end
        invariant
            i <= k <= end <= cs@.len(),
            i < end,
            start <= i,
            tok == cs@.subrange(start as int, end as int),
            d == strip_plus(tok),
            d =~= cs@.subrange(i as int, end as int),
            all_digits(cs@.subrange(i as int, k as int)),
            !over ==> acc == dec_val(cs@.subrange(i as int, k as int)) && acc <= 100,
            over ==> dec_val(cs@.subrange(i as int, k as int)) > 100,
        decreases end - k,
    {
        let c = cs[k];
        if (c as u32) < ('0' as u32) || (c as u32) > ('9' as u32) {
            proof {
                assert(d[k - i] == cs@[k as int]);
                assert(!all_digits(d));
            }
            return None;
        }
        let dv: u32 = c as u32 - '0' as u32;
        let ghost pre = cs@.subrange(i as int, k as int);
        let ghost post = cs@.subrange(i as int, k as int + 1);
        proof {
            assert(post.drop_last() =~= pre);
            assert(post.last() == cs@[k as int]);
            assert(dec_val(post) == 10 * dec_val(pre) + digit_val(cs@[k as int]));
            assert(all_digits(post));
        }
        if !over {
            let next: u32 = acc * 10 + dv;
            if next > 100 {
                over = true;
            } else {
                acc = next;
            }
        } else {
            proof {
                lemma_dec_val_nonneg(pre);
            }
        }
        k = k + 1;
    }
    proof {
        assert(cs@.subrange(i as int, end as int) =~= d);
    }
    if over {
        None
    } else {
        proof {
            assert(token_parses(tok));
        }
        Some(acc as u8)
    }
}

/// Parse a `"<min>-<max>"` quality-range string.
///
/// Each side falls back independently: a side that does not parse as an
/// integer in 0 to 100 becomes its default (50 for the minimum, 80 for a
/// missing or unparsable maximum), and a pair left with minimum above
/// maximum falls back to the default range whole.  Malformed input is never
/// an error, and the result always satisfies the range invariant.
pub fn parse_quality_range(s: &str) -> (r: (u8, u8))
    ensures
        r == spec_parse_quality_range(s@),
        r.0 <= r.1 <= 100,
{
    let cs = chars_of(s);
    let n = cs.len();
    let (min, max): (u8, u8) = match find_dash(&cs, 0) {
        None => {
            proof {
                lemma_index_of_first_none(s@, '-');
                assert(cs@.subrange(0, n as int) =~= s@);
            }
            let min = match parse_field_token(&cs, 0, n) {
                Some(v) => v,
                None => 50,
            };
            (min, 80)
        },
        Some(i) => {
            proof {
                lemma_index_of_first_is(s@, '-', i as int);
                assert(cs@.subrange(0, i as int) =~= spec_first_token(s@));
            }
            let min = match parse_field_token(&cs, 0, i) {
                Some(v) => v,
                None => 50,
            };
            let ghost rest = s@.skip(i + 1);
            let end2 = match find_dash(&cs, i + 1) {
                Some(j) => {
                    proof {
                        assert(forall|t: int| 0 <= t < j - i - 1 ==> rest[t] == s@[t + i + 1]);
                        assert(rest[j - i - 1] == '-');
                        lemma_index_of_first_is(rest, '-', j - (i + 1));
                        assert(cs@.subrange(i as int + 1, j as int) =~= rest.take(j - (i + 1)));
                    }
                    j
                },
                None => {
                    proof {
                        assert(forall|t: int| 0 <= t < rest.len() ==> rest[t] == s@[t + i + 1]);
                        lemma_index_of_first_none(rest, '-');
                        assert(cs@.subrange(i as int + 1, n as int) =~= rest);
                    }
                    n
                },
            };
            let max = match parse_field_token(&cs, i + 1, end2) {
                Some(v) => v,
                None => 80,
            };
            (min, max)
        },
    };
    proof {
        lemma_parse_quality_range_invariant(s@);
    }
    if min <= max {
        (min, max)
    } else {
        (50, 80)
    }
}

/// The truncating midpoint of a quality range, the single quality value
/// handed to the scalar-quality codecs.
pub fn quality_scalar(min: u8, max: u8) -> (r: u8)
    ensures
        r == spec_quality_scalar(min, max),
{
    (((min as u16) + (max as u16)) / 2) as u8
}

/// Within the documented quality bounds the derived scalar stays within
/// them: a range inside 0 to 100 yields a scalar inside 0 to 100.
pub proof fn lemma_quality_scalar_in_range(min: u8, max: u8)
    requires
        min <= 100,
        max <= 100,
    ensures
        spec_quality_scalar(min, max) <= 100,
{
}

/// Map a named compression tier to its canonical quality range:
/// `low` is `70-90`, `mid` is `50-80`, `max` is `20-60`.  The comparison is
/// ASCII case-insensitive and an unknown name means `mid`.
pub fn compression_level_to_range(level: &str) -> (r: String)
    ensures
        r@ == spec_compression_level_to_range(level@),
{
    if eq_ignore_ascii_case(level, "low") {
        String::from_str("70-90")
    } else if eq_ignore_ascii_case(level, "mid") {
        String::from_str("50-80")
    } else if eq_ignore_ascii_case(level, "max") {
        String::from_str("20-60")
    } else {
        String::from_str("50-80")
    }
}

// ---------------------------------------------------------------------------
// Laws
// ---------------------------------------------------------------------------

/// A well-formed range string parses exactly: whenever `s` is two digit
/// strings around a dash whose values `a <= b` lie within 0 to 100, the
/// parse returns exactly `(a, b)`.
pub proof fn lemma_parse_quality_range_exact(s: Seq<char>, da: Seq<char>, db: Seq<char>)
    requires
        s =~= da + seq!['-'] + db,
        da.len() > 0,
        db.len() > 0,
        all_digits(da),
        all_digits(db),
        dec_val(da) <= dec_val(db),
        dec_val(db) <= 100,
    ensures
        spec_parse_quality_range(s) == (dec_val(da) as u8, dec_val(db) as u8),
{
    lemma_dec_val_nonneg(da);
    let i = da.len() as int;
    assert(s[i] == '-');
    assert(forall|j: int| 0 <= j < i ==> s[j] == da[j] && is_digit_char(da[j]));
    lemma_index_of_first_is(s, '-', i);
    assert(spec_first_token(s) =~= da);
    let rest = s.skip(i + 1);
    assert(rest =~= db);
    lemma_index_of_first_none(rest, '-');
    assert(spec_second_token(s) == Some(db));
    assert(strip_plus(da) =~= da);
    assert(strip_plus(db) =~= db);
}

/// Per-field fallback, missing maximum: `"<a>-"` parses as `(a, 80)` as
/// long as the pair keeps its order, and falls back whole otherwise.
pub proof fn lemma_parse_quality_range_missing_max(s: Seq<char>, da: Seq<char>)
    requires
        s =~= da + seq!['-'],
        da.len() > 0,
        all_digits(da),
        dec_val(da) <= 100,
    ensures
        dec_val(da) <= 80 ==> spec_parse_quality_range(s) == (dec_val(da) as u8, 80u8),
        dec_val(da) > 80 ==> spec_parse_quality_range(s) == (50u8, 80u8),
{
    lemma_dec_val_nonneg(da);
    let i = da.len() as int;
    assert(s[i] == '-');
    assert(forall|j: int| 0 <= j < i ==> s[j] == da[j] && is_digit_char(da[j]));
    lemma_index_of_first_is(s, '-', i);
    assert(spec_first_token(s) =~= da);
    let rest = s.skip(i + 1);
    assert(rest =~= Seq::<char>::empty());
    lemma_index_of_first_none(rest, '-');
    assert(spec_second_token(s) == Some(rest));
    assert(!token_parses(rest));
    assert(strip_plus(da) =~= da);
}

/// Per-field fallback, missing minimum: `"-<b>"` parses as `(50, b)` as
/// long as the pair keeps its order, and falls back whole otherwise.
pub proof fn lemma_parse_quality_range_missing_min(s: Seq<char>, db: Seq<char>)
    requires
        s =~= seq!['-'] + db,
        db.len() > 0,
        all_digits(db),
        dec_val(db) <= 100,
    ensures
        dec_val(db) >= 50 ==> spec_parse_quality_range(s) == (50u8, dec_val(db) as u8),
        dec_val(db) < 50 ==> spec_parse_quality_range(s) == (50u8, 80u8),
{
    lemma_dec_val_nonneg(db);
    assert(s[0] == '-');
    lemma_index_of_first_is(s, '-', 0);
    assert(spec_first_token(s) =~= Seq::<char>::empty());
    assert(!token_parses(Seq::<char>::empty()));
    let rest = s.skip(1);
    assert(rest =~= db);
    lemma_index_of_first_none(rest, '-');
    assert(spec_second_token(s) == Some(db));
    assert(strip_plus(db) =~= db);
}

/// A string with no dash and no parsable number falls back to `(50, 80)`.
pub proof fn lemma_parse_quality_range_malformed(s: Seq<char>)
    requires
        !s.contains('-'),
        !token_parses(s),
    ensures
        spec_parse_quality_range(s) == (50u8, 80u8),
{
    s.index_of_first_ensures('-');
    match s.index_of_first('-') {
        Some(k) => {
            assert(s.contains('-'));
        },
        None => {},
    }
}

/// The parse always lands inside the documented invariant: minimum at most
/// maximum, both at most 100, whatever the input string holds.
pub proof fn lemma_parse_quality_range_invariant(s: Seq<char>)
    ensures
        spec_parse_quality_range(s).0 <= spec_parse_quality_range(s).1,
        spec_parse_quality_range(s).1 <= 100,
{
    match spec_parse_quality_field(spec_first_token(s)) {
        Some(v) => {
            lemma_dec_val_nonneg(strip_plus(spec_first_token(s)));
        },
        None => {},
    }
    match spec_second_token(s) {
        Some(t) => {
            match spec_parse_quality_field(t) {
                Some(v) => {
                    lemma_dec_val_nonneg(strip_plus(t));
                },
                None => {},
            }
        },
        None => {},
    }
}

/// The tier mapping in full: each named tier, compared without regard to
/// ASCII letter case, yields its canonical range, and every other name
/// yields the middle range.
pub proof fn lemma_compression_level_tiers(level: Seq<char>)
    ensures
        str_eq_ci(level, "low"@) ==> spec_compression_level_to_range(level) == "70-90"@,
        str_eq_ci(level, "mid"@) ==> spec_compression_level_to_range(level) == "50-80"@,
        str_eq_ci(level, "max"@) ==> spec_compression_level_to_range(level) == "20-60"@,
        !str_eq_ci(level, "low"@) && !str_eq_ci(level, "mid"@) && !str_eq_ci(level, "max"@)
            ==> spec_compression_level_to_range(level) == "50-80"@,
{
    reveal_strlit("low");
    reveal_strlit("mid");
    reveal_strlit("max");
    // the three names are pairwise distinct even up to case: their first
    // characters differ, and for mid/max so do their second ones
    if str_eq_ci(level, "low"@) && str_eq_ci(level, "mid"@) {
        assert(char_eq_ci(level[0], "low"@[0]));
        assert(char_eq_ci(level[0], "mid"@[0]));
        assert(false);
    }
    if str_eq_ci(level, "low"@) && str_eq_ci(level, "max"@) {
        assert(char_eq_ci(level[0], "low"@[0]));
        assert(char_eq_ci(level[0], "max"@[0]));
        assert(false);
    }
    if str_eq_ci(level, "mid"@) && str_eq_ci(level, "max"@) {
        assert(char_eq_ci(level[1], "mid"@[1]));
        assert(char_eq_ci(level[1], "max"@[1]));
        assert(false);
    }
}

} // verus!
