//! Verified text helpers: whitespace trimming, decimal rendering, and
//! splitting/joining comma-separated fields.

use vstd::prelude::*;

verus! {

/// The whitespace characters `str::trim` strips: the Unicode
/// White_Space set.
pub open spec fn is_space_char(c: char) -> bool {
    let v = c as u32;
    (9 <= v && v <= 13) || v == 32 || v == 0x85 || v == 0xA0 || v == 0x1680 || (0x2000 <= v && v
        <= 0x200A) || v == 0x2028 || v == 0x2029 || v == 0x202F || v == 0x205F || v == 0x3000
}

fn is_space(c: char) -> (r: bool)
    ensures
        r == is_space_char(c),
{
    let v = c as u32;
    (9 <= v && v <= 13) || v == 32 || v == 0x85 || v == 0xA0 || v == 0x1680 || (0x2000 <= v && v
        <= 0x200A) || v == 0x2028 || v == 0x2029 || v == 0x202F || v == 0x205F || v == 0x3000
}

/// How many whitespace characters the text starts with.
pub open spec fn leading_spaces(s: Seq<char>) -> nat
    decreases s.len(),
{
    if s.len() == 0 || !is_space_char(s[0]) {
        0
    } else {
        1 + leading_spaces(s.drop_first())
    }
}

/// How many whitespace characters the text ends with.
pub open spec fn trailing_spaces(s: Seq<char>) -> nat
    decreases s.len(),
{
    if s.len() == 0 || !is_space_char(s.last()) {
        0
    } else {
        1 + trailing_spaces(s.drop_last())
    }
}

/// The text without its leading and trailing whitespace.
pub open spec fn trim_spec(s: Seq<char>) -> Seq<char> {
    if leading_spaces(s) == s.len() {
        Seq::empty()
    } else {
        s.subrange(leading_spaces(s) as int, s.len() - trailing_spaces(s))
    }
}

proof fn lemma_leading_spaces_at(s: Seq<char>, k: int)
    requires
        0 <= k <= s.len(),
        forall|j: int| 0 <= j < k ==> is_space_char(#[trigger] s[j]),
        k < s.len() ==> !is_space_char(s[k]),
    ensures
        leading_spaces(s) == k,
    decreases k,
{
    if k == 0 {
    } else {
        lemma_leading_spaces_at(s.drop_first(), k - 1);
    }
}

proof fn lemma_trailing_spaces_at(s: Seq<char>, k: int)
    requires
        0 <= k <= s.len(),
        forall|j: int| s.len() - k <= j < s.len() ==> is_space_char(#[trigger] s[j]),
        k < s.len() ==> !is_space_char(s[s.len() - k - 1]),
    ensures
        trailing_spaces(s) == k,
    decreases k,
{
    if k == 0 {
    } else {
        lemma_trailing_spaces_at(s.drop_last(), k - 1);
    }
}

/// Strips leading and trailing whitespace, as `str::trim` does.
pub fn trim_str(s: &str) -> (r: String)
    ensures
        r@ == trim_spec(s@),
{
    let len = s.unicode_len();
    let mut start: usize = 0;
    while start < len && is_space(s.get_char(start))
        invariant
            len == s@.len(),
            start <= len,
            forall|j: int| 0 <= j < start ==> is_space_char(#[trigger] s@[j]),
        decreases len - start,
    {
        start = start + 1;
    }
    if start == len {
        proof {
            lemma_leading_spaces_at(s@, len as int);
        }
        return String::new();
    }
    let mut end: usize = len;
    while end > start && is_space(s.get_char(end - 1))
        invariant
            len == s@.len(),
            start <= end <= len,
            start < len,
            !is_space_char(s@[start as int]),
            forall|j: int| end <= j < len ==> is_space_char(#[trigger] s@[j]),
        decreases end,
    {
        end = end - 1;
    }
    proof {
        lemma_leading_spaces_at(s@, start as int);
        lemma_trailing_spaces_at(s@, len - end);
    }
    let part = s.substring_char(start, end);
    String::from_str(part)
}

/// The character of one decimal digit.
pub open spec fn dec_digit(d: int) -> char {
    if d == 0 {
        '0'
    } else if d == 1 {
        '1'
    } else if d == 2 {
        '2'
    } else if d == 3 {
        '3'
    } else if d == 4 {
        '4'
    } else if d == 5 {
        '5'
    } else if d == 6 {
        '6'
    } else if d == 7 {
        '7'
    } else if d == 8 {
        '8'
    } else {
        '9'
    }
}

/// The usual decimal rendering of a non-negative number: no sign, no
/// leading zero except for zero itself.
pub open spec fn dec_spec(n: int) -> Seq<char>
    decreases n,
{
    if n < 10 {
        seq![dec_digit(n)]
    } else {
        dec_spec(n / 10).push(dec_digit(n % 10))
    }
}

fn digit_str(d: u32) -> (r: &'static str)
    requires
        d < 10,
    ensures
        r@ =~= seq![dec_digit(d as int)],
{
    proof {
        reveal_strlit("0");
        reveal_strlit("1");
        reveal_strlit("2");
        reveal_strlit("3");
        reveal_strlit("4");
        reveal_strlit("5");
        reveal_strlit("6");
        reveal_strlit("7");
        reveal_strlit("8");
        reveal_strlit("9");
    }
    match d {
        0 => "0",
        1 => "1",
        2 => "2",
        3 => "3",
        4 => "4",
        5 => "5",
        6 => "6",
        7 => "7",
        8 => "8",
        _ => "9",
    }
}

/// The digits collected least-significant first, read back in print
/// order.
spec fn digits_chars(ds: Seq<u32>) -> Seq<char> {
    Seq::new(ds.len(), |i: int| dec_digit(ds[ds.len() - 1 - i] as int))
}

/// Renders a number in decimal.
pub fn u32_to_string(n: u32) -> (r: String)
    ensures
        r@ == dec_spec(n as int),
{
    let mut digits: Vec<u32> = Vec::new();
    digits.push(n % 10);
    let mut m: u32 = n / 10;
    proof {
        assert(digits_chars(digits@) =~= seq![dec_digit(n as int % 10)]);
        if n < 10 {
            assert(dec_spec(n as int) == seq![dec_digit(n as int)]);
        }
    }
    while m > 0
        invariant
            digits@.len() >= 1,
            forall|j: int| 0 <= j < digits@.len() ==> #[trigger] digits@[j] < 10,
            m == 0 ==> dec_spec(n as int) == digits_chars(digits@),
            m > 0 ==> dec_spec(n as int) == dec_spec(m as int) + digits_chars(digits@),
        decreases m,
    {
        let ghost pre = digits@;
        digits.push(m % 10);
        proof {
            assert(digits_chars(digits@) =~= seq![dec_digit(m as int % 10)] + digits_chars(pre));
            if m >= 10 {
                assert(dec_spec(m as int) == dec_spec(m as int / 10).push(dec_digit(m as int % 10)));
                assert(dec_spec(m as int / 10).push(dec_digit(m as int % 10)) + digits_chars(pre)
                    =~= dec_spec(m as int / 10) + digits_chars(digits@));
            } else {
                assert(dec_spec(m as int) + digits_chars(pre) =~= digits_chars(digits@));
            }
        }
        m = m / 10;
    }
    let mut r = String::new();
    let mut i: usize = digits.len();
    while i > 0
        invariant
            i <= digits@.len(),
            forall|j: int| 0 <= j < digits@.len() ==> #[trigger] digits@[j] < 10,
            r@ =~= digits_chars(digits@).take(digits@.len() - i),
        decreases i,
    {
        let d = digits[i - 1];
        r.append(digit_str(d));
        proof {
            assert(r@ =~= digits_chars(digits@).take(digits@.len() - (i - 1)));
        }
        i = i - 1;
    }
    proof {
        assert(digits_chars(digits@).take(digits@.len() as int) =~= digits_chars(digits@));
    }
    r
}

/// The comma-separated parts of a text. Splitting never yields an
/// empty list: a text without commas is one part, possibly empty.
pub open spec fn split_spec(s: Seq<char>) -> Seq<Seq<char>>
    decreases s.len(),
{
    if s.len() == 0 {
        seq![Seq::<char>::empty()]
    } else if s[0] == ',' {
        seq![Seq::<char>::empty()] + split_spec(s.drop_first())
    } else {
        let rest = split_spec(s.drop_first());
        seq![seq![s[0]] + rest[0]] + rest.drop_first()
    }
}

/// The parts joined back with commas between them.
pub open spec fn join_spec(parts: Seq<Seq<char>>) -> Seq<char>
    decreases parts.len(),
{
    if parts.len() == 0 {
        Seq::empty()
    } else if parts.len() == 1 {
        parts[0]
    } else {
        join_spec(parts.drop_last()) + seq![','] + parts.last()
    }
}

pub proof fn lemma_split_len(s: Seq<char>)
    ensures
        split_spec(s).len() >= 1,
    decreases s.len(),
{
    if s.len() > 0 {
        lemma_split_len(s.drop_first());
    }
}

/// Splitting a comma-free text yields that text as the one part.
pub proof fn lemma_split_no_comma(s: Seq<char>)
    requires
        forall|j: int| 0 <= j < s.len() ==> s[j] != ',',
    ensures
        split_spec(s) == seq![s],
    decreases s.len(),
{
    if s.len() == 0 {
        assert(split_spec(s) =~~= seq![s]);
    } else {
        lemma_split_no_comma(s.drop_first());
        lemma_split_len(s.drop_first());
        assert(seq![s[0]] + split_spec(s.drop_first())[0] =~= s);
        assert(split_spec(s) =~~= seq![s]);
    }
}

/// Splitting peels the text at its first comma.
pub proof fn lemma_split_first_comma(s: Seq<char>, k: int)
    requires
        0 <= k < s.len(),
        s[k] == ',',
        forall|j: int| 0 <= j < k ==> s[j] != ',',
    ensures
        split_spec(s) == seq![s.take(k)] + split_spec(s.skip(k + 1)),
    decreases k,
{
    if k == 0 {
        assert(s.drop_first() =~= s.skip(1));
        assert(s.take(0) =~= Seq::<char>::empty());
        assert(split_spec(s) =~~= seq![s.take(0)] + split_spec(s.skip(1)));
    } else {
        lemma_split_first_comma(s.drop_first(), k - 1);
        lemma_split_len(s.drop_first());
        let rest = split_spec(s.drop_first());
        assert(s.drop_first().take(k - 1) =~= s.take(k).drop_first());
        assert(s.drop_first().skip(k) =~= s.skip(k + 1));
        assert(rest[0] == s.take(k).drop_first());
        assert(seq![s[0]] + rest[0] =~= s.take(k));
        assert(rest.drop_first() == split_spec(s.skip(k + 1)));
        assert(split_spec(s) =~~= seq![s.take(k)] + split_spec(s.skip(k + 1)));
    }
}

/// Joining reads head-first as well: the first part, then a comma,
/// then the joined rest.
pub proof fn lemma_join_head(parts: Seq<Seq<char>>)
    requires
        parts.len() >= 2,
    ensures
        join_spec(parts) == parts[0] + seq![','] + join_spec(parts.drop_first()),
    decreases parts.len(),
{
    if parts.len() == 2 {
        assert(parts.drop_last() =~= seq![parts[0]]);
        assert(parts.drop_first() =~= seq![parts[1]]);
        assert(join_spec(parts) =~= parts[0] + seq![','] + join_spec(parts.drop_first()));
    } else {
        lemma_join_head(parts.drop_last());
        let q = parts.drop_first();
        assert(q.drop_last() =~= parts.drop_last().drop_first());
        assert(q.last() == parts.last());
        assert(join_spec(q) == join_spec(q.drop_last()) + seq![','] + q.last());
        assert(join_spec(parts) == join_spec(parts.drop_last()) + seq![','] + parts.last());
        assert(join_spec(parts.drop_last()) == parts[0] + seq![','] + join_spec(q.drop_last()));
        assert(join_spec(parts) =~= parts[0] + seq![','] + join_spec(q));
    }
}

/// Law: joining fields with commas and splitting the result restores
/// the fields, for any non-empty list of comma-free fields.
pub proof fn lemma_split_join_round_trip(parts: Seq<Seq<char>>)
    requires
        parts.len() >= 1,
        forall|i: int, j: int|
            0 <= i < parts.len() && 0 <= j < parts[i].len() ==> #[trigger] parts[i][j] != ',',
    ensures
        split_spec(join_spec(parts)) == parts,
    decreases parts.len(),
{
    if parts.len() == 1 {
        assert(forall|j: int| 0 <= j < parts[0].len() ==> parts[0][j] != ',');
        lemma_split_no_comma(parts[0]);
        assert(split_spec(join_spec(parts)) =~~= parts);
    } else {
        lemma_join_head(parts);
        let s = join_spec(parts);
        let k = parts[0].len() as int;
        assert forall|j: int| 0 <= j < k implies s[j] != ',' by {
            assert(s[j] == parts[0][j]);
        }
        assert(s[k] == ',');
        lemma_split_first_comma(s, k);
        assert(s.take(k) =~= parts[0]);
        assert(s.skip(k + 1) =~= join_spec(parts.drop_first()));
        assert forall|i: int, j: int|
            0 <= i < parts.drop_first().len() && 0 <= j < parts.drop_first()[i].len() implies #[trigger] parts.drop_first()[i][j]
            != ',' by {
            assert(parts.drop_first()[i] == parts[i + 1]);
        }
        lemma_split_join_round_trip(parts.drop_first());
        assert(split_spec(join_spec(parts)) =~~= parts);
    }
}

/// Splits a text at its commas, as `str::split(',')` does.
pub fn split_commas(s: &str) -> (r: Vec<String>)
    ensures
        r@.len() == split_spec(s@).len(),
        forall|i: int| 0 <= i < r@.len() ==> (#[trigger] r@[i])@ == split_spec(s@)[i],
{
    let len = s.unicode_len();
    let mut out: Vec<String> = Vec::new();
    let mut start: usize = 0;
    let mut i: usize = 0;
    proof {
        assert(s@.skip(0) =~= s@);
        assert(Seq::new(out@.len(), |t: int| out@[t]@) =~= Seq::<Seq<char>>::empty());
        assert(Seq::<Seq<char>>::empty() + split_spec(s@) =~= split_spec(s@));
    }
    while i < len
        invariant
            len == s@.len(),
            start <= i <= len,
            forall|j: int| start <= j < i ==> s@[j] != ',',
            split_spec(s@) =~= Seq::new(out@.len(), |t: int| out@[t]@) + split_spec(
                s@.skip(start as int),
            ),
        decreases len - i,
    {
        if s.get_char(i) == ',' {
            let part = String::from_str(s.substring_char(start, i));
            proof {
                let suffix = s@.skip(start as int);
                lemma_split_first_comma(suffix, i - start);
                assert(suffix.take(i - start) =~= s@.subrange(start as int, i as int));
                assert(suffix.skip(i - start + 1) =~= s@.skip(i + 1));
            }
            out.push(part);
            proof {
                assert(split_spec(s@) =~= Seq::new(out@.len(), |t: int| out@[t]@) + split_spec(
                    s@.skip(i + 1),
                ));
            }
            start = i + 1;
        }
        i = i + 1;
    }
    let part = String::from_str(s.substring_char(start, len));
    proof {
        let suffix = s@.skip(start as int);
        assert(forall|j: int| 0 <= j < suffix.len() ==> suffix[j] != ',');
        lemma_split_no_comma(suffix);
        assert(suffix =~= s@.subrange(start as int, len as int));
    }
    out.push(part);
    proof {
        assert(Seq::new(out@.len(), |t: int| out@[t]@) =~= split_spec(s@));
    }
    out
}

/// Joins fields with commas between them, as `join(",")` does.
pub fn join_commas(parts: &Vec<String>) -> (r: String)
    ensures
        r@ == join_spec(Seq::new(parts@.len(), |i: int| parts@[i]@)),
{
    let ghost views = Seq::new(parts@.len(), |i: int| parts@[i]@);
    let mut r = String::new();
    let mut i: usize = 0;
    proof {
        reveal_strlit(",");
    }
    while i < parts.len()
        invariant
            i <= parts@.len(),
            views == Seq::new(parts@.len(), |t: int| parts@[t]@),
            r@ == join_spec(views.take(i as int)),
        decreases parts@.len() - i,
    {
        if i > 0 {
            r.append(",");
        }
        r.append(parts[i].as_str());
        proof {
            reveal_strlit(",");
            let taken = views.take(i as int);
            let taken2 = views.take(i + 1);
            assert(taken2.drop_last() =~= taken);
            assert(taken2.last() == views[i as int]);
            if i == 0 {
                assert(r@ =~= join_spec(taken2));
            } else {
                assert(r@ =~= join_spec(taken) + seq![','] + views[i as int]);
                assert(r@ =~= join_spec(taken2));
            }
        }
        i = i + 1;
    }
    proof {
        assert(views.take(parts@.len() as int) =~= views);
    }
    r
}

} // verus!
