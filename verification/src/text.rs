use vstd::prelude::*;
use vstd::string::StrSliceExecFns;
use vstd::string::StringExecFns;

verus! {

/// The index of the first occurrence of `c` in `s`, or `s.len()` when `c`
/// does not occur.
pub open spec fn find_first(s: Seq<char>, c: char) -> int
    decreases s.len(),
{
    if s.len() == 0 {
        0
    } else if s[0] == c {
        0
    } else {
        1 + find_first(s.drop_first(), c)
    }
}

pub proof fn lemma_find_first_props(s: Seq<char>, c: char)
    ensures
        0 <= find_first(s, c) <= s.len(),
        find_first(s, c) < s.len() ==> s[find_first(s, c)] == c,
        forall|q: int| 0 <= q < find_first(s, c) ==> s[q] != c,
    decreases s.len(),
{
    if s.len() == 0 {
    } else if s[0] == c {
    } else {
        lemma_find_first_props(s.drop_first(), c);
        assert forall|q: int| 0 <= q < find_first(s, c) implies s[q] != c by {
            if q >= 1 {
                assert(s.drop_first()[q - 1] == s[q]);
            }
        }
    }
}

/// An index with no occurrence before it, and an occurrence (or the end) at
/// it, is the first occurrence.
pub proof fn lemma_find_first_unique(s: Seq<char>, c: char, i: int)
    requires
        0 <= i <= s.len(),
        forall|q: int| 0 <= q < i ==> s[q] != c,
        i < s.len() ==> s[i] == c,
    ensures
        find_first(s, c) == i,
    decreases s.len(),
{
    if s.len() == 0 {
    } else if s[0] == c {
        assert(i == 0);
    } else {
        assert(i >= 1);
        assert forall|q: int| 0 <= q < i - 1 implies s.drop_first()[q] != c by {
            assert(s.drop_first()[q] == s[q + 1]);
        }
        assert(i - 1 < s.drop_first().len() ==> s.drop_first()[i - 1] == c);
        lemma_find_first_unique(s.drop_first(), c, i - 1);
    }
}

/// Scans `text[from..to]` for `c`; returns the first position holding `c`,
/// or `to` when there is none.
pub fn find_from(text: &Vec<char>, from: usize, to: usize, c: char) -> (r: usize)
    requires
        from <= to <= text@.len(),
    ensures
        from <= r <= to,
        forall|q: int| from <= q < r ==> text@[q] != c,
        r < to ==> text@[r as int] == c,
        find_first(text@.subrange(from as int, to as int), c) == r - from,
{
    let ghost field = text@.subrange(from as int, to as int);
    let mut i: usize = from;
    while i < to
        invariant
            from <= i <= to <= text@.len(),
            field == text@.subrange(from as int, to as int),
            forall|q: int| from <= q < i ==> text@[q] != c,
        decreases to - i,
    {
        if text[i] == c {
            proof {
                assert forall|q: int| 0 <= q < i - from implies field[q] != c by {
                    assert(field[q] == text@[from + q]);
                }
                lemma_find_first_unique(field, c, i - from);
            }
            return i;
        }
        i += 1;
    }
    proof {
        assert forall|q: int| 0 <= q < to - from implies field[q] != c by {
            assert(field[q] == text@[from + q]);
        }
        lemma_find_first_unique(field, c, (to - from) as int);
    }
    to
}

pub open spec fn is_digit(c: char) -> bool {
    48 <= c as u32 <= 57
}

pub open spec fn digit_val(c: char) -> nat {
    (c as u32 - 48) as nat
}

pub open spec fn digit_char(d: nat) -> char {
    if d == 0 {
        '0'
    } else if d == 1 {
        '1'
    } else if d == 2 {
        '2'
    } else if d == 3 {
        '3'
    } else if d == 4 {
        '4'
    } else if d == 5 {
        '5'
    } else if d == 6 {
        '6'
    } else if d == 7 {
        '7'
    } else if d == 8 {
        '8'
    } else {
        '9'
    }
}

/// The value of a digit string read in base ten.
pub open spec fn dec_val(s: Seq<char>) -> nat
    decreases s.len(),
{
    if s.len() == 0 {
        0
    } else {
        dec_val(s.drop_last()) * 10 + digit_val(s.last())
    }
}

/// A non-empty string of decimal digits.
pub open spec fn is_dec_string(s: Seq<char>) -> bool {
    s.len() > 0 && (forall|i: int| 0 <= i < s.len() ==> is_digit(s[i]))
}

/// What parsing a rank field yields: the base-ten value of a non-empty
/// digit string, when that value fits the machine word.
pub open spec fn spec_parse_rank(s: Seq<char>) -> Option<nat> {
    if is_dec_string(s) && dec_val(s) <= usize::MAX as nat {
        Some(dec_val(s))
    } else {
        None
    }
}

pub proof fn lemma_dec_val_extend(s: Seq<char>, k: int)
    requires
        0 <= k < s.len(),
    ensures
        dec_val(s.take(k + 1)) == dec_val(s.take(k)) * 10 + digit_val(s[k]),
{
    assert(s.take(k + 1).drop_last() =~= s.take(k));
    assert(s.take(k + 1).last() == s[k]);
}

pub proof fn lemma_dec_val_mono(s: Seq<char>, j: int, k: int)
    requires
        0 <= j <= k <= s.len(),
    ensures
        dec_val(s.take(j)) <= dec_val(s.take(k)),
    decreases k - j,
{
    if j < k {
        lemma_dec_val_mono(s, j, k - 1);
        lemma_dec_val_extend(s, k - 1);
    }
}

/// Parses `text[from..to]` as a base-ten rank, exactly when the field is a
/// non-empty digit string whose value fits the machine word.
pub fn parse_rank(text: &Vec<char>, from: usize, to: usize) -> (r: Option<usize>)
    requires
        from <= to <= text@.len(),
    ensures
        ({
            let field = text@.subrange(from as int, to as int);
            match r {
                Some(v) => spec_parse_rank(field) == Some(v as nat),
                None => spec_parse_rank(field) is None,
            }
        }),
{
    let ghost field = text@.subrange(from as int, to as int);
    if from == to {
        return None;
    }
    let mut acc: usize = 0;
    let mut i: usize = from;
    while i < to
        invariant
            from <= i <= to <= text@.len(),
            from < to,
            field == text@.subrange(from as int, to as int),
            forall|q: int| 0 <= q < i - from ==> is_digit(field[q]),
            acc as nat == dec_val(field.take(i - from)),
        decreases to - i,
    {
        let c = text[i];
        let cu = c as u32;
        proof {
            assert(field[i - from] == text@[i as int]);
        }
        if cu < 48 || cu > 57 {
            proof {
                assert(!is_digit(field[i - from]));
            }
            return None;
        }
        let d = (cu - 48) as usize;
        proof {
            lemma_dec_val_extend(field, i - from);
        }
        let wide: u128 = acc as u128 * 10 + d as u128;
        if wide > usize::MAX as u128 {
            proof {
                lemma_dec_val_mono(field, i - from + 1, field.len() as int);
                assert(field.take(field.len() as int) =~= field);
            }
            return None;
        }
        acc = wide as usize;
        i += 1;
    }
    proof {
        assert(field.take((to - from) as int) =~= field);
    }
    Some(acc)
}

/// The base-ten digit string of `n`, without leading zeros (`"0"` for 0).
pub open spec fn dec_string(n: nat) -> Seq<char>
    decreases n,
{
    if n < 10 {
        seq![digit_char(n)]
    } else {
        dec_string(n / 10).push(digit_char(n % 10))
    }
}

fn digit_str(d: usize) -> (s: &'static str)
    requires
        d < 10,
    ensures
        s@ =~= seq![digit_char(d as nat)],
{
    if d == 0 {
        proof { reveal_strlit("0"); }
        return "0";
    }
    if d == 1 {
        proof { reveal_strlit("1"); }
        return "1";
    }
    if d == 2 {
        proof { reveal_strlit("2"); }
        return "2";
    }
    if d == 3 {
        proof { reveal_strlit("3"); }
        return "3";
    }
    if d == 4 {
        proof { reveal_strlit("4"); }
        return "4";
    }
    if d == 5 {
        proof { reveal_strlit("5"); }
        return "5";
    }
    if d == 6 {
        proof { reveal_strlit("6"); }
        return "6";
    }
    if d == 7 {
        proof { reveal_strlit("7"); }
        return "7";
    }
    if d == 8 {
        proof { reveal_strlit("8"); }
        return "8";
    }
    proof { reveal_strlit("9"); }
    "9"
}

/// Formats `n` in base ten.
pub fn dec_string_exec(n: usize) -> (s: String)
    ensures
        s@ == dec_string(n as nat),
    decreases n,
{
    if n < 10 {
        String::from_str(digit_str(n))
    } else {
        let front = dec_string_exec(n / 10);
        let s = front.concat(digit_str(n % 10));
        proof {
            assert(dec_string((n / 10) as nat).push(digit_char((n % 10) as nat)) =~= dec_string(
                (n / 10) as nat,
            ) + seq![digit_char((n % 10) as nat)]);
        }
        s
    }
}

/// Copies the characters of `text` into a vector, for random access.
pub fn str_chars(s: &str) -> (v: Vec<char>)
    ensures
        v@ == s@,
{
    let n = s.unicode_len();
    let mut v: Vec<char> = Vec::new();
    let mut i: usize = 0;
    while i < n
        invariant
            i <= n,
            n == s@.len(),
            v@ == s@.take(i as int),
        decreases n - i,
    {
        let c = s.get_char(i);
        v.push(c);
        proof {
            assert(s@.take(i + 1) =~= s@.take(i as int).push(s@[i as int]));
        }
        i += 1;
    }
    proof {
        assert(s@.take(n as int) =~= s@);
    }
    v
}

/// Copies `text[from..to]` into a fresh vector.
pub fn copy_range(text: &Vec<char>, from: usize, to: usize) -> (v: Vec<char>)
    requires
        from <= to <= text@.len(),
    ensures
        v@ == text@.subrange(from as int, to as int),
{
    let mut v: Vec<char> = Vec::new();
    let mut i: usize = from;
    while i < to
        invariant
            from <= i <= to <= text@.len(),
            v@ == text@.subrange(from as int, i as int),
        decreases to - i,
    {
        v.push(text[i]);
        proof {
            assert(text@.subrange(from as int, i + 1) =~= text@.subrange(
                from as int,
                i as int,
            ).push(text@[i as int]));
        }
        i += 1;
    }
    v
}

} // verus!
