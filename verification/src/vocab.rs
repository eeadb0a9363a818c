use vstd::prelude::*;

use crate::text::copy_range;
use crate::text::find_first;
use crate::text::find_from;
use crate::text::lemma_find_first_unique;
use crate::text::parse_rank;
use crate::text::spec_parse_rank;
use crate::text::str_chars;
use crate::TokenizerError;

verus! {

/// The error type of base64's decoders.
#[verifier::external_type_specification]
#[verifier::external_body]
pub struct ExDecodeError(base64::DecodeError);

/// What base64's standard-alphabet engine yields for a given character
/// string: the decoded bytes, or nothing when the input is not well-formed
/// base64. The result depends on the characters alone.
pub uninterp spec fn base64_decoding(s: Seq<char>) -> Option<Seq<u8>>;

/// Relies on base64's `Engine::decode` with the `STANDARD` engine: it
/// decodes the standard (non-URL-safe) alphabet with padding, returns
/// `Err` exactly on malformed input, never panics, and is a pure function
/// of the input.
#[verifier::external_body]
fn base64_decode(chars: &Vec<char>) -> (r: Result<Vec<u8>, base64::DecodeError>)
    ensures
        r is Ok <==> base64_decoding(chars@) is Some,
        r is Ok ==> r->Ok_0@ == base64_decoding(chars@)->Some_0,
{
    let text: String = chars.iter().collect();
    base64::Engine::decode(&base64::engine::general_purpose::STANDARD, text)
}

/// What decoding a token field yields. One model family's resource writes
/// a bare `=` for the empty byte sequence; with `empty_sentinel` set, that
/// field decodes to the empty sequence instead of going through base64.
pub open spec fn spec_decode_token(f: Seq<char>, empty_sentinel: bool) -> Option<Seq<u8>> {
    if empty_sentinel && f.len() == 1 && f[0] == '=' {
        Some(Seq::empty())
    } else {
        base64_decoding(f)
    }
}

/// Decodes the token field `text[from..to]`.
fn decode_token(text: &Vec<char>, from: usize, to: usize, empty_sentinel: bool) -> (r: Result<
    Vec<u8>,
    TokenizerError,
>)
    requires
        from <= to <= text@.len(),
    ensures
        ({
            let field = text@.subrange(from as int, to as int);
            match r {
                Ok(tok) => spec_decode_token(field, empty_sentinel) == Some(tok@),
                Err(e) => spec_decode_token(field, empty_sentinel) is None
                    && e == TokenizerError::ResourceParse,
            }
        }),
{
    let ghost field = text@.subrange(from as int, to as int);
    if empty_sentinel && to - from == 1 && text[from] == '=' {
        let empty_token: Vec<u8> = Vec::new();
        proof {
            assert(field[0] == text@[from as int]);
            assert(empty_token@ =~= Seq::<u8>::empty());
        }
        return Ok(empty_token);
    }
    proof {
        if empty_sentinel && field.len() == 1 {
            assert(field[0] == text@[from as int]);
        }
    }
    let sub = copy_range(text, from, to);
    match base64_decode(&sub) {
        Ok(tok) => Ok(tok),
        Err(_) => Err(TokenizerError::ResourceParse),
    }
}

/// What one resource line yields: the decoded token and its rank. The
/// token field runs to the first space; the rank field runs from there to
/// the next space or the end of the line. A line with no space at all has
/// no rank field and is malformed.
pub open spec fn spec_parse_line(l: Seq<char>, empty_sentinel: bool) -> Option<(Seq<u8>, nat)> {
    let i = find_first(l, ' ');
    if i == l.len() {
        None
    } else {
        let tok_field = l.take(i);
        let rest = l.skip(i + 1);
        let rank_field = rest.take(find_first(rest, ' '));
        match spec_decode_token(tok_field, empty_sentinel) {
            Some(tok) => match spec_parse_rank(rank_field) {
                Some(rank) => Some((tok, rank)),
                None => None,
            },
            None => None,
        }
    }
}

/// A line that ends in a carriage return sheds it before parsing.
pub open spec fn strip_cr(l: Seq<char>) -> Seq<char> {
    if l.len() > 0 && l.last() == '\r' {
        l.drop_last()
    } else {
        l
    }
}

/// What loading a whole resource yields: one `(token, rank)` pair per
/// line, in file order, or nothing as soon as one line is malformed.
/// Lines are separated by `\n`; a final newline closes the last line.
pub open spec fn spec_load(text: Seq<char>, empty_sentinel: bool) -> Option<Seq<(Seq<u8>, nat)>>
    decreases text.len(),
    via spec_load_decreases
{
    if text.len() == 0 {
        Some(Seq::empty())
    } else {
        let i = find_first(text, '\n');
        let line = strip_cr(text.take(i));
        let rest = if i == text.len() {
            Seq::<char>::empty()
        } else {
            text.skip(i + 1)
        };
        match spec_parse_line(line, empty_sentinel) {
            None => None,
            Some(e) => match spec_load(rest, empty_sentinel) {
                None => None,
                Some(es) => Some(seq![e] + es),
            },
        }
    }
}

#[via_fn]
proof fn spec_load_decreases(text: Seq<char>, empty_sentinel: bool) {
    crate::text::lemma_find_first_props(text, '\n');
}

/// The mathematical content of a `Vec` of `(token, rank)` entries.
pub open spec fn vocab_view(s: Seq<(Vec<u8>, usize)>) -> Seq<(Seq<u8>, nat)> {
    Seq::new(s.len(), |i: int| (s[i].0@, s[i].1 as nat))
}

/// A byte-sequence-to-rank table, in file order: entry `i` holds the token
/// decoded from line `i` and the rank that line carried.
#[derive(Debug)]
pub struct VocabularyTable {
    pub entries: Vec<(Vec<u8>, usize)>,
}

impl View for VocabularyTable {
    type V = Seq<(Seq<u8>, nat)>;

    open spec fn view(&self) -> Seq<(Seq<u8>, nat)> {
        vocab_view(self.entries@)
    }
}

impl VocabularyTable {
    /// The number of entries, which the sequential special-token scheme
    /// uses as its first identifier.
    pub fn len(&self) -> (n: usize)
        ensures
            n == self@.len(),
    {
        self.entries.len()
    }
}

/// Builds a vocabulary table from a rank-table resource: one
/// `<base64-token> <space> <decimal-rank>` entry per line. Returns the
/// table holding every line's pair in file order, or `ResourceParse` as
/// soon as any line is malformed — never a partial table.
#[verifier::rlimit(100)]
pub fn load_vocabulary(resource: &str, empty_sentinel: bool) -> (r: Result<
    VocabularyTable,
    TokenizerError,
>)
    ensures
        match spec_load(resource@, empty_sentinel) {
            Some(v) => r matches Ok(t) && t@ == v,
            None => r matches Err(e) && e == TokenizerError::ResourceParse,
        },
{
    let text = str_chars(resource);
    let n = text.len();
    let mut entries: Vec<(Vec<u8>, usize)> = Vec::new();
    let mut p: usize = 0;
    proof {
        assert(text@.skip(0) =~= text@);
        match spec_load(resource@, empty_sentinel) {
            Some(v) => {
                assert(vocab_view(entries@) + v =~= v);
            },
            None => {},
        }
    }
    while p < n
        invariant
            p <= n,
            n == text@.len(),
            text@ == resource@,
            spec_load(resource@, empty_sentinel) == match spec_load(
                text@.skip(p as int),
                empty_sentinel,
            ) {
                Some(rest) => Some(vocab_view(entries@) + rest),
                None => None::<Seq<(Seq<u8>, nat)>>,
            },
        decreases n - p,
    {
        let ghost tail = text@.skip(p as int);
        let j = find_from(&text, p, n, '\n');
        let line_end = if j > p && text[j - 1] == '\r' {
            j - 1
        } else {
            j
        };
        let ghost line = text@.subrange(p as int, line_end as int);
        proof {
            // The first line of the unread tail is text[p..line_end).
            assert forall|q: int| 0 <= q < j - p implies tail[q] != '\n' by {
                assert(tail[q] == text@[p + q]);
            }
            if j < n {
                assert(tail[j - p] == text@[j as int]);
            }
            lemma_find_first_unique(tail, '\n', j - p);
            let raw_line = tail.take(j - p);
            assert(raw_line =~= text@.subrange(p as int, j as int));
            if j > p {
                assert(raw_line.last() == text@[j - 1]);
            }
            assert(strip_cr(raw_line) =~= line);
        }
        // Token field: up to the first space of the line.
        let k = find_from(&text, p, line_end, ' ');
        proof {
            assert forall|q: int| 0 <= q < k - p implies line[q] != ' ' by {
                assert(line[q] == text@[p + q]);
            }
            if k < line_end {
                assert(line[k - p] == text@[k as int]);
            }
            lemma_find_first_unique(line, ' ', k - p);
        }
        if k == line_end {
            // No space: the rank field is missing.
            return Err(TokenizerError::ResourceParse);
        }
        let ghost rest_of_line = line.skip(k - p + 1);
        // Rank field: from past the space to the next space or line end.
        let m = find_from(&text, k + 1, line_end, ' ');
        proof {
            assert(rest_of_line =~= text@.subrange(k + 1, line_end as int));
            assert forall|q: int| 0 <= q < m - (k + 1) implies rest_of_line[q] != ' ' by {
                assert(rest_of_line[q] == text@[k + 1 + q]);
            }
            if m < line_end {
                assert(rest_of_line[m - (k + 1)] == text@[m as int]);
            }
            lemma_find_first_unique(rest_of_line, ' ', m - (k + 1));
            assert(line.take(k - p) =~= text@.subrange(p as int, k as int));
            assert(rest_of_line.take(m - (k + 1)) =~= text@.subrange(k + 1, m as int));
        }
        let token = match decode_token(&text, p, k, empty_sentinel) {
            Ok(tok) => tok,
            Err(e) => {
                return Err(e);
            },
        };
        let rank = match parse_rank(&text, k + 1, m) {
            Some(v) => v,
            None => {
                return Err(TokenizerError::ResourceParse);
            },
        };
        proof {
            assert(spec_parse_line(line, empty_sentinel) == Some((token@, rank as nat)));
        }
        let ghost entries_old = entries@;
        entries.push((token, rank));
        let p_next = if j == n {
            n
        } else {
            j + 1
        };
        proof {
            let tail_next = text@.skip(p_next as int);
            if j == n {
                assert(tail_next =~= Seq::<char>::empty());
            } else {
                assert(tail_next =~= tail.skip(j - p + 1));
            }
            // One unfolding of spec_load on the old tail.
            assert(spec_load(tail, empty_sentinel) == match spec_load(tail_next, empty_sentinel) {
                Some(es) => Some(seq![(token@, rank as nat)] + es),
                None => None::<Seq<(Seq<u8>, nat)>>,
            });
            assert(vocab_view(entries@) =~= vocab_view(entries_old).push((token@, rank as nat)));
            match spec_load(tail_next, empty_sentinel) {
                Some(es) => {
                    assert(vocab_view(entries_old) + (seq![(token@, rank as nat)] + es)
                        =~= vocab_view(entries@) + es);
                },
                None => {},
            }
        }
        p = p_next;
    }
    proof {
        assert(text@.skip(n as int) =~= Seq::<char>::empty());
        assert(vocab_view(entries@) + Seq::<(Seq<u8>, nat)>::empty() =~= vocab_view(entries@));
    }
    Ok(VocabularyTable { entries })
}

/// A sentinel `=` token field decodes to the empty byte sequence, not to a
/// failure, for the family whose resource uses it.
pub proof fn lemma_sentinel_decodes_empty(f: Seq<char>)
    requires
        f.len() == 1,
        f[0] == '=',
    ensures
        spec_decode_token(f, true) == Some(Seq::<u8>::empty()),
{
}

/// A line without a rank field — no space at all — is rejected, whatever
/// else it holds.
pub proof fn lemma_missing_rank_rejected(l: Seq<char>, empty_sentinel: bool)
    requires
        forall|q: int| 0 <= q < l.len() ==> l[q] != ' ',
    ensures
        spec_parse_line(l, empty_sentinel) is None,
{
    lemma_find_first_unique(l, ' ', l.len() as int);
}

} // verus!
