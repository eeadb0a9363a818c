use vstd::prelude::*;
use vstd::string::StringExecFns;

use crate::text::dec_string;
use crate::text::dec_string_exec;
use crate::text::digit_char;
use crate::vocab::VocabularyTable;

verus! {

/// The fixed, ordered list of language codes of the speech-transcription
/// family. The order is enumeration order, not alphabetical; it fixes the
/// identifier every tag receives.
pub open spec fn spec_language(i: int) -> Seq<char> {
    if i == 0 {
        "en"@
    } else if i == 1 {
        "zh"@
    } else if i == 2 {
        "de"@
    } else if i == 3 {
        "es"@
    } else if i == 4 {
        "ru"@
    } else if i == 5 {
        "ko"@
    } else if i == 6 {
        "fr"@
    } else if i == 7 {
        "ja"@
    } else if i == 8 {
        "pt"@
    } else if i == 9 {
        "tr"@
    } else if i == 10 {
        "pl"@
    } else if i == 11 {
        "ca"@
    } else if i == 12 {
        "nl"@
    } else if i == 13 {
        "ar"@
    } else if i == 14 {
        "sv"@
    } else if i == 15 {
        "it"@
    } else if i == 16 {
        "id"@
    } else if i == 17 {
        "hi"@
    } else if i == 18 {
        "fi"@
    } else if i == 19 {
        "vi"@
    } else if i == 20 {
        "he"@
    } else if i == 21 {
        "uk"@
    } else if i == 22 {
        "el"@
    } else if i == 23 {
        "ms"@
    } else if i == 24 {
        "cs"@
    } else if i == 25 {
        "ro"@
    } else if i == 26 {
        "da"@
    } else if i == 27 {
        "hu"@
    } else if i == 28 {
        "ta"@
    } else if i == 29 {
        "no"@
    } else if i == 30 {
        "th"@
    } else if i == 31 {
        "ur"@
    } else if i == 32 {
        "hr"@
    } else if i == 33 {
        "bg"@
    } else if i == 34 {
        "lt"@
    } else if i == 35 {
        "la"@
    } else if i == 36 {
        "mi"@
    } else if i == 37 {
        "ml"@
    } else if i == 38 {
        "cy"@
    } else if i == 39 {
        "sk"@
    } else if i == 40 {
        "te"@
    } else if i == 41 {
        "fa"@
    } else if i == 42 {
        "lv"@
    } else if i == 43 {
        "bn"@
    } else if i == 44 {
        "sr"@
    } else if i == 45 {
        "az"@
    } else if i == 46 {
        "sl"@
    } else if i == 47 {
        "kn"@
    } else if i == 48 {
        "et"@
    } else if i == 49 {
        "mk"@
    } else if i == 50 {
        "br"@
    } else if i == 51 {
        "eu"@
    } else if i == 52 {
        "is"@
    } else if i == 53 {
        "hy"@
    } else if i == 54 {
        "ne"@
    } else if i == 55 {
        "mn"@
    } else if i == 56 {
        "bs"@
    } else if i == 57 {
        "kk"@
    } else if i == 58 {
        "sq"@
    } else if i == 59 {
        "sw"@
    } else if i == 60 {
        "gl"@
    } else if i == 61 {
        "mr"@
    } else if i == 62 {
        "pa"@
    } else if i == 63 {
        "si"@
    } else if i == 64 {
        "km"@
    } else if i == 65 {
        "sn"@
    } else if i == 66 {
        "yo"@
    } else if i == 67 {
        "so"@
    } else if i == 68 {
        "af"@
    } else if i == 69 {
        "oc"@
    } else if i == 70 {
        "ka"@
    } else if i == 71 {
        "be"@
    } else if i == 72 {
        "tg"@
    } else if i == 73 {
        "sd"@
    } else if i == 74 {
        "gu"@
    } else if i == 75 {
        "am"@
    } else if i == 76 {
        "yi"@
    } else if i == 77 {
        "lo"@
    } else if i == 78 {
        "uz"@
    } else if i == 79 {
        "fo"@
    } else if i == 80 {
        "ht"@
    } else if i == 81 {
        "ps"@
    } else if i == 82 {
        "tk"@
    } else if i == 83 {
        "nn"@
    } else if i == 84 {
        "mt"@
    } else if i == 85 {
        "sa"@
    } else if i == 86 {
        "lb"@
    } else if i == 87 {
        "my"@
    } else if i == 88 {
        "bo"@
    } else if i == 89 {
        "tl"@
    } else if i == 90 {
        "mg"@
    } else if i == 91 {
        "as"@
    } else if i == 92 {
        "tt"@
    } else if i == 93 {
        "haw"@
    } else if i == 94 {
        "ln"@
    } else if i == 95 {
        "ha"@
    } else if i == 96 {
        "ba"@
    } else if i == 97 {
        "jw"@
    } else {
        "su"@
    }
}

/// The language code at position `i` of the fixed list.
pub fn language_code(i: usize) -> (s: &'static str)
    requires
        i < 99,
    ensures
        s@ == spec_language(i as int),
{
    if i == 0 {
        "en"
    } else if i == 1 {
        "zh"
    } else if i == 2 {
        "de"
    } else if i == 3 {
        "es"
    } else if i == 4 {
        "ru"
    } else if i == 5 {
        "ko"
    } else if i == 6 {
        "fr"
    } else if i == 7 {
        "ja"
    } else if i == 8 {
        "pt"
    } else if i == 9 {
        "tr"
    } else if i == 10 {
        "pl"
    } else if i == 11 {
        "ca"
    } else if i == 12 {
        "nl"
    } else if i == 13 {
        "ar"
    } else if i == 14 {
        "sv"
    } else if i == 15 {
        "it"
    } else if i == 16 {
        "id"
    } else if i == 17 {
        "hi"
    } else if i == 18 {
        "fi"
    } else if i == 19 {
        "vi"
    } else if i == 20 {
        "he"
    } else if i == 21 {
        "uk"
    } else if i == 22 {
        "el"
    } else if i == 23 {
        "ms"
    } else if i == 24 {
        "cs"
    } else if i == 25 {
        "ro"
    } else if i == 26 {
        "da"
    } else if i == 27 {
        "hu"
    } else if i == 28 {
        "ta"
    } else if i == 29 {
        "no"
    } else if i == 30 {
        "th"
    } else if i == 31 {
        "ur"
    } else if i == 32 {
        "hr"
    } else if i == 33 {
        "bg"
    } else if i == 34 {
        "lt"
    } else if i == 35 {
        "la"
    } else if i == 36 {
        "mi"
    } else if i == 37 {
        "ml"
    } else if i == 38 {
        "cy"
    } else if i == 39 {
        "sk"
    } else if i == 40 {
        "te"
    } else if i == 41 {
        "fa"
    } else if i == 42 {
        "lv"
    } else if i == 43 {
        "bn"
    } else if i == 44 {
        "sr"
    } else if i == 45 {
        "az"
    } else if i == 46 {
        "sl"
    } else if i == 47 {
        "kn"
    } else if i == 48 {
        "et"
    } else if i == 49 {
        "mk"
    } else if i == 50 {
        "br"
    } else if i == 51 {
        "eu"
    } else if i == 52 {
        "is"
    } else if i == 53 {
        "hy"
    } else if i == 54 {
        "ne"
    } else if i == 55 {
        "mn"
    } else if i == 56 {
        "bs"
    } else if i == 57 {
        "kk"
    } else if i == 58 {
        "sq"
    } else if i == 59 {
        "sw"
    } else if i == 60 {
        "gl"
    } else if i == 61 {
        "mr"
    } else if i == 62 {
        "pa"
    } else if i == 63 {
        "si"
    } else if i == 64 {
        "km"
    } else if i == 65 {
        "sn"
    } else if i == 66 {
        "yo"
    } else if i == 67 {
        "so"
    } else if i == 68 {
        "af"
    } else if i == 69 {
        "oc"
    } else if i == 70 {
        "ka"
    } else if i == 71 {
        "be"
    } else if i == 72 {
        "tg"
    } else if i == 73 {
        "sd"
    } else if i == 74 {
        "gu"
    } else if i == 75 {
        "am"
    } else if i == 76 {
        "yi"
    } else if i == 77 {
        "lo"
    } else if i == 78 {
        "uz"
    } else if i == 79 {
        "fo"
    } else if i == 80 {
        "ht"
    } else if i == 81 {
        "ps"
    } else if i == 82 {
        "tk"
    } else if i == 83 {
        "nn"
    } else if i == 84 {
        "mt"
    } else if i == 85 {
        "sa"
    } else if i == 86 {
        "lb"
    } else if i == 87 {
        "my"
    } else if i == 88 {
        "bo"
    } else if i == 89 {
        "tl"
    } else if i == 90 {
        "mg"
    } else if i == 91 {
        "as"
    } else if i == 92 {
        "tt"
    } else if i == 93 {
        "haw"
    } else if i == 94 {
        "ln"
    } else if i == 95 {
        "ha"
    } else if i == 96 {
        "ba"
    } else if i == 97 {
        "jw"
    } else {
        "su"
    }
}
/// The name of a timestamp token: the time `i * 0.02` seconds — that is,
/// `2 * i` hundredths — written with exactly two decimal digits, between
/// `<|` and `|>`.
pub open spec fn timestamp_name(i: nat) -> Seq<char> {
    let c = 2 * i;
    "<|"@ + dec_string(c / 100) + "."@ + seq![digit_char((c % 100) / 10), digit_char(c % 10)]
        + "|>"@
}

/// Formats the name of the timestamp token for `i * 0.02` seconds.
pub fn timestamp_name_exec(i: usize) -> (s: String)
    requires
        i <= 1500,
    ensures
        s@ == timestamp_name(i as nat),
{
    let c = 2 * i;
    let whole = dec_string_exec(c / 100);
    let tenths = dec_string_exec((c % 100) / 10);
    let hundredths = dec_string_exec(c % 10);
    let s = String::from_str("<|").concat(whole.as_str()).concat(".").concat(
        tenths.as_str(),
    ).concat(hundredths.as_str()).concat("|>");
    proof {
        assert(s@ =~= timestamp_name(i as nat));
    }
    s
}

/// The name at position `i` of the speech-transcription family's fixed
/// enumeration: end-of-text, start-of-transcript, the 99 language tags,
/// six named controls, then the 1501 timestamp tokens.
pub open spec fn whisper_special_name(i: int) -> Seq<char> {
    if i == 0 {
        "<|endoftext|>"@
    } else if i == 1 {
        "<|startoftranscript|>"@
    } else if i < 101 {
        "<|"@ + spec_language(i - 2) + "|>"@
    } else if i == 101 {
        "<|translate|>"@
    } else if i == 102 {
        "<|transcribe|>"@
    } else if i == 103 {
        "<|startoflm|>"@
    } else if i == 104 {
        "<|startofprev|>"@
    } else if i == 105 {
        "<|nospeech|>"@
    } else if i == 106 {
        "<|notimestamps|>"@
    } else {
        timestamp_name((i - 107) as nat)
    }
}

/// The sequential special-token scheme: 1608 tokens whose identifiers
/// count up from the vocabulary size `n`, one per position, in the fixed
/// enumeration order.
pub open spec fn whisper_specials(n: nat) -> Seq<(Seq<char>, nat)> {
    Seq::new(1608, |i: int| (whisper_special_name(i), (n + i) as nat))
}

/// The mathematical content of a `Vec` of `(name, identifier)` pairs.
pub open spec fn specials_view(s: Seq<(String, usize)>) -> Seq<(Seq<char>, nat)> {
    Seq::new(s.len(), |i: int| (s[i].0@, s[i].1 as nat))
}

/// Appends one special token under the next free identifier and advances
/// the counter.
pub fn add_special_token(
    special_tokens: &mut Vec<(String, usize)>,
    token_index: &mut usize,
    token: &str,
)
    requires
        *old(token_index) < usize::MAX,
    ensures
        *final(token_index) == *old(token_index) + 1,
        specials_view(final(special_tokens)@) == specials_view(old(special_tokens)@).push(
            (token@, *old(token_index) as nat),
        ),
{
    special_tokens.push((String::from_str(token), *token_index));
    *token_index += 1;
    proof {
        assert(specials_view(special_tokens@) =~= specials_view(old(special_tokens)@).push(
            (token@, *old(token_index) as nat),
        ));
    }
}

/// Builds the speech-transcription family's special tokens. Identifiers
/// are a running counter that starts at the vocabulary size, so the first
/// token's identifier equals the vocabulary size and each later one is
/// greater by exactly one.
pub fn get_whisper_special_tokens(vocab: &VocabularyTable) -> (r: Vec<(String, usize)>)
    requires
        vocab@.len() + 1608 <= usize::MAX,
    ensures
        specials_view(r@) == whisper_specials(vocab@.len()),
{
    let ghost gn = vocab@.len();
    let mut special_tokens: Vec<(String, usize)> = Vec::new();
    let mut token_index: usize = vocab.len();
    add_special_token(&mut special_tokens, &mut token_index, "<|endoftext|>");
    proof {
        assert(specials_view(special_tokens@) =~= whisper_specials(gn).take(1));
    }
    add_special_token(&mut special_tokens, &mut token_index, "<|startoftranscript|>");
    proof {
        assert(specials_view(special_tokens@) =~= whisper_specials(gn).take(2));
    }
    let mut i: usize = 0;
    while i < 99
        invariant
            i <= 99,
            gn + 1608 <= usize::MAX,
            token_index == gn + 2 + i,
            specials_view(special_tokens@) == whisper_specials(gn).take(2 + i),
        decreases 99 - i,
    {
        let name = String::from_str("<|").concat(language_code(i)).concat("|>");
        add_special_token(&mut special_tokens, &mut token_index, name.as_str());
        proof {
            assert(whisper_special_name(2 + i as int) == "<|"@ + spec_language(i as int) + "|>"@);
            assert(specials_view(special_tokens@) =~= whisper_specials(gn).take(2 + i + 1));
        }
        i += 1;
    }
    add_special_token(&mut special_tokens, &mut token_index, "<|translate|>");
    proof {
        assert(specials_view(special_tokens@) =~= whisper_specials(gn).take(102));
    }
    add_special_token(&mut special_tokens, &mut token_index, "<|transcribe|>");
    proof {
        assert(specials_view(special_tokens@) =~= whisper_specials(gn).take(103));
    }
    add_special_token(&mut special_tokens, &mut token_index, "<|startoflm|>");
    proof {
        assert(specials_view(special_tokens@) =~= whisper_specials(gn).take(104));
    }
    add_special_token(&mut special_tokens, &mut token_index, "<|startofprev|>");
    proof {
        assert(specials_view(special_tokens@) =~= whisper_specials(gn).take(105));
    }
    add_special_token(&mut special_tokens, &mut token_index, "<|nospeech|>");
    proof {
        assert(specials_view(special_tokens@) =~= whisper_specials(gn).take(106));
    }
    add_special_token(&mut special_tokens, &mut token_index, "<|notimestamps|>");
    proof {
        assert(specials_view(special_tokens@) =~= whisper_specials(gn).take(107));
    }
    let mut t: usize = 0;
    while t < 1501
        invariant
            t <= 1501,
            gn + 1608 <= usize::MAX,
            token_index == gn + 107 + t,
            specials_view(special_tokens@) == whisper_specials(gn).take(107 + t),
        decreases 1501 - t,
    {
        let name = timestamp_name_exec(t);
        add_special_token(&mut special_tokens, &mut token_index, name.as_str());
        proof {
            assert(whisper_special_name(107 + t as int) == timestamp_name(t as nat));
            assert(specials_view(special_tokens@) =~= whisper_specials(gn).take(107 + t + 1));
        }
        t += 1;
    }
    proof {
        assert(whisper_specials(gn).take(1608) =~= whisper_specials(gn));
    }
    special_tokens
}

/// The fixed historical special tokens of the general-purpose and
/// code-model families: end-of-text alone.
pub open spec fn gpt2_specials() -> Seq<(Seq<char>, nat)> {
    seq![("<|endoftext|>"@, 50256 as nat)]
}

/// The code-edit family's fixed table: end-of-text and the three
/// fill-in-middle markers, under their published identifiers.
pub open spec fn p50k_edit_specials() -> Seq<(Seq<char>, nat)> {
    seq![
        ("<|endoftext|>"@, 50256 as nat),
        ("<|fim_prefix|>"@, 50281 as nat),
        ("<|fim_middle|>"@, 50282 as nat),
        ("<|fim_suffix|>"@, 50283 as nat),
    ]
}

/// The chat-model family's fixed table, under its published identifiers.
pub open spec fn cl100k_specials() -> Seq<(Seq<char>, nat)> {
    seq![
        ("<|endoftext|>"@, 100257 as nat),
        ("<|fim_prefix|>"@, 100258 as nat),
        ("<|fim_middle|>"@, 100259 as nat),
        ("<|fim_suffix|>"@, 100260 as nat),
        ("<|endofprompt|>"@, 100276 as nat),
    ]
}

/// Builds the general-purpose and code-model families' fixed table.
pub fn gpt2_special_tokens() -> (r: Vec<(String, usize)>)
    ensures
        specials_view(r@) == gpt2_specials(),
{
    let mut v: Vec<(String, usize)> = Vec::new();
    v.push((String::from_str("<|endoftext|>"), 50256));
    proof {
        assert(specials_view(v@) =~= gpt2_specials());
    }
    v
}

/// Builds the code-edit family's fixed table.
pub fn p50k_edit_special_tokens() -> (r: Vec<(String, usize)>)
    ensures
        specials_view(r@) == p50k_edit_specials(),
{
    let mut v: Vec<(String, usize)> = Vec::new();
    v.push((String::from_str("<|endoftext|>"), 50256));
    v.push((String::from_str("<|fim_prefix|>"), 50281));
    v.push((String::from_str("<|fim_middle|>"), 50282));
    v.push((String::from_str("<|fim_suffix|>"), 50283));
    proof {
        assert(specials_view(v@) =~= p50k_edit_specials());
    }
    v
}

/// Builds the chat-model family's fixed table.
pub fn cl100k_special_tokens() -> (r: Vec<(String, usize)>)
    ensures
        specials_view(r@) == cl100k_specials(),
{
    let mut v: Vec<(String, usize)> = Vec::new();
    v.push((String::from_str("<|endoftext|>"), 100257));
    v.push((String::from_str("<|fim_prefix|>"), 100258));
    v.push((String::from_str("<|fim_middle|>"), 100259));
    v.push((String::from_str("<|fim_suffix|>"), 100260));
    v.push((String::from_str("<|endofprompt|>"), 100276));
    proof {
        assert(specials_view(v@) =~= cl100k_specials());
    }
    v
}

/// Law: the fixed schemes reproduce the published identifiers bit for bit —
/// end-of-text is 50256 for the general-purpose and code-edit families, the
/// code-edit fill-in-middle markers are 50281, 50282 and 50283, and the
/// chat-model family's five tokens are 100257, 100258, 100259, 100260 and
/// 100276.
pub proof fn lemma_fixed_identifiers()
    ensures
        gpt2_specials()[0] == ("<|endoftext|>"@, 50256 as nat),
        p50k_edit_specials()[0] == ("<|endoftext|>"@, 50256 as nat),
        p50k_edit_specials()[1] == ("<|fim_prefix|>"@, 50281 as nat),
        p50k_edit_specials()[2] == ("<|fim_middle|>"@, 50282 as nat),
        p50k_edit_specials()[3] == ("<|fim_suffix|>"@, 50283 as nat),
        cl100k_specials()[0] == ("<|endoftext|>"@, 100257 as nat),
        cl100k_specials()[1] == ("<|fim_prefix|>"@, 100258 as nat),
        cl100k_specials()[2] == ("<|fim_middle|>"@, 100259 as nat),
        cl100k_specials()[3] == ("<|fim_suffix|>"@, 100260 as nat),
        cl100k_specials()[4] == ("<|endofprompt|>"@, 100276 as nat),
{
}

/// Law: under the sequential scheme the end-of-text identifier equals the
/// vocabulary size exactly, and start-of-transcript equals it plus one.
pub proof fn lemma_whisper_anchor_ids(n: nat)
    ensures
        whisper_specials(n)[0] == ("<|endoftext|>"@, n),
        whisper_specials(n)[1] == ("<|startoftranscript|>"@, (n + 1) as nat),
{
}

/// Law: position `i` of the sequential scheme always gets identifier
/// `n + i` — allocation order fully determines the identifiers, each one
/// greater than the previous by one, with no gaps.
pub proof fn lemma_whisper_sequential_ids(n: nat, i: int)
    requires
        0 <= i < 1608,
    ensures
        whisper_specials(n)[i].1 == n + i,
        i > 0 ==> whisper_specials(n)[i].1 == whisper_specials(n)[i - 1].1 + 1,
{
}

/// Law: the language tags sit at positions 2..101, one per entry of the
/// fixed language list, in exactly the declared list order.
pub proof fn lemma_whisper_language_ids(n: nat, i: int)
    requires
        2 <= i < 101,
    ensures
        whisper_specials(n)[i] == ("<|"@ + spec_language(i - 2) + "|>"@, (n + i) as nat),
{
}

/// Law: positions 107..1608 hold the 1501 timestamp names, for `i` from 0
/// to 1500 in ascending order, each the time `i * 0.02` seconds written
/// with exactly two decimal digits.
pub proof fn lemma_whisper_timestamp_names(n: nat, i: int)
    requires
        0 <= i <= 1500,
    ensures
        whisper_specials(n)[107 + i] == (timestamp_name(i as nat), (n + 107 + i) as nat),
        timestamp_name(i as nat) == "<|"@ + dec_string((2 * i as nat) / 100) + "."@ + seq![
            digit_char(((2 * i as nat) % 100) / 10),
            digit_char((2 * i as nat) % 10),
        ] + "|>"@,
{
}

} // verus!
