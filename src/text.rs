//! Hebrew letters and the removal of existing marks from an input text.

use vstd::prelude::*;

verus! {

/// First letter of the Hebrew alphabet, alef.
pub const ALEF: char = '\u{05d0}';

/// Last letter of the Hebrew alphabet, tav.
pub const TAV: char = '\u{05ea}';

/// The letter shin, the one letter that takes a shin or sin dot.
pub const SHIN: char = '\u{05e9}';

/// The character that marks a prefix boundary in annotated text.
pub const PREFIX_BAR: char = '|';

/// A base letter of the Hebrew alphabet, alef through tav.
pub open spec fn hebrew_letter(c: char) -> bool {
    ALEF as u32 <= c as u32 <= TAV as u32
}

/// One of the letters alef, vav and yod, which can stand for a vowel.
pub open spec fn matres_letter(c: char) -> bool {
    c == '\u{05d0}' || c == '\u{05d5}' || c == '\u{05d9}'
}

/// A character that cleanup removes: one of the Hebrew block's marks and
/// punctuation (U+0590 to U+05C7) or the prefix bar.
pub open spec fn removed_by_cleanup(c: char) -> bool {
    (0x0590 <= c as u32 <= 0x05c7) || c == PREFIX_BAR
}

/// The input with every character that cleanup removes taken out, and all
/// others kept in their order.
pub open spec fn cleaned(s: Seq<char>) -> Seq<char> {
    s.filter(|c: char| !removed_by_cleanup(c))
}

/// The pattern handed to the regex engine: one character of the marks
/// range or the prefix bar.
pub open spec fn cleanup_pattern() -> Seq<char> {
    "[\u{0590}-\u{05C7}|]"@
}

pub fn is_hebrew_letter(ch: char) -> (r: bool)
    ensures
        r == hebrew_letter(ch),
{
    let ord = ch as u32;
    ALEF as u32 <= ord && ord <= TAV as u32
}

pub fn is_matres_letter(ch: char) -> (r: bool)
    ensures
        r == matres_letter(ch),
{
    ch == '\u{05d0}' || ch == '\u{05d5}' || ch == '\u{05d9}'
}

/// Relies on `regex::Regex::new` and `regex::Regex::replace_all`: the class
/// `[\u{0590}-\u{05C7}|]` is a valid pattern (compiling it does not fail),
/// each of its matches is one character of that range or `|`, and replacing
/// every match with the empty string deletes exactly those characters and
/// keeps the others in order.
#[verifier::external_body]
fn regex_delete_all(pattern: &str, text: &str) -> (r: String)
    requires
        pattern@ == cleanup_pattern(),
    ensures
        r@ == text@.filter(|c: char| !removed_by_cleanup(c)),
{
    let re = regex::Regex::new(pattern).unwrap();
    re.replace_all(text, "").into_owned()
}

/// Removes every existing diacritic (U+0590 to U+05C7) and every prefix bar,
/// leaving base letters and all other characters untouched.
pub fn remove_nikud(text: &str) -> (r: String)
    ensures
        r@ == cleaned(text@),
{
    regex_delete_all("[\u{0590}-\u{05C7}|]", text)
}

proof fn lemma_cleaned_has_nothing_removed(s: Seq<char>)
    ensures
        forall|i: int| 0 <= i < cleaned(s).len() ==> !removed_by_cleanup(#[trigger] cleaned(s)[i]),
{
    broadcast use Seq::lemma_filter_pred;
}

proof fn lemma_filter_keeps_all(s: Seq<char>)
    requires
        forall|i: int| 0 <= i < s.len() ==> !removed_by_cleanup(#[trigger] s[i]),
    ensures
        cleaned(s) == s,
    decreases s.len(),
{
    reveal(Seq::filter);
    if s.len() > 0 {
        assert forall|i: int| 0 <= i < s.drop_last().len() implies !removed_by_cleanup(
            #[trigger] s.drop_last()[i],
        ) by {
            assert(s.drop_last()[i] == s[i]);
        }
        lemma_filter_keeps_all(s.drop_last());
        assert(s.drop_last().push(s.last()) =~= s);
    }
}

/// Cleanup is idempotent: cleaning an already cleaned text changes nothing.
pub proof fn lemma_cleanup_idempotent(s: Seq<char>)
    ensures
        cleaned(cleaned(s)) == cleaned(s),
{
    lemma_cleaned_has_nothing_removed(s);
    lemma_filter_keeps_all(cleaned(s));
}

/// A text that holds no Hebrew mark and no prefix bar (digits, punctuation,
/// Latin letters, Hebrew base letters) comes out of cleanup unchanged.
pub proof fn lemma_cleanup_keeps_plain_text(s: Seq<char>)
    requires
        forall|i: int| 0 <= i < s.len() ==> !removed_by_cleanup(#[trigger] s[i]),
    ensures
        cleaned(s) == s,
{
    lemma_filter_keeps_all(s);
}

} // verus!
