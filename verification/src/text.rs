//! The text transformation: literal replacement rules applied in order, then
//! folding of fullwidth characters to their half-width forms.

use regex::Captures;
use regex::Regex;
use vstd::prelude::*;
use vstd::std_specs::iter::IteratorSpec;

verus! {

/// First character of the fold range, fullwidth exclamation mark.
pub const FOLD_FIRST: char = '\u{FF01}';

/// Last character of the fold range, fullwidth tilde.
pub const FOLD_LAST: char = '\u{FF5E}';

/// Distance between a fullwidth character and its half-width form.
pub const FOLD_OFFSET: u32 = 0xFEE0;

/// The pattern of the character class that spans the fold range.
pub const FOLD_PATTERN: &'static str = "[\u{FF01}-\u{FF5E}]";

/// One replacement rule: every occurrence of `original` becomes
/// `replacement`.
#[derive(Clone, Debug)]
pub struct ReplacementRule {
    pub original: String,
    pub replacement: String,
}

impl View for ReplacementRule {
    type V = (Seq<char>, Seq<char>);

    open spec fn view(&self) -> (Seq<char>, Seq<char>) {
        (self.original@, self.replacement@)
    }
}

impl ReplacementRule {
    /// The rule that turns `original` into `replacement`.
    pub fn new(original: String, replacement: String) -> (rule: ReplacementRule)
        ensures
            rule@ == (original@, replacement@),
    {
        ReplacementRule { original, replacement }
    }
}

/// Why a text could not be folded.
#[derive(Clone, Copy, Debug, PartialEq, Eq, Structural)]
pub enum FormatError {
    /// There is no compiled pattern of the fold range to fold with.
    Pattern,
}

impl FormatError {
    /// The error in words.
    pub fn message(&self) -> (text: String)
        ensures
            text@ == "Failed to create regex pattern"@,
    {
        "Failed to create regex pattern".to_owned()
    }
}

/// Whether `c` lies in the fold range.
pub open spec fn in_fold_range(c: char) -> bool {
    FOLD_FIRST <= c <= FOLD_LAST
}

/// The half-width form of a character of the fold range.
pub open spec fn half_width(c: char) -> char {
    (c as int - FOLD_OFFSET as int) as char
}

/// What folding makes of one character: its half-width form where it lies in
/// the fold range and is not excluded, the character itself otherwise.
pub open spec fn fold_char(c: char, exclusions: Set<char>) -> char {
    if in_fold_range(c) && !exclusions.contains(c) {
        half_width(c)
    } else {
        c
    }
}

/// What folding makes of a text: every character folded, in place.
pub open spec fn fold_text(text: Seq<char>, exclusions: Set<char>) -> Seq<char> {
    Seq::new(text.len(), |i: int| fold_char(text[i], exclusions))
}

/// What replaces one match of the fold pattern: the fold of its first
/// character.
pub open spec fn fold_match_spec(matched: Seq<char>, exclusions: Set<char>) -> Seq<char> {
    if matched.len() == 0 {
        matched
    } else {
        seq![fold_char(matched[0], exclusions)]
    }
}

/// Whether `pattern` stands in `text` at index `at`.
pub open spec fn occurs_at(text: Seq<char>, at: int, pattern: Seq<char>) -> bool {
    0 <= at && at + pattern.len() <= text.len() && text.subrange(at, at + pattern.len())
        == pattern
}

/// What replacing every occurrence of `from` in `text` by `to` gives. The
/// text is read from the left; an occurrence found is replaced whole and the
/// reading goes on behind it, so occurrences that are replaced never overlap
/// and what a replacement puts in is not read again. An empty `from` occurs
/// nowhere.
pub open spec fn replaced(text: Seq<char>, from: Seq<char>, to: Seq<char>) -> Seq<char>
    decreases text.len(),
{
    if from.len() == 0 || text.len() < from.len() {
        text
    } else if text.take(from.len() as int) == from {
        to + replaced(text.skip(from.len() as int), from, to)
    } else {
        seq![text[0]] + replaced(text.skip(1), from, to)
    }
}

/// The rules of a collection as pairs of texts, in the collection's order.
pub open spec fn rules_view(rules: Seq<ReplacementRule>) -> Seq<(Seq<char>, Seq<char>)> {
    Seq::new(rules.len(), |i: int| rules[i]@)
}

/// What the rules make of a text when each is applied to the outcome of the
/// one before it, first rule first.
pub open spec fn apply_rules(text: Seq<char>, rules: Seq<(Seq<char>, Seq<char>)>) -> Seq<char>
    decreases rules.len(),
{
    if rules.len() == 0 {
        text
    } else {
        replaced(apply_rules(text, rules.drop_last()), rules.last().0, rules.last().1)
    }
}

/// The transformed text: the rules applied in order, then the outcome folded.
pub open spec fn format_spec(
    text: Seq<char>,
    rules: Seq<(Seq<char>, Seq<char>)>,
    exclusions: Set<char>,
) -> Seq<char> {
    fold_text(apply_rules(text, rules), exclusions)
}

/// `String::push`: appends one character to the end of the string.
pub assume_specification[ String::push ](s: &mut String, ch: char)
    ensures
        final(s)@ == old(s)@.push(ch),
;

/// `regex::Regex`, a compiled regular expression. Nothing is visible of it
/// but the pattern that it was made from.
#[verifier::external_type_specification]
#[verifier::external_body]
pub struct ExRegex(regex::Regex);

/// `regex::Error`, the reason why a pattern was not compiled. Nothing is
/// visible of it.
#[verifier::external_type_specification]
#[verifier::external_body]
pub struct ExRegexError(regex::Error);

/// The pattern that a compiled regex was made from, as `Regex::as_str`
/// returns it.
pub uninterp spec fn regex_pattern(re: Regex) -> Seq<char>;

/// `Regex::new`: compiles `pattern`. A regex that comes back was made from
/// `pattern`. For the fold pattern one does come back: the pattern is a single
/// character class, a range between two literal characters, which the engine's
/// parser accepts and whose compiled form lies far below the engine's default
/// size limit. Of any other pattern it is left open whether one comes back:
/// the engine refuses a pattern that is invalid or grows over that limit.
#[verifier::external_body]
fn compile_pattern(pattern: &str) -> (compiled: Result<Regex, regex::Error>)
    ensures
        compiled matches Ok(re) ==> regex_pattern(re) == pattern@,
        pattern@ == FOLD_PATTERN@ ==> compiled is Ok,
{
    Regex::new(pattern)
}

/// `Regex::replace_all` on a regex made from the fold pattern, with a replacer
/// that hands the text of each match to `fold_match`. The engine copies the
/// haystack and puts in place of each match what the replacer returns. The
/// fold pattern is one character class, so its matches are the single
/// characters of the fold range, each a match of its own: the result is the
/// haystack with each such character replaced by its fold. Folding leaves
/// every other character as it is, so this is the fold of the whole text.
#[verifier::external_body]
fn replace_matches(re: &Regex, text: &str, exclusions: &[char]) -> (out: String)
    requires
        regex_pattern(*re) == FOLD_PATTERN@,
    ensures
        out@ == fold_text(text@, exclusions@.to_set()),
{
    re.replace_all(text, |caps: &Captures| fold_match(&caps[0], exclusions)).into_owned()
}

/// The characters of `s`, in order.
pub fn to_chars(s: &str) -> (chars: Vec<char>)
    ensures
        chars@ == s@,
{
    let mut chars: Vec<char> = Vec::new();
    for c in it: s.chars()
        invariant
            it.seq() == s@,
            chars@ == s@.take(it.index() as int),
    {
        chars.push(c);
    }
    chars
}

/// The string made of `chars`, in order.
pub fn from_chars(chars: &[char]) -> (s: String)
    ensures
        s@ == chars@,
{
    let mut s = String::new();
    let mut i: usize = 0;
    while i < chars.len()
        invariant
            i <= chars.len(),
            s@ == chars@.take(i as int),
        decreases chars.len() - i,
    {
        s.push(chars[i]);
        i += 1;
    }
    s
}

/// Whether `c` occurs in `list`.
pub fn contains_char(list: &[char], c: char) -> (found: bool)
    ensures
        found == list@.to_set().contains(c),
{
    let mut i: usize = 0;
    while i < list.len()
        invariant
            i <= list.len(),
            forall|j: int| 0 <= j < i ==> list@[j] != c,
        decreases list.len() - i,
    {
        if list[i] == c {
            return true;
        }
        i += 1;
    }
    false
}

/// Folds one character.
pub fn fold_one(c: char, exclusions: &[char]) -> (folded: char)
    ensures
        folded == fold_char(c, exclusions@.to_set()),
{
    if FOLD_FIRST <= c && c <= FOLD_LAST && !contains_char(exclusions, c) {
        let narrow: u8 = (c as u32 - FOLD_OFFSET) as u8;
        narrow as char
    } else {
        c
    }
}

/// The replacement of one match: the fold of its first character.
pub fn fold_match(matched: &str, exclusions: &[char]) -> (out: String)
    ensures
        out@ == fold_match_spec(matched@, exclusions@.to_set()),
{
    let mut out = String::new();
    let mut it = matched.chars();
    match it.next() {
        Some(c) => {
            out.push(fold_one(c, exclusions));
        },
        None => {},
    }
    out
}

/// Tests whether `pattern` stands in `text` at index `at`.
pub fn matches_at(text: &[char], at: usize, pattern: &[char]) -> (found: bool)
    requires
        at + pattern@.len() <= text@.len(),
    ensures
        found == occurs_at(text@, at as int, pattern@),
{
    let mut k: usize = 0;
    while k < pattern.len()
        invariant
            k <= pattern.len(),
            at + pattern.len() <= text.len(),
            forall|j: int| 0 <= j < k ==> text@[at + j] == pattern@[j],
        decreases pattern.len() - k,
    {
        if text[at + k] != pattern[k] {
            assert(text@.subrange(at as int, at + pattern@.len())[k as int] == text@[at + k]);
            return false;
        }
        k += 1;
    }
    assert(text@.subrange(at as int, at + pattern@.len()) =~= pattern@);
    true
}

/// Appends the characters of `tail` to `out`.
pub fn append_chars(out: &mut Vec<char>, tail: &[char])
    ensures
        final(out)@ == old(out)@ + tail@,
{
    let mut k: usize = 0;
    while k < tail.len()
        invariant
            k <= tail.len(),
            out@ == old(out)@ + tail@.take(k as int),
        decreases tail.len() - k,
    {
        out.push(tail[k]);
        k += 1;
    }
}

/// Replaces every occurrence of `from` in `text` by `to`, reading from the
/// left.
pub fn replace_all(text: &[char], from: &[char], to: &[char]) -> (out: Vec<char>)
    ensures
        out@ == replaced(text@, from@, to@),
{
    let mut out: Vec<char> = Vec::new();
    let mut i: usize = 0;
    assert(text@.skip(0) =~= text@);
    if from.len() > 0 {
        while text.len() - i >= from.len()
            invariant
                i <= text.len(),
                from.len() > 0,
                out@ + replaced(text@.skip(i as int), from@, to@) == replaced(text@, from@, to@),
            decreases text.len() - i,
        {
            let ghost rest = text@.skip(i as int);
            if matches_at(text, i, from) {
                assert(rest.take(from@.len() as int) =~= text@.subrange(
                    i as int,
                    i + from@.len(),
                ));
                assert(rest.skip(from@.len() as int) =~= text@.skip(i + from@.len()));
                append_chars(&mut out, to);
                i += from.len();
            } else {
                assert(rest.take(from@.len() as int) =~= text@.subrange(
                    i as int,
                    i + from@.len(),
                ));
                assert(rest.skip(1) =~= text@.skip(i + 1));
                out.push(text[i]);
                i += 1;
            }
        }
    }
    let mut tail: usize = i;
    while tail < text.len()
        invariant
            i <= tail <= text.len(),
            from.len() == 0 || text.len() - i < from.len(),
            out@ + text@.skip(tail as int) == replaced(text@, from@, to@),
        decreases text.len() - tail,
    {
        out.push(text[tail]);
        assert(text@.skip(tail as int) =~= seq![text@[tail as int]] + text@.skip(tail + 1));
        tail += 1;
    }
    out
}

/// Applies the rules to `text` in order, each to the outcome of the one before.
pub fn apply_replacements(text: &str, replacements: &[ReplacementRule]) -> (out: String)
    ensures
        out@ == apply_rules(text@, rules_view(replacements@)),
{
    let mut working = to_chars(text);
    let mut i: usize = 0;
    assert(rules_view(replacements@).take(0) =~= Seq::empty());
    while i < replacements.len()
        invariant
            i <= replacements.len(),
            working@ == apply_rules(text@, rules_view(replacements@).take(i as int)),
        decreases replacements.len() - i,
    {
        let rule = &replacements[i];
        let from = to_chars(rule.original.as_str());
        let to = to_chars(rule.replacement.as_str());
        let ghost done = rules_view(replacements@).take(i as int);
        let ghost next = rules_view(replacements@).take(i + 1);
        assert(next.drop_last() =~= done);
        assert(next.last() == rule@);
        working = replace_all(working.as_slice(), from.as_slice(), to.as_slice());
        i += 1;
    }
    assert(rules_view(replacements@).take(i as int) =~= rules_view(replacements@));
    from_chars(working.as_slice())
}

/// Folds `text` with a compiled fold pattern, or reports that there is none.
pub fn fold_with(compiled: Result<Regex, regex::Error>, text: &str, exclusion_list: &[char]) -> (out:
    Result<String, FormatError>)
    requires
        compiled matches Ok(re) ==> regex_pattern(re) == FOLD_PATTERN@,
    ensures
        compiled is Ok ==> (out matches Ok(folded) && folded@ == fold_text(
            text@,
            exclusion_list@.to_set(),
        )),
        compiled is Err ==> out == Err::<String, FormatError>(FormatError::Pattern),
{
    match compiled {
        Ok(re) => Ok(replace_matches(&re, text, exclusion_list)),
        Err(_) => Err(FormatError::Pattern),
    }
}

/// Transforms `text`: applies the replacement rules in order, then folds every
/// character of the fold range that is not excluded. The transformation is
/// total: the result is `Ok` for every input.
pub fn format_text(text: &str, replacements: &[ReplacementRule], exclusion_list: &[char]) -> (out:
    Result<String, FormatError>)
    ensures
        out matches Ok(formatted) && formatted@ == format_spec(
            text@,
            rules_view(replacements@),
            exclusion_list@.to_set(),
        ),
{
    let working = apply_replacements(text, replacements);
    fold_with(compile_pattern(FOLD_PATTERN), working.as_str(), exclusion_list)
}

/// A character of the fold range has a printable ASCII character as its
/// half-width form, which lies outside the fold range.
pub proof fn half_width_is_ascii(c: char)
    requires
        in_fold_range(c),
    ensures
        0x21 <= half_width(c) as int <= 0x7E,
        half_width(c) as int == c as int - 0xFEE0,
        !in_fold_range(half_width(c)),
{
}

/// Folding a folded text changes nothing: with no rules, transforming twice
/// gives what transforming once gives, whatever is excluded.
pub proof fn folding_is_idempotent(text: Seq<char>, exclusions: Set<char>)
    ensures
        format_spec(format_spec(text, Seq::empty(), exclusions), Seq::empty(), exclusions)
            == format_spec(text, Seq::empty(), exclusions),
{
    let once = format_spec(text, Seq::empty(), exclusions);
    let twice = format_spec(once, Seq::empty(), exclusions);
    assert forall|i: int| 0 <= i < text.len() implies twice[i] == once[i] by {
        if in_fold_range(text[i]) && !exclusions.contains(text[i]) {
            half_width_is_ascii(text[i]);
        }
    }
    assert(twice =~= once);
}

/// The exclusion set decides the fate of each character of the fold range:
/// with no rules, the transformed text has the length of the text, an
/// excluded character of the fold range stands unchanged in its place, and
/// one that is not excluded is replaced by the character 0xFEE0 below it.
pub proof fn exclusion_decides_fold(text: Seq<char>, exclusions: Set<char>, i: int)
    requires
        0 <= i < text.len(),
        in_fold_range(text[i]),
    ensures
        format_spec(text, Seq::empty(), exclusions).len() == text.len(),
        exclusions.contains(text[i]) ==> format_spec(text, Seq::empty(), exclusions)[i] == text[i],
        !exclusions.contains(text[i]) ==> format_spec(text, Seq::empty(), exclusions)[i] as int
            == text[i] as int - 0xFEE0,
{
    half_width_is_ascii(text[i]);
}

/// A text without characters of the fold range passes unchanged where there
/// are no rules.
pub proof fn text_outside_fold_range_is_kept(text: Seq<char>, exclusions: Set<char>)
    requires
        forall|i: int| 0 <= i < text.len() ==> !in_fold_range(text[i]),
    ensures
        format_spec(text, Seq::empty(), exclusions) == text,
{
    assert(format_spec(text, Seq::empty(), exclusions) =~= text);
}

/// A text in which `from` stands nowhere is left as it is.
pub proof fn text_without_occurrence_is_kept(text: Seq<char>, from: Seq<char>, to: Seq<char>)
    requires
        forall|at: int| !occurs_at(text, at, from),
    ensures
        replaced(text, from, to) == text,
    decreases text.len(),
{
    if from.len() == 0 || text.len() < from.len() {
    } else {
        assert(!occurs_at(text, 0, from));
        assert(text.take(from.len() as int) =~= text.subrange(0, from.len() as int));
        let rest = text.skip(1);
        assert forall|at: int| !occurs_at(rest, at, from) by {
            if occurs_at(rest, at, from) {
                assert(rest.subrange(at, at + from.len()) =~= text.subrange(
                    at + 1,
                    at + 1 + from.len(),
                ));
                assert(occurs_at(text, at + 1, from));
            }
        }
        text_without_occurrence_is_kept(rest, from, to);
        assert(seq![text[0]] + rest =~= text);
    }
}

/// The empty text stays empty, whatever the rules and the exclusions.
pub proof fn empty_text_stays_empty(rules: Seq<(Seq<char>, Seq<char>)>, exclusions: Set<char>)
    ensures
        format_spec(Seq::empty(), rules, exclusions) == Seq::<char>::empty(),
    decreases rules.len(),
{
    if rules.len() > 0 {
        empty_text_stays_empty(rules.drop_last(), exclusions);
        assert(apply_rules(Seq::empty(), rules.drop_last()) =~= Seq::<char>::empty()) by {
            assert(fold_text(apply_rules(Seq::empty(), rules.drop_last()), exclusions).len()
                == 0);
        }
    }
    assert(format_spec(Seq::empty(), rules, exclusions) =~= Seq::<char>::empty());
}

} // verus!
