//! Numbering patterns (`1.a)`, `{upper-roman}.`) and numberings.

use vstd::prelude::*;
use ecow::{EcoString, EcoVec};
use crate::eco::{
    eco_as_str, eco_chars, eco_from_str, eco_new, eco_push_str, piece_entries, pieces_get,
    pieces_len, pieces_new, pieces_push,
};
use crate::kind::{kind_named, kind_of_symbol, kind_text, name_of, NumberingKind};

verus! {

/// What a numbering pattern holds: the prefix and kind of each counting
/// symbol, the suffix, and whether the first prefix and the suffix are
/// left out.
#[verifier::ext_equal]
pub struct PatternView {
    pub pieces: Seq<(Seq<char>, NumberingKind)>,
    pub suffix: Seq<char>,
    pub trimmed: bool,
}

/// How to turn a number into text.
///
/// A pattern consists of a prefix, followed by one of the counting symbols
/// (see [`NumberingKind::from_char`]), and then a suffix.
///
/// Examples of valid patterns:
/// - `1)`
/// - `a.`
/// - `(I)`
#[derive(Debug, Clone, PartialEq, Eq, Hash)]
pub struct NumberingPattern {
    pub pieces: EcoVec<(EcoString, NumberingKind)>,
    pub suffix: EcoString,
    trimmed: bool,
}

impl View for NumberingPattern {
    type V = PatternView;

    closed spec fn view(&self) -> PatternView {
        PatternView {
            pieces: piece_entries(self.pieces),
            suffix: eco_chars(self.suffix),
            trimmed: self.trimmed,
        }
    }
}

/// The text for the `i`-th number: the prefix of the `i`-th counting symbol
/// (left out for the first one of a trimmed pattern) and the number in that
/// symbol's kind. Numbers past the last counting symbol repeat the last
/// one with its prefix.
pub open spec fn segment(p: PatternView, numbers: Seq<usize>, i: int) -> Seq<char> {
    if i < p.pieces.len() {
        (if i > 0 || !p.trimmed {
            p.pieces[i].0
        } else {
            Seq::empty()
        }) + kind_text(p.pieces[i].1, numbers[i])
    } else {
        let last = p.pieces.last();
        last.0 + kind_text(last.1, numbers[i])
    }
}

/// The texts of the first `count` numbers, one after the other.
pub open spec fn segments(p: PatternView, numbers: Seq<usize>, count: nat) -> Seq<char>
    decreases count,
{
    if count == 0 {
        Seq::empty()
    } else {
        segments(p, numbers, (count - 1) as nat) + segment(p, numbers, count - 1)
    }
}

/// The text of a pattern applied to `numbers`: the texts of all numbers,
/// then the suffix unless the pattern is trimmed. A pattern without
/// counting symbols writes no number.
pub open spec fn pattern_text(p: PatternView, numbers: Seq<usize>) -> Seq<char> {
    (if p.pieces.len() == 0 {
        Seq::empty()
    } else {
        segments(p, numbers, numbers.len())
    }) + (if p.trimmed {
        Seq::empty()
    } else {
        p.suffix
    })
}

/// The text of a pattern's `k`-th segment alone for `number`: the first
/// prefix, the number in the kind of the `k`-th counting symbol (the last
/// one past the end), and the suffix.
pub open spec fn kth_text(p: PatternView, k: usize, number: usize) -> Seq<char> {
    if p.pieces.len() == 0 {
        p.suffix
    } else {
        let kind = if k < p.pieces.len() {
            p.pieces[k as int].1
        } else {
            p.pieces.last().1
        };
        p.pieces[0].0 + kind_text(kind, number) + p.suffix
    }
}

/// Where reading a pattern stands after some of its characters: the pieces
/// found so far, the position up to which the pattern is used up, and the
/// position of the last `{` read (in the verbose form).
pub struct ScanState {
    pub pieces: Seq<(Seq<char>, NumberingKind)>,
    pub handled: int,
    pub brace: Option<int>,
}

/// The state before the first character.
pub open spec fn scan_start() -> ScanState {
    ScanState { pieces: Seq::empty(), handled: 0, brace: None }
}

/// Whether `c` is encoded in UTF-8 as a single byte.
pub open spec fn is_single_byte(c: char) -> bool {
    (c as u32) < 128
}

/// Reading the character at position `k` of `s`, in the verbose form
/// (`{name}` marks a counting symbol) or the plain one (counting symbols
/// are single characters).
///
/// In either form a `}` closes a name: the one that starts after the last
/// `{`, or, when no `{` was read, the one that starts after the first
/// character. A name that is a kind's name adds a piece whose prefix runs
/// from the used-up position to that `{` (to the start when there is
/// none). The `}` is kept as text when its name is no kind's name, and
/// also where the name or the prefix would not fit: the name would start
/// after the `}` or inside a first character of more than one byte, or the
/// prefix would end before the used-up position.
pub open spec fn scan_step(s: Seq<char>, verbose: bool, st: ScanState, k: int) -> ScanState {
    let c = s[k];
    if c == '}' {
        let name_start = match st.brace {
            Some(j) => j + 1,
            None => 1,
        };
        let prefix_end = match st.brace {
            Some(j) => j,
            None => 0,
        };
        if st.brace is None && (k == 0 || !is_single_byte(s[0])) {
            st
        } else {
            match kind_named(s.subrange(name_start, k)) {
                Some(kind) if st.handled <= prefix_end => ScanState {
                    pieces: st.pieces.push((s.subrange(st.handled, prefix_end), kind)),
                    handled: k + 1,
                    brace: st.brace,
                },
                _ => st,
            }
        }
    } else if c == '{' && verbose {
        ScanState { pieces: st.pieces, handled: st.handled, brace: Some(k) }
    } else if !verbose {
        match kind_of_symbol(c) {
            None => st,
            Some(kind) => ScanState {
                pieces: st.pieces.push((s.subrange(st.handled, k), kind)),
                handled: k + 1,
                brace: st.brace,
            },
        }
    } else {
        st
    }
}

/// Reading the characters from position `k` up to `end`.
pub open spec fn scan(s: Seq<char>, verbose: bool, st: ScanState, k: int, end: int) -> ScanState
    decreases end - k,
{
    if k >= end {
        st
    } else {
        scan(s, verbose, scan_step(s, verbose, st, k), k + 1, end)
    }
}

/// The position of the first `{` at or after `k`, or the length of `s`.
pub open spec fn first_brace(s: Seq<char>, k: int) -> int
    decreases s.len() - k,
{
    if k >= s.len() {
        s.len() as int
    } else if s[k] == '{' {
        k
    } else {
        first_brace(s, k + 1)
    }
}

/// Reading the pattern `s`: in the verbose form where it holds a `{`, else
/// in the plain form. There is no pattern (`None`) when no counting symbol
/// is found; the suffix is what follows the last piece.
pub open spec fn parse_outcome(s: Seq<char>) -> Option<PatternView> {
    let verbose = first_brace(s, 0) < s.len();
    let last = scan(s, verbose, scan_start(), 0, s.len() as int);
    if last.pieces.len() == 0 {
        None
    } else {
        Some(
            PatternView {
                pieces: last.pieces,
                suffix: s.subrange(last.handled, s.len() as int),
                trimmed: false,
            },
        )
    }
}

/// Reads `pattern` in the verbose or the plain form.
fn scan_pattern(pattern: &str, verbose: bool) -> (res: (EcoVec<(EcoString, NumberingKind)>, usize))
    ensures
        scan(pattern@, verbose, scan_start(), 0, pattern@.len() as int).pieces == piece_entries(res.0),
        scan(pattern@, verbose, scan_start(), 0, pattern@.len() as int).handled == res.1,
        res.1 <= pattern@.len(),
{
    let ghost s = pattern@;
    let end = pattern.unicode_len();
    let mut pieces = pieces_new();
    let mut handled: usize = 0;
    let mut brace: Option<usize> = None;
    let mut k: usize = 0;
    while k < end
        invariant
            s == pattern@,
            end == s.len(),
            k <= end,
            handled <= k,
            brace matches Some(j) ==> j < k,
            scan(s, verbose, scan_start(), 0, end as int) == scan(
                s,
                verbose,
                ScanState {
                    pieces: piece_entries(pieces),
                    handled: handled as int,
                    brace: match brace {
                        Some(j) => Some(j as int),
                        None => None,
                    },
                },
                k as int,
                end as int,
            ),
        decreases end - k,
    {
        let c = pattern.get_char(k);
        if c == '}' {
            let name_fits = match brace {
                Some(_) => true,
                None => k > 0 && (pattern.get_char(0) as u32) < 128,
            };
            if name_fits {
                let (name_start, prefix_end) = match brace {
                    Some(j) => (j + 1, j),
                    None => (1, 0),
                };
                let name = pattern.substring_char(name_start, k);
                if let Some(kind) = NumberingKind::from_name(name) {
                    if handled <= prefix_end {
                        let prefix = eco_from_str(pattern.substring_char(handled, prefix_end));
                        pieces_push(&mut pieces, (prefix, kind));
                        handled = k + 1;
                    }
                }
            }
        } else if c == '{' && verbose {
            brace = Some(k);
        } else if !verbose {
            if let Some(kind) = NumberingKind::from_char(c) {
                let prefix = eco_from_str(pattern.substring_char(handled, k));
                pieces_push(&mut pieces, (prefix, kind));
                handled = k + 1;
            }
        }
        k = k + 1;
    }
    (pieces, handled)
}

/// The position of the first `{` in `pattern`, or its length.
fn find_brace(pattern: &str) -> (res: usize)
    ensures
        res == first_brace(pattern@, 0),
        res <= pattern@.len(),
{
    let len = pattern.unicode_len();
    let mut k: usize = 0;
    while k < len
        invariant
            len == pattern@.len(),
            k <= len,
            first_brace(pattern@, 0) == first_brace(pattern@, k as int),
        decreases len - k,
    {
        if pattern.get_char(k) == '{' {
            return k;
        }
        k = k + 1;
    }
    k
}

/// The text form of a list of pieces: each prefix followed by the name of
/// its kind.
pub open spec fn named_form(pieces: Seq<(Seq<char>, NumberingKind)>) -> Seq<char>
    decreases pieces.len(),
{
    if pieces.len() == 0 {
        Seq::empty()
    } else {
        named_form(pieces.drop_last()) + pieces.last().0 + name_of(pieces.last().1)
    }
}

impl NumberingPattern {
    /// Reads a pattern. Its counting symbols are the characters of
    /// [`NumberingKind::from_char`], or, where the pattern holds a `{`, the
    /// names of [`NumberingKind::from_name`] in braces, such as
    /// `{lower-roman}`. A `}` also closes a name where no `{` was read: the
    /// name then starts after the first character, so that `Xhebrew}` is
    /// read as `{hebrew}`. A `}` whose name would start after it or inside a
    /// first character of more than one byte, or whose prefix would end
    /// before the part already used up, is kept as text (see
    /// [`scan_step`]). Fails with "invalid numbering pattern" exactly when
    /// the pattern has no counting symbol.
    pub fn from_str(pattern: &str) -> (res: Result<Self, &'static str>)
        ensures
            match parse_outcome(pattern@) {
                Some(v) => res matches Ok(p) && p@ == v,
                None => res matches Err(e) && e@ == "invalid numbering pattern"@,
            },
    {
        let len = pattern.unicode_len();
        let verbose = find_brace(pattern) < len;
        let (pieces, handled) = scan_pattern(pattern, verbose);
        let suffix = eco_from_str(pattern.substring_char(handled, len));
        if pieces_len(&pieces) == 0 {
            return Err("invalid numbering pattern");
        }
        Ok(NumberingPattern { pieces, suffix, trimmed: false })
    }

    /// The text form of the pattern: each prefix followed by the name of its
    /// kind, then the suffix.
    pub fn text(&self) -> (res: EcoString)
        ensures
            eco_chars(res) == named_form(self@.pieces) + self@.suffix,
    {
        let ghost p = self@;
        let mut pat = eco_new();
        let count = pieces_len(&self.pieces);
        let mut i: usize = 0;
        while i < count
            invariant
                p == self@,
                count == p.pieces.len(),
                i <= count,
                eco_chars(pat) == named_form(p.pieces.take(i as int)),
            decreases count - i,
        {
            let piece = pieces_get(&self.pieces, i);
            eco_push_str(&mut pat, eco_as_str(&piece.0));
            eco_push_str(&mut pat, piece.1.to_name());
            proof {
                assert(p.pieces.take(i + 1).drop_last() =~= p.pieces.take(i as int));
            }
            i = i + 1;
        }
        proof {
            assert(p.pieces.take(count as int) =~= p.pieces);
        }
        eco_push_str(&mut pat, eco_as_str(&self.suffix));
        pat
    }

    /// Apply the pattern to the given numbers.
    pub fn apply(&self, numbers: &[usize]) -> (res: EcoString)
        ensures
            eco_chars(res) == pattern_text(self@, numbers@),
    {
        let ghost p = self@;
        let mut fmt = eco_new();
        let count = pieces_len(&self.pieces);
        let total = numbers.len();
        let first = if count < total {
            count
        } else {
            total
        };
        let mut i: usize = 0;
        while i < first
            invariant
                p == self@,
                count == p.pieces.len(),
                total == numbers@.len(),
                first <= count,
                first <= total,
                i <= first,
                eco_chars(fmt) == segments(p, numbers@, i as nat),
            decreases first - i,
        {
            let piece = pieces_get(&self.pieces, i);
            if i > 0 || !self.trimmed {
                eco_push_str(&mut fmt, eco_as_str(&piece.0));
            }
            let text = piece.1.apply(numbers[i]);
            eco_push_str(&mut fmt, eco_as_str(&text));
            i = i + 1;
        }
        if count > 0 {
            let last = pieces_get(&self.pieces, count - 1);
            let mut j: usize = first;
            while j < total
                invariant
                    p == self@,
                    count == p.pieces.len(),
                    count > 0,
                    total == numbers@.len(),
                    first == (if count < total { count } else { total }),
                    first <= j <= total,
                    eco_chars(last.0) == p.pieces.last().0,
                    last.1 == p.pieces.last().1,
                    eco_chars(fmt) == segments(p, numbers@, j as nat),
                decreases total - j,
            {
                eco_push_str(&mut fmt, eco_as_str(&last.0));
                let text = last.1.apply(numbers[j]);
                eco_push_str(&mut fmt, eco_as_str(&text));
                j = j + 1;
            }
        }
        if !self.trimmed {
            eco_push_str(&mut fmt, eco_as_str(&self.suffix));
        }
        fmt
    }

    /// Apply only the k-th segment of the pattern to a number.
    pub fn apply_kth(&self, k: usize, number: usize) -> (res: EcoString)
        ensures
            eco_chars(res) == kth_text(self@, k, number),
    {
        let mut fmt = eco_new();
        let count = pieces_len(&self.pieces);
        if count > 0 {
            let first = pieces_get(&self.pieces, 0);
            eco_push_str(&mut fmt, eco_as_str(&first.0));
            let index = if k < count {
                k
            } else {
                count - 1
            };
            let piece = pieces_get(&self.pieces, index);
            let text = piece.1.apply(number);
            eco_push_str(&mut fmt, eco_as_str(&text));
        }
        eco_push_str(&mut fmt, eco_as_str(&self.suffix));
        fmt
    }

    /// How many counting symbols this pattern has.
    pub fn pieces(&self) -> (res: usize)
        ensures
            res == self@.pieces.len(),
    {
        pieces_len(&self.pieces)
    }
}

impl std::str::FromStr for NumberingPattern {
    type Err = &'static str;

    fn from_str(pattern: &str) -> Result<Self, &'static str> {
        NumberingPattern::from_str(pattern)
    }
}

/// How to number a sequence of things.
#[derive(Debug, Clone, PartialEq, Hash)]
pub enum Numbering<F> {
    /// A pattern with prefix, numbering, lower / upper case and suffix.
    Pattern(NumberingPattern),
    /// A function from an item's numbers to content, which the caller runs.
    Func(F),
}

/// What applying a numbering gives: the text of a pattern, or the function
/// that the caller is to run on the numbers.
pub enum Applied<'a, F> {
    Text(EcoString),
    Call(&'a F),
}

/// The text that a pattern numbering writes for `numbers`, or the function
/// of a function numbering.
pub open spec fn applied_as<F>(numbering: Numbering<F>, numbers: Seq<usize>, res: Applied<F>) -> bool {
    match numbering {
        Numbering::Pattern(p) => res matches Applied::Text(t) && eco_chars(t) == pattern_text(p@, numbers),
        Numbering::Func(f) => res matches Applied::Call(g) && *g == f,
    }
}

impl<F> Numbering<F> {
    /// Apply the numbering to the given numbers.
    pub fn apply(&self, numbers: &[usize]) -> (res: Applied<'_, F>)
        ensures
            applied_as(*self, numbers@, res),
    {
        match self {
            Numbering::Pattern(pattern) => Applied::Text(pattern.apply(numbers)),
            Numbering::Func(func) => Applied::Call(func),
        }
    }

    /// Trim the prefix suffix if this is a pattern.
    pub fn trimmed(self) -> (res: Self)
        ensures
            match self {
                Numbering::Pattern(p) => res matches Numbering::Pattern(q) && q@ == PatternView {
                    trimmed: true,
                    ..p@
                },
                Numbering::Func(f) => res == self,
            },
    {
        match self {
            Numbering::Pattern(mut pattern) => {
                pattern.trimmed = true;
                Numbering::Pattern(pattern)
            },
            Numbering::Func(func) => Numbering::Func(func),
        }
    }
}

impl<F> From<NumberingPattern> for Numbering<F> {
    fn from(pattern: NumberingPattern) -> (res: Self) {
        Self::Pattern(pattern)
    }
}

impl<F> vstd::std_specs::convert::FromSpecImpl<NumberingPattern> for Numbering<F> {
    open spec fn obeys_from_spec() -> bool {
        true
    }

    open spec fn from_spec(pattern: NumberingPattern) -> Self {
        Numbering::Pattern(pattern)
    }
}

/// Applies a numbering to a sequence of numbers: a pattern writes them as
/// text, a function is handed back to be run on them.
pub fn numbering<'a, F>(scheme: &'a Numbering<F>, numbers: &[usize]) -> (res: Applied<'a, F>)
    ensures
        applied_as(*scheme, numbers@, res),
{
    scheme.apply(numbers)
}

} // verus!
