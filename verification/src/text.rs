//! Character-level text operations and their mathematical meaning.

use vstd::prelude::*;
use vstd::string::*;

verus! {

/// The characters that carry the Unicode `White_Space` property.
pub open spec fn is_white_space(c: char) -> bool {
    let u = c as u32;
    ||| 0x09 <= u <= 0x0D
    ||| u == 0x20
    ||| u == 0x85
    ||| u == 0xA0
    ||| u == 0x1680
    ||| 0x2000 <= u <= 0x200A
    ||| u == 0x2028
    ||| u == 0x2029
    ||| u == 0x202F
    ||| u == 0x205F
    ||| u == 0x3000
}

/// A set of characters that a scan may run over.
#[derive(Clone, Copy, Debug)]
pub enum CharClass {
    /// White space.
    Blank,
    /// Anything but white space.
    Visible,
    /// Anything but the given character.
    Except(char),
}

impl CharClass {
    /// Whether `c` belongs to the class.
    pub open spec fn holds(self, c: char) -> bool {
        match self {
            CharClass::Blank => is_white_space(c),
            CharClass::Visible => !is_white_space(c),
            CharClass::Except(x) => c != x,
        }
    }

    /// Tests whether `c` belongs to the class.
    pub fn test(&self, c: char) -> (r: bool)
        ensures
            r == self.holds(c),
    {
        match self {
            CharClass::Blank => is_blank(c),
            CharClass::Visible => !is_blank(c),
            CharClass::Except(x) => c != *x,
        }
    }
}

/// Tests whether `c` is white space.
pub fn is_blank(c: char) -> (r: bool)
    ensures
        r == is_white_space(c),
{
    let u: u32 = c as u32;
    (0x09 <= u && u <= 0x0D) || u == 0x20 || u == 0x85 || u == 0xA0 || u == 0x1680 || (0x2000 <= u
        && u <= 0x200A) || u == 0x2028 || u == 0x2029 || u == 0x202F || u == 0x205F || u == 0x3000
}

/// Where the run of `class` characters that begins at `from` ends: the first
/// index at or after `from` whose character is outside the class, or the end
/// of `s`.
pub open spec fn run_end(s: Seq<char>, from: int, class: CharClass) -> int
    decreases s.len() - from,
{
    if 0 <= from < s.len() && class.holds(s[from]) {
        run_end(s, from + 1, class)
    } else {
        from
    }
}

/// Where the run of `class` characters that ends just before `to` begins.
pub open spec fn run_start(s: Seq<char>, to: int, class: CharClass) -> int
    decreases to,
{
    if 0 < to <= s.len() && class.holds(s[to - 1]) {
        run_start(s, to - 1, class)
    } else {
        to
    }
}

/// A run that begins inside `s` ends inside `s`, holds only characters of
/// the class, and is followed by none of them.
pub proof fn lemma_run_end(s: Seq<char>, from: int, class: CharClass)
    requires
        0 <= from <= s.len(),
    ensures
        from <= run_end(s, from, class) <= s.len(),
        forall|j: int| from <= j < run_end(s, from, class) ==> class.holds(s[j]),
        run_end(s, from, class) < s.len() ==> !class.holds(s[run_end(s, from, class)]),
    decreases s.len() - from,
{
    if from < s.len() && class.holds(s[from]) {
        lemma_run_end(s, from + 1, class);
    }
}

/// A run that ends inside `s` begins inside `s`, holds only characters of
/// the class, and is preceded by none of them.
pub proof fn lemma_run_start(s: Seq<char>, to: int, class: CharClass)
    requires
        0 <= to <= s.len(),
    ensures
        0 <= run_start(s, to, class) <= to,
        forall|j: int| run_start(s, to, class) <= j < to ==> class.holds(s[j]),
        run_start(s, to, class) > 0 ==> !class.holds(s[run_start(s, to, class) - 1]),
    decreases to,
{
    if 0 < to && class.holds(s[to - 1]) {
        lemma_run_start(s, to - 1, class);
    }
}

/// The characters of a string, one vector element each.
pub fn to_chars(s: &str) -> (v: Vec<char>)
    ensures
        v@ == s@,
{
    let mut v: Vec<char> = Vec::new();
    for c in it: s.chars()
        invariant
            it.seq() == s@,
            v@ == it.seq().take(it.index()),
    {
        v.push(c);
    }
    v
}

/// Scans forward from `from` over the characters of `class`.
pub fn scan_forward(v: &Vec<char>, from: usize, class: CharClass) -> (end: usize)
    requires
        from <= v.len(),
    ensures
        end == run_end(v@, from as int, class),
        from <= end <= v.len(),
{
    let mut i: usize = from;
    while i < v.len() && class.test(v[i])
        invariant
            from <= i <= v.len(),
            run_end(v@, i as int, class) == run_end(v@, from as int, class),
        decreases v.len() - i,
    {
        i = i + 1;
    }
    i
}

/// Scans backward from `to` over the characters of `class`.
pub fn scan_backward(v: &Vec<char>, to: usize, class: CharClass) -> (start: usize)
    requires
        to <= v.len(),
    ensures
        start == run_start(v@, to as int, class),
        start <= to,
{
    let mut i: usize = to;
    while i > 0 && class.test(v[i - 1])
        invariant
            i <= to <= v.len(),
            run_start(v@, i as int, class) == run_start(v@, to as int, class),
        decreases i,
    {
        i = i - 1;
    }
    i
}

/// The characters of `s` from index `from` up to, not including, `to`, as a
/// string of their own.
pub fn slice_string(s: &str, from: usize, to: usize) -> (r: String)
    requires
        from <= to <= s@.len(),
    ensures
        r@ == s@.subrange(from as int, to as int),
{
    String::from_str(s.substring_char(from, to))
}

/// Whether `s` begins with `prefix`.
pub fn starts_with(s: &Vec<char>, prefix: &Vec<char>) -> (r: bool)
    ensures
        r == prefix@.is_prefix_of(s@),
{
    if prefix.len() > s.len() {
        return false;
    }
    let mut i: usize = 0;
    while i < prefix.len()
        invariant
            i <= prefix.len() <= s.len(),
            forall|j: int| 0 <= j < i ==> s@[j] == prefix@[j],
        decreases prefix.len() - i,
    {
        if s[i] != prefix[i] {
            return false;
        }
        i = i + 1;
    }
    assert(s@.subrange(0, prefix@.len() as int) =~= prefix@);
    true
}

/// `s` without its leading and trailing white space.
pub open spec fn trimmed(s: Seq<char>) -> Seq<char> {
    let from = run_end(s, 0, CharClass::Blank);
    let to = run_start(s, s.len() as int, CharClass::Blank);
    if from < to {
        s.subrange(from, to)
    } else {
        Seq::empty()
    }
}

/// The first white-space-delimited word of `s`, if it has one.
pub open spec fn first_word(s: Seq<char>) -> Option<Seq<char>> {
    let from = run_end(s, 0, CharClass::Blank);
    if from < s.len() {
        Some(s.subrange(from, run_end(s, from, CharClass::Visible)))
    } else {
        None
    }
}

/// What follows the last occurrence of `sep` in `s`; all of `s` where `sep`
/// does not occur.
pub open spec fn last_segment(s: Seq<char>, sep: char) -> Seq<char> {
    s.subrange(run_start(s, s.len() as int, CharClass::Except(sep)), s.len() as int)
}

/// What precedes the first occurrence of `sep` in `s`; all of `s` where `sep`
/// does not occur.
pub open spec fn first_segment(s: Seq<char>, sep: char) -> Seq<char> {
    s.subrange(0, run_end(s, 0, CharClass::Except(sep)))
}

/// Whether every character of `s` is white space.
pub open spec fn is_blank_text(s: Seq<char>) -> bool {
    forall|i: int| 0 <= i < s.len() ==> is_white_space(#[trigger] s[i])
}

/// Whether `s` neither begins nor ends with white space.
pub open spec fn is_tight(s: Seq<char>) -> bool {
    s.len() > 0 ==> !is_white_space(s.first()) && !is_white_space(s.last())
}

/// Trimming takes away white space at both ends and nothing else: the text
/// is its trimmed form between two runs of white space, and the trimmed form
/// neither begins nor ends with white space.
pub proof fn lemma_trimmed(s: Seq<char>)
    ensures
        is_tight(trimmed(s)),
        exists|lead: Seq<char>, trail: Seq<char>|
            s == lead + trimmed(s) + trail && is_blank_text(lead) && is_blank_text(trail),
{
    let from = run_end(s, 0, CharClass::Blank);
    let to = run_start(s, s.len() as int, CharClass::Blank);
    lemma_run_end(s, 0, CharClass::Blank);
    lemma_run_start(s, s.len() as int, CharClass::Blank);
    if from < to {
        let lead = s.subrange(0, from);
        let trail = s.subrange(to, s.len() as int);
        assert(s =~= lead + trimmed(s) + trail);
        assert(is_blank_text(lead));
        assert(is_blank_text(trail));
    } else {
        if from < s.len() {
            assert(CharClass::Blank.holds(s[from]));
        }
        let trail = Seq::<char>::empty();
        assert(s =~= s + trimmed(s) + trail);
        assert(is_blank_text(s));
        assert(is_blank_text(trail));
    }
}

/// Neither the first nor the last segment holds the separator, and a first
/// word is not empty and holds no white space.
pub proof fn lemma_segments(s: Seq<char>, sep: char)
    ensures
        !first_segment(s, sep).contains(sep),
        !last_segment(s, sep).contains(sep),
        first_word(s) matches Some(word) ==> word.len() > 0 && forall|i: int|
            0 <= i < word.len() ==> !is_white_space(#[trigger] word[i]),
{
    lemma_run_end(s, 0, CharClass::Except(sep));
    lemma_run_start(s, s.len() as int, CharClass::Except(sep));
    lemma_run_end(s, 0, CharClass::Blank);
    let from = run_end(s, 0, CharClass::Blank);
    if from < s.len() {
        lemma_run_end(s, from, CharClass::Visible);
    }
}

/// Removes leading and trailing white space.
pub fn trim(s: &str) -> (r: String)
    ensures
        r@ == trimmed(s@),
{
    let v = to_chars(s);
    let from = scan_forward(&v, 0, CharClass::Blank);
    let to = scan_backward(&v, v.len(), CharClass::Blank);
    if from < to {
        slice_string(s, from, to)
    } else {
        String::new()
    }
}

/// The first white-space-delimited word of `s`.
pub fn first_word_of(s: &str) -> (r: Option<String>)
    ensures
        r is Some == first_word(s@) is Some,
        r is Some ==> r->0@ == first_word(s@)->0,
{
    let v = to_chars(s);
    let from = scan_forward(&v, 0, CharClass::Blank);
    if from < v.len() {
        let to = scan_forward(&v, from, CharClass::Visible);
        Some(slice_string(s, from, to))
    } else {
        None
    }
}

/// What follows the last occurrence of `sep`.
pub fn last_segment_of(s: &str, sep: char) -> (r: String)
    ensures
        r@ == last_segment(s@, sep),
{
    let v = to_chars(s);
    let from = scan_backward(&v, v.len(), CharClass::Except(sep));
    slice_string(s, from, v.len())
}

/// What precedes the first occurrence of `sep`.
pub fn first_segment_of(s: &str, sep: char) -> (r: String)
    ensures
        r@ == first_segment(s@, sep),
{
    let v = to_chars(s);
    let to = scan_forward(&v, 0, CharClass::Except(sep));
    slice_string(s, 0, to)
}

/// The decimal digit `d`, for `d` below ten.
pub open spec fn digit_char(d: nat) -> char {
    if d == 0 {
        '0'
    } else if d == 1 {
        '1'
    } else if d == 2 {
        '2'
    } else if d == 3 {
        '3'
    } else if d == 4 {
        '4'
    } else if d == 5 {
        '5'
    } else if d == 6 {
        '6'
    } else if d == 7 {
        '7'
    } else if d == 8 {
        '8'
    } else {
        '9'
    }
}

/// The decimal numeral of `n`, without sign or leading zeros.
pub open spec fn decimal(n: nat) -> Seq<char>
    decreases n,
{
    if n < 10 {
        seq![digit_char(n)]
    } else {
        decimal(n / 10).push(digit_char(n % 10))
    }
}

/// The one-character text of a decimal digit.
fn digit_text(d: u32) -> (r: &'static str)
    requires
        d < 10,
    ensures
        r@ == seq![digit_char(d as nat)],
{
    proof {
        reveal_strlit("0");
        reveal_strlit("1");
        reveal_strlit("2");
        reveal_strlit("3");
        reveal_strlit("4");
        reveal_strlit("5");
        reveal_strlit("6");
        reveal_strlit("7");
        reveal_strlit("8");
        reveal_strlit("9");
    }
    let r = match d {
        0 => "0",
        1 => "1",
        2 => "2",
        3 => "3",
        4 => "4",
        5 => "5",
        6 => "6",
        7 => "7",
        8 => "8",
        _ => "9",
    };
    assert(r@ =~= seq![digit_char(d as nat)]);
    r
}

/// Writes `n` as a decimal numeral.
pub fn decimal_string(n: u32) -> (r: String)
    ensures
        r@ == decimal(n as nat),
    decreases n,
{
    if n < 10 {
        String::from_str(digit_text(n))
    } else {
        let mut r = decimal_string(n / 10);
        r.append(digit_text(n % 10));
        assert(r@ =~= decimal(n as nat));
        r
    }
}

} // verus!
