//! The range that a chunk request names: a unit, the first and last place of
//! the bytes, and the size of the whole, as in `bytes 0-99/250`.

use crate::text::chars_of;
use crate::text::text_of;
use vstd::prelude::*;
use vstd::string::StringExecFns;

verus! {

/// The parts of a range. A part written as `*` is absent.
#[derive(Clone, Copy, Debug, PartialEq, Eq, Structural)]
pub struct ContentRange {
    pub size: Option<u64>,
    pub start: Option<u64>,
    pub end: Option<u64>,
}

/// Why a text is not a number.
#[derive(Clone, Copy, Debug, PartialEq, Eq, Structural)]
pub enum NumberError {
    /// The text is empty.
    Empty,
    /// A character is not a decimal digit, or a sign stands alone.
    InvalidDigit,
    /// The number does not fit in sixty-four bits.
    Overflow,
}

/// Why a text is not a range.
#[derive(Clone, Debug)]
pub enum RangeError {
    /// The text holds no word.
    MissingUnit,
    /// The text holds one word only.
    MissingRange,
    /// The text holds more than two words.
    ExcessData,
    /// The first word is not `bytes`; it is this.
    UnknownUnit(String),
    /// The second word holds no `/`.
    MissingSize,
    /// The second word holds more than one `/`.
    ExcessRangeData,
    /// The size, the start or the end is not a number.
    BadNumber(NumberError),
    /// The part before the `/` holds no `-`.
    MissingEnd,
}

/// What a `RangeError` says, with the unit as a sequence of characters.
pub enum RangeFault {
    MissingUnit,
    MissingRange,
    ExcessData,
    UnknownUnit(Seq<char>),
    MissingSize,
    ExcessRangeData,
    BadNumber(NumberError),
    MissingEnd,
}

impl View for RangeError {
    type V = RangeFault;

    open spec fn view(&self) -> RangeFault {
        match self {
            RangeError::MissingUnit => RangeFault::MissingUnit,
            RangeError::MissingRange => RangeFault::MissingRange,
            RangeError::ExcessData => RangeFault::ExcessData,
            RangeError::UnknownUnit(unit) => RangeFault::UnknownUnit(unit@),
            RangeError::MissingSize => RangeFault::MissingSize,
            RangeError::ExcessRangeData => RangeFault::ExcessRangeData,
            RangeError::BadNumber(e) => RangeFault::BadNumber(*e),
            RangeError::MissingEnd => RangeFault::MissingEnd,
        }
    }
}

/// What a number error says.
pub open spec fn number_fault_text(e: NumberError) -> Seq<char> {
    match e {
        NumberError::Empty => "cannot parse integer from empty string"@,
        NumberError::InvalidDigit => "invalid digit found in string"@,
        NumberError::Overflow => "number too large to fit in target type"@,
    }
}

/// What a range error says.
pub open spec fn range_fault_text(e: RangeFault) -> Seq<char> {
    match e {
        RangeFault::MissingUnit => "Missing unit"@,
        RangeFault::MissingRange => "Missing range"@,
        RangeFault::ExcessData => "Excess data"@,
        RangeFault::UnknownUnit(unit) => "Unknown unit "@ + unit,
        RangeFault::MissingSize => "Missing size part of range"@,
        RangeFault::ExcessRangeData => "Excess data in range"@,
        RangeFault::BadNumber(e) => number_fault_text(e),
        RangeFault::MissingEnd => "Missing end of range"@,
    }
}

impl NumberError {
    /// What this error says.
    pub fn message(&self) -> (text: String)
        ensures
            text@ == number_fault_text(*self),
    {
        match self {
            NumberError::Empty => String::from_str("cannot parse integer from empty string"),
            NumberError::InvalidDigit => String::from_str("invalid digit found in string"),
            NumberError::Overflow => String::from_str("number too large to fit in target type"),
        }
    }
}

impl RangeError {
    /// What this error says.
    pub fn message(&self) -> (text: String)
        ensures
            text@ == range_fault_text(self@),
    {
        match self {
            RangeError::MissingUnit => String::from_str("Missing unit"),
            RangeError::MissingRange => String::from_str("Missing range"),
            RangeError::ExcessData => String::from_str("Excess data"),
            RangeError::UnknownUnit(unit) => String::from_str("Unknown unit ").concat(
                unit.as_str(),
            ),
            RangeError::MissingSize => String::from_str("Missing size part of range"),
            RangeError::ExcessRangeData => String::from_str("Excess data in range"),
            RangeError::BadNumber(e) => e.message(),
            RangeError::MissingEnd => String::from_str("Missing end of range"),
        }
    }
}

/// Whether `c` is white space: a character with the Unicode property
/// `White_Space`.
pub open spec fn is_space(c: char) -> bool {
    let n = c as u32;
    ||| 0x09 <= n <= 0x0d
    ||| n == 0x20
    ||| n == 0x85
    ||| n == 0xa0
    ||| n == 0x1680
    ||| 0x2000 <= n <= 0x200a
    ||| n == 0x2028
    ||| n == 0x2029
    ||| n == 0x202f
    ||| n == 0x205f
    ||| n == 0x3000
}

/// Whether `c` is a decimal digit.
pub open spec fn is_digit(c: char) -> bool {
    '0' <= c <= '9'
}

/// The first place at or after `from` that holds no white space, or the
/// length of `s`.
pub open spec fn skip_spaces(s: Seq<char>, from: int) -> int
    decreases s.len() - from,
{
    if 0 <= from < s.len() && is_space(s[from]) {
        skip_spaces(s, from + 1)
    } else {
        from
    }
}

/// The first place at or after `from` that holds white space, or the length
/// of `s`.
pub open spec fn skip_word(s: Seq<char>, from: int) -> int
    decreases s.len() - from,
{
    if 0 <= from < s.len() && !is_space(s[from]) {
        skip_word(s, from + 1)
    } else {
        from
    }
}

/// The first place at or after `from` that holds `c`, or the length of `s`.
pub open spec fn find(s: Seq<char>, c: char, from: int) -> int
    decreases s.len() - from,
{
    if 0 <= from < s.len() && s[from] != c {
        find(s, c, from + 1)
    } else {
        from
    }
}

/// The first place that holds no decimal digit, or the length of `s`.
pub open spec fn digit_run(s: Seq<char>, from: int) -> int
    decreases s.len() - from,
{
    if 0 <= from < s.len() && is_digit(s[from]) {
        digit_run(s, from + 1)
    } else {
        from
    }
}

/// The number that the decimal digits of `s` write.
pub open spec fn decimal(s: Seq<char>) -> nat
    decreases s.len(),
{
    if s.len() == 0 {
        0
    } else {
        (decimal(s.drop_last()) * 10 + (s.last() as u32 - '0' as u32)) as nat
    }
}

/// The number that `s` writes: decimal digits, which a `+` may stand before.
/// Reading from the left, a number that has grown too large is reported
/// before a character that is no digit.
pub open spec fn number(s: Seq<char>) -> Result<u64, NumberError> {
    if s.len() == 0 {
        Err(NumberError::Empty)
    } else if s.len() == 1 && (s[0] == '+' || s[0] == '-') {
        Err(NumberError::InvalidDigit)
    } else {
        let digits = if s[0] == '+' {
            s.skip(1)
        } else {
            s
        };
        let run = digit_run(digits, 0);
        if decimal(digits.take(run)) > u64::MAX {
            Err(NumberError::Overflow)
        } else if run < digits.len() {
            Err(NumberError::InvalidDigit)
        } else {
            Ok(decimal(digits) as u64)
        }
    }
}

/// The word `bytes`.
pub open spec fn bytes_unit() -> Seq<char> {
    seq!['b', 'y', 't', 'e', 's']
}

/// The text `*`, which stands for a part that is not given.
pub open spec fn star() -> Seq<char> {
    seq!['*']
}

/// The size that `s` writes: none for `*`, a number otherwise.
pub open spec fn size_part(s: Seq<char>) -> Result<Option<u64>, NumberError> {
    if s == star() {
        Ok(None)
    } else {
        match number(s) {
            Ok(n) => Ok(Some(n)),
            Err(e) => Err(e),
        }
    }
}

/// The range that the part before the `/` writes, with the size already
/// read: `*`, or a start and an end with `-` between them. What follows a
/// second `-` is not read.
pub open spec fn bounds_part(s: Seq<char>, size: Option<u64>) -> Result<ContentRange, RangeFault> {
    if s == star() {
        Ok(ContentRange { size, start: None, end: None })
    } else {
        let dash = find(s, '-', 0);
        match number(s.take(dash)) {
            Err(e) => Err(RangeFault::BadNumber(e)),
            Ok(start) => if dash == s.len() {
                Err(RangeFault::MissingEnd)
            } else {
                match number(s.subrange(dash + 1, find(s, '-', dash + 1))) {
                    Err(e) => Err(RangeFault::BadNumber(e)),
                    Ok(end) => Ok(ContentRange { size, start: Some(start), end: Some(end) }),
                }
            },
        }
    }
}

/// The range that the second word writes: the bounds, a `/`, and the size.
/// The size is read first.
pub open spec fn range_word(s: Seq<char>) -> Result<ContentRange, RangeFault> {
    let slash = find(s, '/', 0);
    if slash == s.len() {
        Err(RangeFault::MissingSize)
    } else if find(s, '/', slash + 1) < s.len() {
        Err(RangeFault::ExcessRangeData)
    } else {
        match size_part(s.skip(slash + 1)) {
            Err(e) => Err(RangeFault::BadNumber(e)),
            Ok(size) => bounds_part(s.take(slash), size),
        }
    }
}

/// The range that a text writes: the word `bytes` and the range word, with
/// white space before, between and after them.
pub open spec fn content_range(s: Seq<char>) -> Result<ContentRange, RangeFault> {
    let unit_start = skip_spaces(s, 0);
    let unit_end = skip_word(s, unit_start);
    let range_start = skip_spaces(s, unit_end);
    let range_end = skip_word(s, range_start);
    if unit_start == unit_end {
        Err(RangeFault::MissingUnit)
    } else if range_start == range_end {
        Err(RangeFault::MissingRange)
    } else if skip_spaces(s, range_end) < s.len() {
        Err(RangeFault::ExcessData)
    } else if s.subrange(unit_start, unit_end) != bytes_unit() {
        Err(RangeFault::UnknownUnit(s.subrange(unit_start, unit_end)))
    } else {
        range_word(s.subrange(range_start, range_end))
    }
}

/// Tells whether `c` is white space.
pub fn is_whitespace(c: char) -> (space: bool)
    ensures
        space == is_space(c),
{
    let n: u32 = c as u32;
    (0x09 <= n && n <= 0x0d) || n == 0x20 || n == 0x85 || n == 0xa0 || n == 0x1680 || (0x2000 <= n
        && n <= 0x200a) || n == 0x2028 || n == 0x2029 || n == 0x202f || n == 0x205f || n == 0x3000
}

fn past_spaces(s: &Vec<char>, from: usize) -> (at: usize)
    requires
        from <= s@.len(),
    ensures
        at == skip_spaces(s@, from as int),
        from <= at <= s@.len(),
{
    let mut at: usize = from;
    while at < s.len() && is_whitespace(s[at])
        invariant
            from <= at <= s@.len(),
            skip_spaces(s@, from as int) == skip_spaces(s@, at as int),
        decreases s@.len() - at,
    {
        at += 1;
    }
    at
}

fn past_word(s: &Vec<char>, from: usize) -> (at: usize)
    requires
        from <= s@.len(),
    ensures
        at == skip_word(s@, from as int),
        from <= at <= s@.len(),
{
    let mut at: usize = from;
    while at < s.len() && !is_whitespace(s[at])
        invariant
            from <= at <= s@.len(),
            skip_word(s@, from as int) == skip_word(s@, at as int),
        decreases s@.len() - at,
    {
        at += 1;
    }
    at
}

fn place_of(s: &Vec<char>, c: char, from: usize) -> (at: usize)
    requires
        from <= s@.len(),
    ensures
        at == find(s@, c, from as int),
        from <= at <= s@.len(),
{
    let mut at: usize = from;
    while at < s.len() && s[at] != c
        invariant
            from <= at <= s@.len(),
            find(s@, c, from as int) == find(s@, c, at as int),
        decreases s@.len() - at,
    {
        at += 1;
    }
    at
}

fn part(s: &Vec<char>, from: usize, to: usize) -> (piece: Vec<char>)
    requires
        from <= to <= s@.len(),
    ensures
        piece@ == s@.subrange(from as int, to as int),
{
    let mut piece: Vec<char> = Vec::new();
    let mut i: usize = from;
    while i < to
        invariant
            from <= i <= to <= s@.len(),
            piece@ == s@.subrange(from as int, i as int),
        decreases to - i,
    {
        piece.push(s[i]);
        i += 1;
    }
    piece
}

fn is_star(s: &Vec<char>) -> (yes: bool)
    ensures
        yes == (s@ == star()),
{
    if s.len() == 1 && s[0] == '*' {
        assert(s@ =~= star());
        true
    } else {
        false
    }
}

fn is_bytes_unit(s: &Vec<char>) -> (yes: bool)
    ensures
        yes == (s@ == bytes_unit()),
{
    if s.len() == 5 && s[0] == 'b' && s[1] == 'y' && s[2] == 't' && s[3] == 'e' && s[4] == 's' {
        assert(s@ =~= bytes_unit());
        true
    } else {
        false
    }
}

/// The number that a longer run of digits writes is no smaller.
proof fn lemma_decimal_grows(s: Seq<char>, shorter: int, longer: int)
    requires
        0 <= shorter <= longer <= s.len(),
        forall|i: int| 0 <= i < longer ==> is_digit(#[trigger] s[i]),
    ensures
        decimal(s.take(shorter)) <= decimal(s.take(longer)),
    decreases longer - shorter,
{
    if shorter < longer {
        lemma_decimal_grows(s, shorter, longer - 1);
        assert(s.take(longer).drop_last() =~= s.take(longer - 1));
    }
}

/// The run of digits ends at `end` if digits fill the places before it and
/// no digit stands at it.
proof fn lemma_digit_run(s: Seq<char>, from: int, end: int)
    requires
        0 <= from <= end <= s.len(),
        forall|i: int| from <= i < end ==> is_digit(#[trigger] s[i]),
        end == s.len() || !is_digit(s[end]),
    ensures
        digit_run(s, from) == end,
    decreases end - from,
{
    if from < end {
        lemma_digit_run(s, from + 1, end);
    }
}

/// Digits fill the places before the end of the run of digits.
proof fn lemma_digit_run_holds_digits(s: Seq<char>, from: int)
    requires
        0 <= from <= s.len(),
    ensures
        from <= digit_run(s, from) <= s.len(),
        forall|i: int| from <= i < digit_run(s, from) ==> is_digit(#[trigger] s[i]),
        digit_run(s, from) == s.len() || !is_digit(s[digit_run(s, from)]),
    decreases s.len() - from,
{
    if from < s.len() && is_digit(s[from]) {
        lemma_digit_run_holds_digits(s, from + 1);
    }
}

/// Reads the number that `s` writes.
pub fn parse_number(s: &Vec<char>) -> (n: Result<u64, NumberError>)
    ensures
        n == number(s@),
{
    if s.len() == 0 {
        return Err(NumberError::Empty);
    }
    if s.len() == 1 && (s[0] == '+' || s[0] == '-') {
        return Err(NumberError::InvalidDigit);
    }
    let first: usize = if s[0] == '+' {
        1
    } else {
        0
    };
    let ghost digits = if s@[0] == '+' {
        s@.skip(1)
    } else {
        s@
    };
    let mut n: u64 = 0;
    let mut i: usize = first;
    while i < s.len()
        invariant
            first <= i <= s@.len(),
            s@.len() > 0,
            !(s@.len() == 1 && (s@[0] == '+' || s@[0] == '-')),
            digits == (if s@[0] == '+' {
                s@.skip(1)
            } else {
                s@
            }),
            digits.len() == s@.len() - first,
            forall|j: int| 0 <= j < digits.len() ==> #[trigger] digits[j] == s@[j + first],
            forall|j: int| 0 <= j < i - first ==> is_digit(#[trigger] digits[j]),
            n == decimal(digits.take(i - first)),
        decreases s@.len() - i,
    {
        let c: char = s[i];
        let ghost k = i - first;
        if !(c >= '0' && c <= '9') {
            proof {
                lemma_digit_run(digits, 0, k);
            }
            return Err(NumberError::InvalidDigit);
        }
        let d: u64 = (c as u32 - '0' as u32) as u64;
        proof {
            assert(digits.take(k + 1).drop_last() =~= digits.take(k));
        }
        if n > (u64::MAX - d) / 10 {
            proof {
                lemma_digit_run_holds_digits(digits, 0);
                let run = digit_run(digits, 0);
                lemma_decimal_grows(digits, k + 1, run);
            }
            return Err(NumberError::Overflow);
        }
        n = n * 10 + d;
        i += 1;
    }
    proof {
        lemma_digit_run(digits, 0, digits.len() as int);
        assert(digits.take(digits.len() as int) =~= digits);
    }
    Ok(n)
}

fn parse_size(s: &Vec<char>) -> (size: Result<Option<u64>, NumberError>)
    ensures
        size == size_part(s@),
{
    if is_star(s) {
        Ok(None)
    } else {
        match parse_number(s) {
            Ok(n) => Ok(Some(n)),
            Err(e) => Err(e),
        }
    }
}

fn parse_bounds(s: &Vec<char>, size: Option<u64>) -> (range: Result<ContentRange, RangeError>)
    ensures
        match range {
            Ok(r) => bounds_part(s@, size) == Ok::<ContentRange, RangeFault>(r),
            Err(e) => bounds_part(s@, size) == Err::<ContentRange, RangeFault>(e@),
        },
{
    if is_star(s) {
        return Ok(ContentRange { size, start: None, end: None });
    }
    let dash = place_of(s, '-', 0);
    let head = part(s, 0, dash);
    let start = match parse_number(&head) {
        Ok(n) => n,
        Err(e) => {
            return Err(RangeError::BadNumber(e));
        },
    };
    if dash == s.len() {
        return Err(RangeError::MissingEnd);
    }
    let next = place_of(s, '-', dash + 1);
    let tail = part(s, dash + 1, next);
    match parse_number(&tail) {
        Ok(end) => Ok(ContentRange { size, start: Some(start), end: Some(end) }),
        Err(e) => Err(RangeError::BadNumber(e)),
    }
}

fn parse_range_word(s: &Vec<char>) -> (range: Result<ContentRange, RangeError>)
    ensures
        match range {
            Ok(r) => range_word(s@) == Ok::<ContentRange, RangeFault>(r),
            Err(e) => range_word(s@) == Err::<ContentRange, RangeFault>(e@),
        },
{
    let slash = place_of(s, '/', 0);
    if slash == s.len() {
        return Err(RangeError::MissingSize);
    }
    if place_of(s, '/', slash + 1) < s.len() {
        return Err(RangeError::ExcessRangeData);
    }
    let size_text = part(s, slash + 1, s.len());
    let size = match parse_size(&size_text) {
        Ok(size) => size,
        Err(e) => {
            return Err(RangeError::BadNumber(e));
        },
    };
    let bounds = part(s, 0, slash);
    parse_bounds(&bounds, size)
}

impl ContentRange {
    /// Reads a range from the text of a header.
    pub fn from_str(s: &str) -> (range: Result<ContentRange, RangeError>)
        ensures
            match range {
                Ok(r) => content_range(s@) == Ok::<ContentRange, RangeFault>(r),
                Err(e) => content_range(s@) == Err::<ContentRange, RangeFault>(e@),
            },
    {
        let chars = chars_of(s);
        let unit_start = past_spaces(&chars, 0);
        let unit_end = past_word(&chars, unit_start);
        let range_start = past_spaces(&chars, unit_end);
        let range_end = past_word(&chars, range_start);
        if unit_start == unit_end {
            return Err(RangeError::MissingUnit);
        }
        if range_start == range_end {
            return Err(RangeError::MissingRange);
        }
        if past_spaces(&chars, range_end) < chars.len() {
            return Err(RangeError::ExcessData);
        }
        let unit = part(&chars, unit_start, unit_end);
        if !is_bytes_unit(&unit) {
            return Err(RangeError::UnknownUnit(text_of(unit.as_slice())));
        }
        let word = part(&chars, range_start, range_end);
        parse_range_word(&word)
    }
}

} // verus!
