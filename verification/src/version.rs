//! The version of gnuplot, read from what `gnuplot --version` prints.

use vstd::prelude::*;
use vstd::string::*;
use vstd::utf8::{decode_utf8, valid_utf8};

verus! {

/// Structure representing a gnuplot version number.
#[derive(Debug)]
pub struct Version {
    /// The major version number
    pub major: usize,
    /// The minor version number
    pub minor: usize,
    /// The patch level
    pub patch: String,
}

/// What a [`Version`] holds.
pub struct VersionView {
    /// The major version number
    pub major: usize,
    /// The minor version number
    pub minor: usize,
    /// The patch level
    pub patch: Seq<char>,
}

/// Why a piece of text is not the decimal numeral of a `usize`.
#[derive(Clone, Copy, Debug, PartialEq, Eq)]
pub enum NumberError {
    /// The text is empty.
    Empty,
    /// The text holds a character that is not a decimal digit, or is a sign
    /// alone.
    InvalidDigit,
    /// The number is too large for a `usize`.
    PosOverflow,
}

/// Possible errors when parsing gnuplot's version string
#[derive(Debug)]
pub enum VersionError {
    /// The `gnuplot` command couldn't be executed; the message says why
    Exec(String),
    /// The `gnuplot` command returned an error message
    Error(String),
    /// The `gnuplot` command returned invalid utf-8
    OutputError,
    /// The `gnuplot` command returned an unparseable string
    ParseError(String),
}

/// What a [`VersionError`] holds.
pub enum VersionErrorView {
    /// The command could not be executed.
    Exec(Seq<char>),
    /// The command returned an error message.
    Error(Seq<char>),
    /// The command returned invalid UTF-8.
    OutputError,
    /// The command returned a string that is no version.
    ParseError(Seq<char>),
}

/// What a run of `gnuplot --version` left behind.
#[derive(Debug)]
pub struct Output {
    /// The command ended with success.
    pub success: bool,
    /// What the command wrote to its standard output.
    pub stdout: Vec<u8>,
    /// What the command wrote to its standard error.
    pub stderr: Vec<u8>,
}

impl View for Version {
    type V = VersionView;

    open spec fn view(&self) -> VersionView {
        VersionView { major: self.major, minor: self.minor, patch: self.patch@ }
    }
}

impl View for VersionError {
    type V = VersionErrorView;

    open spec fn view(&self) -> VersionErrorView {
        match *self {
            VersionError::Exec(message) => VersionErrorView::Exec(message@),
            VersionError::Error(message) => VersionErrorView::Error(message@),
            VersionError::OutputError => VersionErrorView::OutputError,
            VersionError::ParseError(text) => VersionErrorView::ParseError(text@),
        }
    }
}

/// The character is white space: one of the twenty-five characters with the
/// Unicode property `White_Space`.
pub open spec fn is_space(c: char) -> bool {
    let code = c as u32;
    (0x9 <= code <= 0xD) || code == 0x20 || code == 0x85 || code == 0xA0 || code == 0x1680 || (
    0x2000 <= code <= 0x200A) || code == 0x2028 || code == 0x2029 || code == 0x202F || code
        == 0x205F || code == 0x3000
}

/// The words of a text: its longest runs of characters that are not white
/// space, in order.
///
/// A character that is not white space continues the last word where the
/// character before it is not white space either, and begins a new word
/// otherwise.
pub open spec fn words(text: Seq<char>) -> Seq<Seq<char>>
    decreases text.len(),
{
    if text.len() == 0 {
        Seq::empty()
    } else {
        let before = words(text.drop_last());
        if is_space(text.last()) {
            before
        } else if text.len() >= 2 && !is_space(text[text.len() - 2]) && before.len() > 0 {
            before.drop_last().push(before.last().push(text.last()))
        } else {
            before.push(seq![text.last()])
        }
    }
}

/// The position of the first dot in `text`, and the length of `text` where
/// it holds no dot.
pub open spec fn dot_index(text: Seq<char>) -> int
    decreases text.len(),
{
    if text.len() == 0 || text[0] == '.' {
        0
    } else {
        1 + dot_index(text.drop_first())
    }
}

/// The character is a decimal digit.
pub open spec fn is_digit(c: char) -> bool {
    '0' <= c <= '9'
}

/// The number that a sequence of decimal digits stands for, read from left
/// to right: the first character that is no digit, or with which the number
/// outgrows `usize`, decides the error.
pub open spec fn digits_number(digits: Seq<char>) -> Result<usize, NumberError>
    decreases digits.len(),
{
    if digits.len() == 0 {
        Ok(0)
    } else {
        match digits_number(digits.drop_last()) {
            Err(error) => Err(error),
            Ok(front) => if !is_digit(digits.last()) {
                Err(NumberError::InvalidDigit)
            } else if front * 10 + (digits.last() as u32 - 48) > usize::MAX {
                Err(NumberError::PosOverflow)
            } else {
                Ok((front * 10 + (digits.last() as u32 - 48)) as usize)
            },
        }
    }
}

/// The number that `text` stands for as a decimal numeral, which may begin
/// with a plus sign.
pub open spec fn number(text: Seq<char>) -> Result<usize, NumberError> {
    if text.len() == 0 {
        Err(NumberError::Empty)
    } else if text.len() == 1 && (text[0] == '+' || text[0] == '-') {
        Err(NumberError::InvalidDigit)
    } else if text[0] == '+' {
        digits_number(text.drop_first())
    } else {
        digits_number(text)
    }
}

/// The version that a line of the form `gnuplot 5.2 patchlevel 5a` announces.
///
/// The second word of the line is the version: what stands before its first
/// dot is the major number, and what stands between its first dot and its
/// second, or its end, is the minor number.  The fourth word is the patch
/// level.  The error is `None` where a word or the dot is missing, and says
/// what is wrong with a number that cannot be read.
pub open spec fn version_of(text: Seq<char>) -> Result<VersionView, Option<NumberError>> {
    let all = words(text);
    if all.len() < 2 {
        Err(None)
    } else {
        let version = all[1];
        let dot = dot_index(version);
        match number(version.take(dot)) {
            Err(error) => Err(Some(error)),
            Ok(major) => if dot >= version.len() {
                Err(None)
            } else {
                let rest = version.skip(dot + 1);
                match number(rest.take(dot_index(rest))) {
                    Err(error) => Err(Some(error)),
                    Ok(minor) => if all.len() < 4 {
                        Err(None)
                    } else {
                        Ok(VersionView { major, minor, patch: all[3] })
                    },
                }
            },
        }
    }
}

/// What is made of a run of `gnuplot --version`.
///
/// A run that could not be started gives `Exec` with the reason.  A run
/// that failed gives `Error` with what it wrote to its standard error.  A
/// run that succeeded gives the version that its standard output announces,
/// or `ParseError` with that output where it announces none.  Output that
/// is not UTF-8 gives `OutputError`.
pub open spec fn version_from(outcome: Result<Output, String>) -> Result<
    VersionView,
    VersionErrorView,
> {
    match outcome {
        Err(reason) => Err(VersionErrorView::Exec(reason@)),
        Ok(output) => if !output.success {
            if valid_utf8(output.stderr@) {
                Err(VersionErrorView::Error(decode_utf8(output.stderr@)))
            } else {
                Err(VersionErrorView::OutputError)
            }
        } else if !valid_utf8(output.stdout@) {
            Err(VersionErrorView::OutputError)
        } else {
            match version_of(decode_utf8(output.stdout@)) {
                Ok(version) => Ok(version),
                Err(_) => Err(VersionErrorView::ParseError(decode_utf8(output.stdout@))),
            }
        },
    }
}

/// What [`String::from_utf8`] makes of `bytes`: the string that they encode
/// where they are valid UTF-8, and nothing where they are not.
#[verifier::external_body]
fn string_from_utf8(bytes: Vec<u8>) -> (text: Option<String>)
    ensures
        text is Some == valid_utf8(bytes@),
        text matches Some(t) ==> t@ == decode_utf8(bytes@),
{
    String::from_utf8(bytes).ok()
}

/// Whether `c` is white space.
pub fn is_whitespace(c: char) -> (space: bool)
    ensures
        space == is_space(c),
{
    let code: u32 = c as u32;
    (0x9 <= code && code <= 0xD) || code == 0x20 || code == 0x85 || code == 0xA0 || code == 0x1680
        || (0x2000 <= code && code <= 0x200A) || code == 0x2028 || code == 0x2029 || code
        == 0x202F || code == 0x205F || code == 0x3000
}

/// The characters of `text`.
fn chars_of(text: &str) -> (chars: Vec<char>)
    ensures
        chars@ == text@,
{
    let mut chars: Vec<char> = Vec::new();
    for c in it: text.chars()
        invariant
            it.seq() == text@,
            chars@ == it.seq().take(it.index()),
    {
        chars.push(c);
    }
    chars
}

/// Where the words of `chars` begin and end.
fn word_ranges(chars: &Vec<char>) -> (ranges: Vec<(usize, usize)>)
    ensures
        ranges@.len() == words(chars@).len(),
        forall|k: int|
            0 <= k < ranges@.len() ==> (#[trigger] ranges@[k]).0 <= ranges@[k].1 <= chars@.len()
                && chars@.subrange(ranges@[k].0 as int, ranges@[k].1 as int) == words(chars@)[k],
{
    let mut ranges: Vec<(usize, usize)> = Vec::new();
    let mut start: usize = 0;
    let mut in_word = false;
    let mut i: usize = 0;
    while i < chars.len()
        invariant
            i <= chars@.len(),
            start <= i,
            in_word ==> i > 0 && !is_space(chars@[i - 1]),
            !in_word ==> i == 0 || is_space(chars@[i - 1]),
            words(chars@.take(i as int)).len() == ranges@.len() + if in_word {
                1int
            } else {
                0int
            },
            in_word ==> words(chars@.take(i as int)).last() == chars@.subrange(
                start as int,
                i as int,
            ),
            forall|k: int|
                0 <= k < ranges@.len() ==> (#[trigger] ranges@[k]).0 <= ranges@[k].1 <= i
                    && chars@.subrange(ranges@[k].0 as int, ranges@[k].1 as int) == words(
                    chars@.take(i as int),
                )[k],
        decreases chars@.len() - i,
    {
        let c = chars[i];
        proof {
            let longer = chars@.take(i as int + 1);
            assert(longer.drop_last() =~= chars@.take(i as int));
            assert(longer.last() == c);
            if i > 0 {
                assert(longer[longer.len() - 2] == chars@[i - 1]);
            }
        }
        if is_whitespace(c) {
            if in_word {
                ranges.push((start, i));
                in_word = false;
            }
        } else if in_word {
            assert(chars@.subrange(start as int, i as int).push(c) =~= chars@.subrange(
                start as int,
                i as int + 1,
            ));
        } else {
            start = i;
            in_word = true;
            assert(seq![c] =~= chars@.subrange(i as int, i as int + 1));
        }
        i = i + 1;
    }
    assert(chars@.take(i as int) =~= chars@);
    if in_word {
        ranges.push((start, i));
    }
    ranges
}

/// Where no character of `text` before position `at` is a dot, and `at` is
/// the end of `text` or the position of a dot, `at` is the position of the
/// first dot.
proof fn lemma_dot_index(text: Seq<char>, at: int)
    requires
        0 <= at <= text.len(),
        forall|j: int| 0 <= j < at ==> text[j] != '.',
        at < text.len() ==> text[at] == '.',
    ensures
        dot_index(text) == at,
    decreases text.len(),
{
    if at > 0 {
        let rest = text.drop_first();
        assert forall|j: int| 0 <= j < at - 1 implies rest[j] != '.' by {
            assert(rest[j] == text[j + 1]);
        }
        if at < text.len() {
            assert(rest[at - 1] == text[at]);
        }
        lemma_dot_index(rest, at - 1);
    }
}

/// The position of the first dot in `chars` from `from` up to `to`, and `to`
/// where there is none.
fn find_dot(chars: &Vec<char>, from: usize, to: usize) -> (at: usize)
    requires
        from <= to <= chars@.len(),
    ensures
        from <= at <= to,
        at - from == dot_index(chars@.subrange(from as int, to as int)),
{
    let mut at: usize = from;
    while at < to && chars[at] != '.'
        invariant
            from <= at <= to <= chars@.len(),
            forall|j: int| from <= j < at ==> chars@[j] != '.',
        decreases to - at,
    {
        at = at + 1;
    }
    proof {
        let piece = chars@.subrange(from as int, to as int);
        assert forall|j: int| 0 <= j < at - from implies piece[j] != '.' by {
            assert(piece[j] == chars@[from + j]);
        }
        lemma_dot_index(piece, at - from);
    }
    at
}

/// The number that the characters of `chars` from `from` up to `to` stand
/// for.
fn parse_number(chars: &Vec<char>, from: usize, to: usize) -> (result: Result<usize, NumberError>)
    requires
        from <= to <= chars@.len(),
    ensures
        result == number(chars@.subrange(from as int, to as int)),
{
    let ghost piece = chars@.subrange(from as int, to as int);
    if from == to {
        return Err(NumberError::Empty);
    }
    assert(piece[0] == chars@[from as int]);
    let first = chars[from];
    if to - from == 1 && (first == '+' || first == '-') {
        return Err(NumberError::InvalidDigit);
    }
    let begin: usize = if first == '+' {
        from + 1
    } else {
        from
    };
    let ghost digits = chars@.subrange(begin as int, to as int);
    proof {
        if first == '+' {
            assert(digits =~= piece.drop_first());
        } else {
            assert(digits =~= piece);
        }
    }
    let mut value: usize = 0;
    let mut i: usize = begin;
    while i < to
        invariant
            begin <= i <= to <= chars@.len(),
            piece == chars@.subrange(from as int, to as int),
            digits == chars@.subrange(begin as int, to as int),
            number(piece) == digits_number(digits),
            digits_number(digits.take(i - begin)) == Ok::<usize, NumberError>(value),
        decreases to - i,
    {
        let c = chars[i];
        proof {
            lemma_digits_step(digits, i - begin);
            assert(digits[i - begin] == c);
        }
        if !('0' <= c && c <= '9') {
            proof {
                lemma_digits_error_stays(digits, i - begin + 1);
            }
            return Err(NumberError::InvalidDigit);
        }
        let digit: usize = (c as u32 - 48) as usize;
        assert(digit <= 9);
        if value > (usize::MAX - digit) / 10 {
            proof {
                lemma_digits_error_stays(digits, i - begin + 1);
            }
            return Err(NumberError::PosOverflow);
        }
        value = value * 10 + digit;
        i = i + 1;
    }
    assert(digits.take(i - begin) =~= digits);
    Ok(value)
}

/// What one more digit makes of the number read so far.
proof fn lemma_digits_step(digits: Seq<char>, n: int)
    requires
        0 <= n < digits.len(),
    ensures
        digits_number(digits.take(n + 1)) == match digits_number(digits.take(n)) {
            Err(error) => Err::<usize, NumberError>(error),
            Ok(front) => if !is_digit(digits[n]) {
                Err(NumberError::InvalidDigit)
            } else if front * 10 + (digits[n] as u32 - 48) > usize::MAX {
                Err(NumberError::PosOverflow)
            } else {
                Ok((front * 10 + (digits[n] as u32 - 48)) as usize)
            },
        },
{
    let longer = digits.take(n + 1);
    assert(longer.drop_last() =~= digits.take(n));
    assert(longer.last() == digits[n]);
}

/// Once a front part of `digits` cannot be read, neither can `digits`, for
/// the same reason.
proof fn lemma_digits_error_stays(digits: Seq<char>, n: int)
    requires
        0 <= n <= digits.len(),
        digits_number(digits.take(n)) is Err,
    ensures
        digits_number(digits) == digits_number(digits.take(n)),
    decreases digits.len() - n,
{
    if n < digits.len() {
        let longer = digits.take(n + 1);
        assert(longer.drop_last() =~= digits.take(n));
        lemma_digits_error_stays(digits, n + 1);
    } else {
        assert(digits.take(n) =~= digits);
    }
}

/// Reads the version that a line of the form `gnuplot 5.2 patchlevel 5a`
/// announces.
pub fn parse_version(version_str: &str) -> (result: Result<Version, Option<NumberError>>)
    ensures
        match result {
            Ok(version) => version_of(version_str@) == Ok::<VersionView, Option<NumberError>>(
                version@,
            ),
            Err(error) => version_of(version_str@) == Err::<VersionView, Option<NumberError>>(
                error,
            ),
        },
{
    let chars = chars_of(version_str);
    let ranges = word_ranges(&chars);
    if ranges.len() < 2 {
        return Err(None);
    }
    let (from, to) = ranges[1];
    let ghost version = chars@.subrange(from as int, to as int);
    let dot = find_dot(&chars, from, to);
    assert(chars@.subrange(from as int, dot as int) =~= version.take(dot - from));
    let major = match parse_number(&chars, from, dot) {
        Ok(major) => major,
        Err(error) => {
            return Err(Some(error));
        },
    };
    if dot >= to {
        return Err(None);
    }
    let ghost rest = version.skip(dot - from + 1);
    assert(chars@.subrange(dot as int + 1, to as int) =~= rest);
    let end = find_dot(&chars, dot + 1, to);
    assert(chars@.subrange(dot as int + 1, end as int) =~= rest.take(end - dot - 1));
    let minor = match parse_number(&chars, dot + 1, end) {
        Ok(minor) => minor,
        Err(error) => {
            return Err(Some(error));
        },
    };
    if ranges.len() < 4 {
        return Err(None);
    }
    let (patch_from, patch_to) = ranges[3];
    let patch = version_str.substring_char(patch_from, patch_to).to_owned();
    Ok(Version { major, minor, patch })
}

/// Reads the version of gnuplot from the outcome of a run of
/// `gnuplot --version`: what the run left behind, or the reason why it could
/// not be started.
pub fn version(outcome: Result<Output, String>) -> (result: Result<Version, VersionError>)
    ensures
        match result {
            Ok(version) => version_from(outcome) == Ok::<VersionView, VersionErrorView>(version@),
            Err(error) => version_from(outcome) == Err::<VersionView, VersionErrorView>(error@),
        },
{
    let output = match outcome {
        Ok(output) => output,
        Err(reason) => {
            return Err(VersionError::Exec(reason));
        },
    };
    let Output { success, stdout, stderr } = output;
    if !success {
        return match string_from_utf8(stderr) {
            Some(message) => Err(VersionError::Error(message)),
            None => Err(VersionError::OutputError),
        };
    }
    let text = match string_from_utf8(stdout) {
        Some(text) => text,
        None => {
            return Err(VersionError::OutputError);
        },
    };
    match parse_version(text.as_str()) {
        Ok(version) => Ok(version),
        Err(_) => Err(VersionError::ParseError(text)),
    }
}

impl VersionError {
    /// What the error says, in full.
    pub open spec fn message_text(self) -> Seq<char> {
        match self {
            VersionError::Exec(reason) => "`gnuplot --version` failed: "@ + reason@,
            VersionError::Error(message) => "`gnuplot --version` failed with error message:\n"@
                + message@,
            VersionError::OutputError => "`gnuplot --version` returned invalid utf-8"@,
            VersionError::ParseError(text) =>
                "`gnuplot --version` returned an unparseable version string: "@ + text@,
        }
    }

    /// The name of the kind of error.
    pub open spec fn description_text(self) -> Seq<char> {
        match self {
            VersionError::Exec(_) => "Execution Error"@,
            VersionError::Error(_) => "Other Error"@,
            VersionError::OutputError => "Output Error"@,
            VersionError::ParseError(_) => "Parse Error"@,
        }
    }

    /// What the error says, in full.
    pub fn message(&self) -> (text: String)
        ensures
            text@ == self.message_text(),
    {
        match self {
            VersionError::Exec(reason) => {
                let mut text = "`gnuplot --version` failed: ".to_owned();
                text.append(reason.as_str());
                text
            },
            VersionError::Error(message) => {
                let mut text = "`gnuplot --version` failed with error message:\n".to_owned();
                text.append(message.as_str());
                text
            },
            VersionError::OutputError => "`gnuplot --version` returned invalid utf-8".to_owned(),
            VersionError::ParseError(unparsed) => {
                let mut text = "`gnuplot --version` returned an unparseable version string: ".to_owned();
                text.append(unparsed.as_str());
                text
            },
        }
    }

    /// The name of the kind of error.
    pub fn description(&self) -> (text: &'static str)
        ensures
            text@ == self.description_text(),
    {
        match self {
            VersionError::Exec(_) => "Execution Error",
            VersionError::Error(_) => "Other Error",
            VersionError::OutputError => "Output Error",
            VersionError::ParseError(_) => "Parse Error",
        }
    }

    /// The reason why the command could not be executed, where that is the
    /// error.
    pub fn cause(&self) -> (reason: Option<&str>)
        ensures
            match *self {
                VersionError::Exec(message) => reason matches Some(r) && r@ == message@,
                _ => reason is None,
            },
    {
        match self {
            VersionError::Exec(reason) => Some(reason.as_str()),
            _ => None,
        }
    }
}

} // verus!
