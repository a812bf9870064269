//! Plain text: numbers in decimal notation, project names and quoted names.

use vstd::prelude::*;
use vstd::string::*;

verus! {

/// `c` is one of the ten ASCII digits.
pub open spec fn is_digit(c: char) -> bool {
    '0' <= c <= '9'
}

/// Every character of `s` is an ASCII digit.
pub open spec fn is_digits(s: Seq<char>) -> bool {
    forall|i: int| 0 <= i < s.len() ==> is_digit(#[trigger] s[i])
}

/// The number that a row of digits denotes in base ten.
pub open spec fn digits_value(s: Seq<char>) -> nat
    decreases s.len(),
{
    if s.len() == 0 {
        0
    } else {
        digits_value(s.drop_last()) * 10 + (s.last() as nat - '0' as nat) as nat
    }
}

/// `s` without a leading plus sign.
pub open spec fn without_plus(s: Seq<char>) -> Seq<char> {
    if s.len() > 0 && s[0] == '+' {
        s.subrange(1, s.len() as int)
    } else {
        s
    }
}

/// The identifier that `s` denotes: an optional plus sign and at least one digit, with a value
/// that 64 bits can hold. Anything else denotes none.
pub open spec fn parsed_id(s: Seq<char>) -> Option<u64> {
    let digits = without_plus(s);
    if digits.len() > 0 && is_digits(digits) && digits_value(digits) <= u64::MAX {
        Some(digits_value(digits) as u64)
    } else {
        None
    }
}

proof fn lemma_digits_value_grows(s: Seq<char>, k: int)
    requires
        0 <= k <= s.len(),
        is_digits(s),
    ensures
        digits_value(s.take(k)) <= digits_value(s),
    decreases s.len() - k,
{
    if k == s.len() {
        assert(s.take(k) =~= s);
    } else {
        let longer = s.take(k + 1);
        assert(longer.drop_last() =~= s.take(k));
        assert(is_digit(s[k]));
        lemma_digits_value_grows(s, k + 1);
    }
}

/// Reads a decimal identifier.
pub fn parse_id(text: &str) -> (id: Option<u64>)
    ensures
        id == parsed_id(text@),
{
    let len: usize = text.unicode_len();
    let mut i: usize = 0;
    if len > 0 && text.get_char(0) == '+' {
        i = 1;
    }
    let ghost digits = without_plus(text@);
    let ghost skipped: int = i as int;
    if i == len {
        return None;
    }
    let mut value: u64 = 0;
    assert(digits.take(0) =~= Seq::<char>::empty());
    while i < len
        invariant
            len == text@.len(),
            skipped <= i <= len,
            skipped == len - digits.len(),
            digits == text@.subrange(skipped, len as int),
            digits == without_plus(text@),
            0 < digits.len(),
            value == digits_value(digits.take(i - skipped)),
            is_digits(digits.take(i - skipped)),
        decreases len - i,
    {
        let c: char = text.get_char(i);
        assert(c == digits[i - skipped]);
        if !('0' <= c && c <= '9') {
            assert(!is_digit(digits[i - skipped]));
            return None;
        }
        let digit: u64 = (c as u32 - '0' as u32) as u64;
        proof {
            let longer = digits.take(i - skipped + 1);
            assert(longer.drop_last() =~= digits.take(i - skipped));
            assert(longer.last() == c);
            assert(digits_value(longer) == value * 10 + digit);
            assert forall|j: int| 0 <= j < longer.len() implies is_digit(#[trigger] longer[j]) by {
                if j < i - skipped {
                    assert(longer[j] == digits.take(i - skipped)[j]);
                }
            }
            if is_digits(digits) {
                lemma_digits_value_grows(digits, i - skipped + 1);
            }
        }
        if value > (u64::MAX - digit) / 10 {
            assert(value * 10 + digit > u64::MAX);
            return None;
        }
        value = value * 10 + digit;
        i = i + 1;
    }
    assert(digits.take(digits.len() as int) =~= digits);
    Some(value)
}

/// The character that stands for a digit's value.
pub open spec fn digit_char(d: nat) -> char {
    ('0' as int + d) as char
}

/// `n` in decimal notation, without leading zeros.
pub open spec fn decimal(n: nat) -> Seq<char>
    decreases n,
{
    if n < 10 {
        seq![digit_char(n)]
    } else {
        decimal(n / 10).push(digit_char(n % 10))
    }
}

fn digit_text(d: u64) -> (text: &'static str)
    requires
        d < 10,
    ensures
        text@ == seq![digit_char(d as nat)],
{
    proof {
        reveal_strlit("0");
        reveal_strlit("1");
        reveal_strlit("2");
        reveal_strlit("3");
        reveal_strlit("4");
        reveal_strlit("5");
        reveal_strlit("6");
        reveal_strlit("7");
        reveal_strlit("8");
        reveal_strlit("9");
    }
    match d {
        0 => "0",
        1 => "1",
        2 => "2",
        3 => "3",
        4 => "4",
        5 => "5",
        6 => "6",
        7 => "7",
        8 => "8",
        _ => "9",
    }
}

/// Writes a number in decimal notation.
pub fn decimal_text(n: u64) -> (text: String)
    ensures
        text@ == decimal(n as nat),
    decreases n,
{
    if n < 10 {
        String::from_str(digit_text(n))
    } else {
        let mut text = decimal_text(n / 10);
        text.append(digit_text(n % 10));
        assert(text@ =~= decimal((n / 10) as nat).push(digit_char((n % 10) as nat)));
        text
    }
}

/// The full name of the project `name` of `origin`: the two with a slash between them.
pub open spec fn full_name(origin: Seq<char>, name: Seq<char>) -> Seq<char> {
    origin + "/"@ + name
}

/// Puts an origin and a package name together to a project's full name.
pub fn project_name(origin: &str, name: &str) -> (full: String)
    ensures
        full@ == full_name(origin@, name@),
{
    let mut full = String::from_str(origin);
    full.append("/");
    full.append(name);
    full
}

/// `s` from the first character on that is not `c`.
pub open spec fn without_leading(s: Seq<char>, c: char) -> Seq<char>
    decreases s.len(),
{
    if s.len() > 0 && s[0] == c {
        without_leading(s.drop_first(), c)
    } else {
        s
    }
}

/// `s` up to the last character that is not `c`.
pub open spec fn without_trailing(s: Seq<char>, c: char) -> Seq<char>
    decreases s.len(),
{
    if s.len() > 0 && s.last() == c {
        without_trailing(s.drop_last(), c)
    } else {
        s
    }
}

/// `s` without the double quotes at its two ends.
pub open spec fn unquoted(s: Seq<char>) -> Seq<char> {
    without_trailing(without_leading(s, '"'), '"')
}

/// Takes the double quotes off both ends of a name.
pub fn unquote(text: &str) -> (bare: String)
    ensures
        bare@ == unquoted(text@),
{
    let len: usize = text.unicode_len();
    let mut from: usize = 0;
    assert(text@.subrange(0, len as int) =~= text@);
    while from < len && text.get_char(from) == '"'
        invariant
            len == text@.len(),
            from <= len,
            without_leading(text@, '"') == without_leading(
                text@.subrange(from as int, len as int),
                '"',
            ),
        decreases len - from,
    {
        assert(text@.subrange(from as int, len as int).drop_first() =~= text@.subrange(
            from + 1,
            len as int,
        ));
        from = from + 1;
    }
    let ghost tail = text@.subrange(from as int, len as int);
    assert(without_leading(text@, '"') == tail);
    let mut to: usize = len;
    while to > from && text.get_char(to - 1) == '"'
        invariant
            len == text@.len(),
            from <= to <= len,
            without_trailing(tail, '"') == without_trailing(
                text@.subrange(from as int, to as int),
                '"',
            ),
        decreases to - from,
    {
        assert(text@.subrange(from as int, to as int).drop_last() =~= text@.subrange(
            from as int,
            to - 1,
        ));
        to = to - 1;
    }
    String::from_str(text.substring_char(from, to))
}

/// Every character of `s` is an ASCII character.
pub open spec fn is_plain(s: Seq<char>) -> bool {
    forall|i: int| 0 <= i < s.len() ==> (#[trigger] s[i] as int) < 128
}

/// `c` as a small letter where it is one of the ASCII capitals, and else `c` itself.
pub open spec fn small(c: char) -> char {
    if 'A' <= c <= 'Z' {
        (c as int - 'A' as int + 'a' as int) as char
    } else {
        c
    }
}

/// `s` with small letters in place of its ASCII capitals.
pub open spec fn in_small_letters(s: Seq<char>) -> Seq<char> {
    s.map_values(|c: char| small(c))
}

/// What `str::to_lowercase` makes of a text that is not all ASCII.
pub uninterp spec fn lowercase(text: Seq<char>) -> Seq<char>;

/// `text` in lower case.
pub open spec fn lowered(text: Seq<char>) -> Seq<char> {
    if is_plain(text) {
        in_small_letters(text)
    } else {
        lowercase(text)
    }
}

/// Calls `str::to_lowercase` of the standard library. ASCII text gets small letters for its
/// capitals. The Unicode case mapping of any other text is a function of the text alone, whatever
/// the locale; its table is not restated, so the result is only named.
#[verifier::external_body]
pub(crate) fn to_lowercase(text: &str) -> (lower: String)
    ensures
        is_plain(text@) ==> lower@ == in_small_letters(text@),
        !is_plain(text@) ==> lower@ == lowercase(text@),
{
    text.to_lowercase()
}

/// A text that is an ASCII word once its capitals are small letters has this word for its lower
/// case.
pub proof fn lowered_word(text: Seq<char>, word: Seq<char>)
    requires
        is_plain(word),
        in_small_letters(text) == word,
    ensures
        lowered(text) == word,
{
    assert forall|i: int| 0 <= i < text.len() implies (#[trigger] text[i] as int) < 128 by {
        assert(word[i] == small(text[i]));
        assert((word[i] as int) < 128);
    }
}

/// A number written in decimal notation reads back as the same number.
pub proof fn parsed_decimal(n: u64)
    ensures
        parsed_id(decimal(n as nat)) == Some(n),
{
    lemma_decimal_digits(n as nat);
    let s = decimal(n as nat);
    assert(is_digit(s[0]));
    assert(without_plus(s) == s);
}

proof fn lemma_decimal_digits(n: nat)
    ensures
        decimal(n).len() > 0,
        is_digits(decimal(n)),
        digits_value(decimal(n)) == n,
    decreases n,
{
    if n < 10 {
        assert(decimal(n).drop_last() =~= Seq::<char>::empty());
        assert(digits_value(Seq::<char>::empty()) == 0);
    } else {
        lemma_decimal_digits(n / 10);
        let s = decimal(n);
        assert(s.drop_last() =~= decimal(n / 10));
        assert forall|i: int| 0 <= i < s.len() implies is_digit(#[trigger] s[i]) by {
            if i < s.len() - 1 {
                assert(s[i] == decimal(n / 10)[i]);
            }
        }
    }
}

/// An unquoted name has a double quote at neither end.
pub proof fn unquoted_ends(s: Seq<char>)
    ensures
        unquoted(s).len() > 0 ==> unquoted(s)[0] != '"' && unquoted(s).last() != '"',
{
    lemma_without_leading(s, '"');
    lemma_without_trailing(without_leading(s, '"'), '"');
}

proof fn lemma_without_leading(s: Seq<char>, c: char)
    ensures
        without_leading(s, c).len() > 0 ==> without_leading(s, c)[0] != c,
    decreases s.len(),
{
    if s.len() > 0 && s[0] == c {
        lemma_without_leading(s.drop_first(), c);
    }
}

proof fn lemma_without_trailing(s: Seq<char>, c: char)
    ensures
        without_trailing(s, c).len() <= s.len(),
        without_trailing(s, c) == s.take(without_trailing(s, c).len() as int),
        without_trailing(s, c).len() > 0 ==> without_trailing(s, c).last() != c,
    decreases s.len(),
{
    if s.len() > 0 && s.last() == c {
        lemma_without_trailing(s.drop_last(), c);
        let k = without_trailing(s, c).len() as int;
        assert(s.drop_last().take(k) =~= s.take(k));
    } else {
        assert(s.take(s.len() as int) =~= s);
    }
}

/// Unquoting takes nothing away but double quotes, from the two ends: what is left is a stretch of
/// the name, and all that stood before it and after it were double quotes. A name without a double
/// quote at either end stays as it is, and one more pair of quotes round a name makes no
/// difference.
pub proof fn unquoted_takes_quotes_only(s: Seq<char>)
    ensures
        exists|i: int, j: int|
            #![trigger s.subrange(i, j)]
            {
                &&& 0 <= i <= j <= s.len()
                &&& unquoted(s) == s.subrange(i, j)
                &&& forall|k: int| 0 <= k < i || j <= k < s.len() ==> #[trigger] s[k] == '"'
            },
        s.len() > 0 && s[0] != '"' && s.last() != '"' ==> unquoted(s) == s,
        unquoted(seq!['"'] + s + seq!['"']) == unquoted(s),
        s.len() > 0 && s[0] != '"' && s.last() != '"' ==> unquoted(seq!['"'] + s + seq!['"']) == s,
{
    let tail = without_leading(s, '"');
    lemma_leading_quotes(s);
    lemma_trailing_quotes(tail);
    let i = s.len() - tail.len();
    let j = i + unquoted(s).len();
    assert(unquoted(s) =~= s.subrange(i, j));
    assert forall|k: int| 0 <= k < i || j <= k < s.len() implies #[trigger] s[k] == '"' by {
        if j <= k {
            assert(s[k] == tail[k - i]);
        }
    }
    if s.len() > 0 && s[0] != '"' && s.last() != '"' {
        assert(tail == s);
    }
    let quoted = seq!['"'] + s + seq!['"'];
    assert(quoted.drop_first() =~= s.push('"'));
    lemma_one_more_quote(s);
}

proof fn lemma_leading_quotes(s: Seq<char>)
    ensures
        without_leading(s, '"').len() <= s.len(),
        without_leading(s, '"') == s.skip(s.len() - without_leading(s, '"').len()),
        forall|k: int|
            0 <= k < s.len() - without_leading(s, '"').len() ==> #[trigger] s[k] == '"',
    decreases s.len(),
{
    if s.len() > 0 && s[0] == '"' {
        let rest = s.drop_first();
        lemma_leading_quotes(rest);
        let n = rest.len() - without_leading(rest, '"').len();
        assert(rest.skip(n) =~= s.skip(n + 1));
        assert forall|k: int| 0 <= k < n + 1 implies #[trigger] s[k] == '"' by {
            if k > 0 {
                assert(s[k] == rest[k - 1]);
            }
        }
    } else {
        assert(s.skip(0) =~= s);
    }
}

proof fn lemma_trailing_quotes(s: Seq<char>)
    ensures
        without_trailing(s, '"').len() <= s.len(),
        without_trailing(s, '"') == s.take(without_trailing(s, '"').len() as int),
        forall|k: int|
            without_trailing(s, '"').len() <= k < s.len() ==> #[trigger] s[k] == '"',
    decreases s.len(),
{
    if s.len() > 0 && s.last() == '"' {
        let rest = s.drop_last();
        lemma_trailing_quotes(rest);
        let n = without_trailing(rest, '"').len() as int;
        assert(rest.take(n) =~= s.take(n));
        assert forall|k: int| n <= k < s.len() implies #[trigger] s[k] == '"' by {
            if k < rest.len() {
                assert(s[k] == rest[k]);
            }
        }
    } else {
        assert(s.take(s.len() as int) =~= s);
    }
}

proof fn lemma_one_more_quote(s: Seq<char>)
    ensures
        unquoted(s.push('"')) == unquoted(s),
    decreases s.len(),
{
    let longer = s.push('"');
    if s.len() == 0 {
        assert(longer.drop_first() =~= s);
    } else if s[0] == '"' {
        assert(longer.drop_first() =~= s.drop_first().push('"'));
        lemma_one_more_quote(s.drop_first());
    } else {
        assert(longer.drop_last() =~= s);
    }
}

/// How texts denote identifiers, digit by digit: a digit alone denotes its value, one digit more
/// makes ten times the number and the digit, a plus sign may stand in front, and nothing that holds
/// anything else, that is too large or that has no digit denotes any.
pub proof fn parsed_id_by_digits(s: Seq<char>, c: char)
    ensures
        parsed_id(Seq::<char>::empty()) is None,
        parsed_id(seq!['+']) is None,
        s.len() > 0 && s[0] != '+' ==> parsed_id(seq!['+'] + s) == parsed_id(s),
        s.len() > 0 && s[0] == '+' ==> parsed_id(seq!['+'] + s) is None,
        '0' <= c <= '9' ==> parsed_id(seq![c]) == Some((c as int - '0' as int) as u64),
        parsed_id(s.push(c)) is Some ==> '0' <= c <= '9',
        parsed_id(s.push(c)) is Some && s.len() > 0 && s != seq!['+'] ==> parsed_id(s) is Some,
        '0' <= c <= '9' && parsed_id(s) is Some ==> parsed_id(s.push(c)) == (if parsed_id(s)->Some_0
            * 10 + (c as int - '0' as int) <= u64::MAX {
            Some((parsed_id(s)->Some_0 * 10 + (c as int - '0' as int)) as u64)
        } else {
            None
        }),
{
    let empty = Seq::<char>::empty();
    let digits = without_plus(s);
    let longer = without_plus(s.push(c));
    assert(without_plus(seq!['+']) =~= empty);
    assert(seq![c].drop_last() =~= empty);
    assert(digits_value(empty) == 0);
    if '0' <= c <= '9' {
        assert(without_plus(seq![c]) == seq![c]);
        assert(is_digits(seq![c]));
        assert(digits_value(seq![c]) == (c as nat - '0' as nat) as nat);
    }
    if s.len() > 0 {
        assert((seq!['+'] + s).subrange(1, (s.len() + 1) as int) =~= s);
        assert(without_plus(seq!['+'] + s) == s);
        if s[0] == '+' {
            assert(!is_digit(s[0]));
        }
        assert(longer =~= digits.push(c));
        assert(longer.drop_last() =~= digits);
        if is_digits(longer) {
            assert(is_digit(longer.last()));
            assert forall|i: int| 0 <= i < digits.len() implies is_digit(#[trigger] digits[i]) by {
                assert(digits[i] == longer[i]);
            }
        }
        if is_digits(digits) && is_digit(c) {
            assert forall|i: int| 0 <= i < longer.len() implies is_digit(#[trigger] longer[i]) by {
                if i < digits.len() {
                    assert(longer[i] == digits[i]);
                }
            }
        }
        if digits.len() == 0 {
            assert(s =~= seq!['+']);
        }
    } else {
        assert(s.push(c) =~= seq![c]);
        if c == '+' {
            assert(longer =~= empty);
        } else {
            assert(longer.len() == 1 && longer[0] == c);
            if is_digits(longer) {
                assert(is_digit(longer[0]));
            }
        }
    }
}

/// Decimal notation, digit by digit: a number below ten is one digit, and any other is the notation
/// of its tens and the digit of its ones.
pub proof fn decimal_by_digits(n: nat)
    ensures
        n < 10 ==> decimal(n).len() == 1 && decimal(n)[0] as int == '0' as int + n,
        n >= 10 ==> {
            &&& decimal(n).len() == decimal(n / 10).len() + 1
            &&& decimal(n).drop_last() == decimal(n / 10)
            &&& decimal(n).last() as int == '0' as int + n % 10
        },
{
    if n >= 10 {
        assert(decimal(n).drop_last() =~= decimal(n / 10));
    }
}

/// A project's full name is its origin, a slash and its name.
pub proof fn full_name_parts(origin: Seq<char>, name: Seq<char>)
    ensures
        full_name(origin, name) == origin + seq!['/'] + name,
{
    reveal_strlit("/");
    assert("/"@ =~= seq!['/']);
}

/// The lower case of ASCII text is as long as the text, with each capital thirty-two places on,
/// where its small letter stands, and everything else in its place. Of any other text it is what
/// `str::to_lowercase` gives.
pub proof fn lowered_by_letters(text: Seq<char>)
    ensures
        (forall|i: int| 0 <= i < text.len() ==> (#[trigger] text[i] as int) < 128) ==> {
            &&& lowered(text).len() == text.len()
            &&& forall|i: int|
                0 <= i < text.len() ==> #[trigger] lowered(text)[i] as int == (if 'A' <= text[i]
                    && text[i] <= 'Z' {
                    text[i] as int + 32
                } else {
                    text[i] as int
                })
        },
        !(forall|i: int| 0 <= i < text.len() ==> (#[trigger] text[i] as int) < 128) ==> lowered(
            text,
        ) == lowercase(text),
{
}

} // verus!
