//! Strings: equality, joining, decimal numbers, trimming and splitting.

use vstd::prelude::*;
use vstd::string::*;

verus! {

/// The texts of a list of strings.
pub open spec fn texts(list: Seq<String>) -> Seq<Seq<char>> {
    list.map_values(|s: String| s@)
}

/// The text of an optional string.
pub open spec fn opt_text(s: Option<String>) -> Option<Seq<char>> {
    match s {
        Some(v) => Some(v@),
        None => None,
    }
}

/// An outcome with its string payloads seen as texts.
pub open spec fn unit_outcome(r: Result<(), String>) -> Result<(), Seq<char>> {
    match r {
        Ok(_) => Ok(()),
        Err(e) => Err(e@),
    }
}

/// Whether two strings hold the same text.
pub fn str_eq(a: &str, b: &str) -> (r: bool)
    ensures
        r == (a@ == b@),
{
    let left: String = a.to_owned();
    let right: String = b.to_owned();
    left.eq(&right)
}

/// The text of `a` followed by that of `b`.
pub fn concat2(a: &str, b: &str) -> (r: String)
    ensures
        r@ == a@ + b@,
{
    let mut out: String = a.to_owned();
    out.append(b);
    out
}

/// The texts of `a`, `b` and `c`, one after the other.
pub fn concat3(a: &str, b: &str, c: &str) -> (r: String)
    ensures
        r@ == a@ + b@ + c@,
{
    let mut out: String = a.to_owned();
    out.append(b);
    out.append(c);
    out
}

/// A copy of an optional string.
pub fn clone_opt(s: &Option<String>) -> (r: Option<String>)
    ensures
        opt_text(r) == opt_text(*s),
{
    match s {
        Some(v) => Some(v.clone()),
        None => None,
    }
}

/// The characters of a string.
pub fn chars_of(s: &str) -> (r: Vec<char>)
    ensures
        r@ == s@,
{
    let mut out: Vec<char> = Vec::new();
    for c in it: s.chars()
        invariant
            it.seq() == s@,
            out@ == it.seq().take(it.index() as int),
    {
        out.push(c);
        assert(out@ =~= it.seq().take(it.index() + 1));
    }
    assert(out@ =~= s@);
    out
}

// ---------------------------------------------------------------------------
// Decimal numbers
// ---------------------------------------------------------------------------

/// The character of a decimal digit.
pub open spec fn digit_char(d: nat) -> char {
    (48 + d) as char
}

/// Whether a character is an ASCII decimal digit.
pub open spec fn is_digit(c: char) -> bool {
    48 <= c as nat <= 57
}

/// The decimal notation of a number, without leading zeros.
pub open spec fn decimal(n: nat) -> Seq<char>
    decreases n,
{
    if n < 10 {
        seq![digit_char(n)]
    } else {
        decimal(n / 10).push(digit_char(n % 10))
    }
}

/// The number that a string of digits denotes.
pub open spec fn digits_value(s: Seq<char>) -> nat
    decreases s.len(),
{
    if s.len() == 0 {
        0
    } else {
        (digits_value(s.drop_last()) * 10 + (s.last() as nat - 48)) as nat
    }
}

/// Whether a string consists of at least one character, all of them digits.
pub open spec fn all_digits(s: Seq<char>) -> bool {
    s.len() > 0 && forall|i: int| 0 <= i < s.len() ==> is_digit(#[trigger] s[i])
}

/// A string with one leading plus sign dropped.
pub open spec fn without_plus(s: Seq<char>) -> Seq<char> {
    if s.len() > 0 && s[0] == '+' {
        s.drop_first()
    } else {
        s
    }
}

/// The number that a string denotes: an optional plus sign, then digits only.
pub open spec fn parse_unsigned(s: Seq<char>) -> Option<nat> {
    if all_digits(without_plus(s)) {
        Some(digits_value(without_plus(s)))
    } else {
        None
    }
}

/// The number that a string denotes, where it is at most `max`.
pub open spec fn parse_up_to(s: Seq<char>, max: nat) -> Option<nat> {
    match parse_unsigned(s) {
        Some(v) => if v <= max {
            Some(v)
        } else {
            None
        },
        None => None,
    }
}

fn digit_str(d: u64) -> (r: &'static str)
    requires
        d < 10,
    ensures
        r@ == seq![digit_char(d as nat)],
{
    proof {
        reveal_strlit("0");
        reveal_strlit("1");
        reveal_strlit("2");
        reveal_strlit("3");
        reveal_strlit("4");
        reveal_strlit("5");
        reveal_strlit("6");
        reveal_strlit("7");
        reveal_strlit("8");
        reveal_strlit("9");
    }
    let r: &'static str = if d == 0 {
        "0"
    } else if d == 1 {
        "1"
    } else if d == 2 {
        "2"
    } else if d == 3 {
        "3"
    } else if d == 4 {
        "4"
    } else if d == 5 {
        "5"
    } else if d == 6 {
        "6"
    } else if d == 7 {
        "7"
    } else if d == 8 {
        "8"
    } else {
        "9"
    };
    assert(r@ =~= seq![digit_char(d as nat)]);
    r
}

/// The decimal notation of a number.
pub fn u64_text(n: u64) -> (r: String)
    ensures
        r@ == decimal(n as nat),
    decreases n,
{
    if n < 10 {
        digit_str(n).to_owned()
    } else {
        let mut out: String = u64_text(n / 10);
        out.append(digit_str(n % 10));
        assert(out@ =~= decimal(n as nat));
        out
    }
}

/// A decimal notation is made of digits and denotes its number.
pub proof fn lemma_decimal_value(n: nat)
    ensures
        all_digits(decimal(n)),
        digits_value(decimal(n)) == n,
    decreases n,
{
    if n < 10 {
        assert(decimal(n).drop_last() =~= Seq::<char>::empty());
        assert(digits_value(Seq::<char>::empty()) == 0);
    } else {
        lemma_decimal_value(n / 10);
        assert(decimal(n).drop_last() =~= decimal(n / 10));
    }
}

/// Reading a decimal notation gives its number back.
pub proof fn lemma_parse_decimal(n: nat)
    ensures
        parse_unsigned(decimal(n)) == Some(n),
{
    lemma_decimal_value(n);
    assert(is_digit(decimal(n)[0]));
    assert(without_plus(decimal(n)) == decimal(n));
}

/// Different numbers have different decimal notations.
pub proof fn lemma_decimal_injective(a: nat, b: nat)
    requires
        decimal(a) == decimal(b),
    ensures
        a == b,
{
    lemma_decimal_value(a);
    lemma_decimal_value(b);
}

proof fn lemma_value_monotone(s: Seq<char>, k: int)
    requires
        0 <= k <= s.len(),
        forall|i: int| 0 <= i < s.len() ==> is_digit(#[trigger] s[i]),
    ensures
        digits_value(s.take(k)) <= digits_value(s),
    decreases s.len() - k,
{
    if k == s.len() {
        assert(s.take(k) =~= s);
    } else {
        lemma_value_monotone(s, k + 1);
        assert(s.take(k + 1).drop_last() =~= s.take(k));
        assert(is_digit(s[k]));
        assert(s.take(k + 1).last() == s[k]);
    }
}

fn digit_of(c: char) -> (r: Option<u64>)
    ensures
        match r {
            Some(d) => is_digit(c) && d == c as nat - 48,
            None => !is_digit(c),
        },
{
    let code: u32 = c as u32;
    if code < 48 || code > 57 {
        None
    } else {
        Some((code - 48) as u64)
    }
}

/// The number of at most 64 bits that a string denotes: an optional plus sign, then
/// digits only.
pub fn parse_u64(s: &str) -> (r: Option<u64>)
    ensures
        match r {
            Some(v) => parse_up_to(s@, u64::MAX as nat) == Some(v as nat),
            None => parse_up_to(s@, u64::MAX as nat) is None,
        },
{
    let chars: Vec<char> = chars_of(s);
    let ghost body = without_plus(s@);
    let start: usize = if chars.len() > 0 && chars[0] == '+' {
        1
    } else {
        0
    };
    if chars.len() == start {
        return None;
    }
    let mut value: u64 = 0;
    let mut i: usize = start;
    assert(body.take(0) =~= Seq::<char>::empty());
    while i < chars.len()
        invariant
            start <= i <= chars.len(),
            start <= 1,
            chars@ == s@,
            body == without_plus(s@),
            body.len() == chars.len() - start,
            forall|k: int| 0 <= k < body.len() ==> #[trigger] body[k] == chars[k + start],
            forall|k: int| 0 <= k < i - start ==> is_digit(#[trigger] body[k]),
            value as nat == digits_value(body.take(i - start)),
        decreases chars.len() - i,
    {
        let ghost at = i - start;
        assert(body[at] == chars[i as int]);
        let digit: u64 = match digit_of(chars[i]) {
            Some(d) => d,
            None => {
                return None;
            },
        };
        assert(body.take(at + 1).drop_last() =~= body.take(at));
        assert(digits_value(body.take(at + 1)) == value as nat * 10 + digit as nat);
        if value > 1844674407370955161 || (value == 1844674407370955161 && digit > 5) {
            proof {
                if all_digits(body) {
                    lemma_value_monotone(body, at + 1);
                }
            }
            return None;
        }
        value = value * 10 + digit;
        i = i + 1;
    }
    assert(body.take(body.len() as int) =~= body);
    Some(value)
}

/// The machine-sized number that a string denotes: an optional plus sign, then digits
/// only.
pub fn parse_usize(s: &str) -> (r: Option<usize>)
    ensures
        match r {
            Some(v) => parse_up_to(s@, usize::MAX as nat) == Some(v as nat),
            None => parse_up_to(s@, usize::MAX as nat) is None,
        },
{
    match parse_u64(s) {
        Some(v) => if v <= usize::MAX as u64 {
            Some(v as usize)
        } else {
            None
        },
        None => None,
    }
}

// ---------------------------------------------------------------------------
// Prefixes
// ---------------------------------------------------------------------------

/// Whether `s` begins with `prefix`.
pub fn starts_with(s: &str, prefix: &str) -> (r: bool)
    ensures
        r == prefix@.is_prefix_of(s@),
{
    let n: usize = prefix.unicode_len();
    if s.unicode_len() < n {
        return false;
    }
    let head: &str = s.substring_char(0, n);
    assert(s@.subrange(0, n as int).len() == prefix@.len());
    str_eq(head, prefix)
}

/// What follows `prefix` in `s`, where `s` begins with it.
pub fn strip_prefix<'a>(s: &'a str, prefix: &str) -> (r: Option<&'a str>)
    ensures
        match r {
            Some(rest) => prefix@.is_prefix_of(s@) && rest@ == s@.skip(prefix@.len() as int),
            None => !prefix@.is_prefix_of(s@),
        },
{
    if starts_with(s, prefix) {
        let n: usize = prefix.unicode_len();
        let all: usize = s.unicode_len();
        Some(s.substring_char(n, all))
    } else {
        None
    }
}

// ---------------------------------------------------------------------------
// Trimming and splitting
// ---------------------------------------------------------------------------

/// Whether a character has the Unicode property White_Space.
pub open spec fn is_white(c: char) -> bool {
    let v = c as nat;
    ||| 0x09 <= v <= 0x0D
    ||| v == 0x20
    ||| v == 0x85
    ||| v == 0xA0
    ||| v == 0x1680
    ||| 0x2000 <= v <= 0x200A
    ||| v == 0x2028
    ||| v == 0x2029
    ||| v == 0x202F
    ||| v == 0x205F
    ||| v == 0x3000
}

fn white(c: char) -> (r: bool)
    ensures
        r == is_white(c),
{
    let v: u32 = c as u32;
    (v >= 0x09 && v <= 0x0D) || v == 0x20 || v == 0x85 || v == 0xA0 || v == 0x1680 || (v >= 0x2000
        && v <= 0x200A) || v == 0x2028 || v == 0x2029 || v == 0x202F || v == 0x205F || v == 0x3000
}

/// A text without its leading white space.
pub open spec fn trim_start(s: Seq<char>) -> Seq<char>
    decreases s.len(),
{
    if s.len() > 0 && is_white(s[0]) {
        trim_start(s.drop_first())
    } else {
        s
    }
}

/// A text without its trailing white space.
pub open spec fn trim_end(s: Seq<char>) -> Seq<char>
    decreases s.len(),
{
    if s.len() > 0 && is_white(s.last()) {
        trim_end(s.drop_last())
    } else {
        s
    }
}

/// A text without leading and trailing white space.
pub open spec fn trimmed(s: Seq<char>) -> Seq<char> {
    trim_end(trim_start(s))
}

/// A text without its trailing slashes.
pub open spec fn trim_slashes(s: Seq<char>) -> Seq<char>
    decreases s.len(),
{
    if s.len() > 0 && s.last() == '/' {
        trim_slashes(s.drop_last())
    } else {
        s
    }
}

/// How many characters at the start of a text are no white space.
pub open spec fn word_len(s: Seq<char>) -> nat
    decreases s.len(),
{
    if s.len() > 0 && !is_white(s[0]) {
        1 + word_len(s.drop_first())
    } else {
        0
    }
}

/// The maximal runs of a text that hold no white space, in order.
pub open spec fn words(s: Seq<char>) -> Seq<Seq<char>>
    decreases s.len(),
{
    let t = trim_start(s);
    proof {
        lemma_trim_start_len(s);
        lemma_word_len(t);
    }
    if t.len() == 0 {
        Seq::empty()
    } else {
        seq![t.take(word_len(t) as int)] + words(t.skip(word_len(t) as int))
    }
}

pub proof fn lemma_trim_start_len(s: Seq<char>)
    ensures
        trim_start(s).len() <= s.len(),
        trim_start(s).len() > 0 ==> !is_white(trim_start(s)[0]),
    decreases s.len(),
{
    if s.len() > 0 && is_white(s[0]) {
        lemma_trim_start_len(s.drop_first());
    }
}

pub proof fn lemma_word_len(s: Seq<char>)
    ensures
        word_len(s) <= s.len(),
        s.len() > 0 && !is_white(s[0]) ==> word_len(s) > 0,
    decreases s.len(),
{
    if s.len() > 0 && !is_white(s[0]) {
        lemma_word_len(s.drop_first());
    }
}

/// Where the leading white space ends, counted from `from`.
fn skip_white(chars: &Vec<char>, from: usize) -> (r: usize)
    requires
        from <= chars.len(),
    ensures
        from <= r <= chars.len(),
        trim_start(chars@.skip(from as int)) == chars@.skip(r as int),
{
    let mut i: usize = from;
    while i < chars.len() && white(chars[i])
        invariant
            from <= i <= chars.len(),
            trim_start(chars@.skip(from as int)) == trim_start(chars@.skip(i as int)),
        decreases chars.len() - i,
    {
        assert(chars@.skip(i as int).drop_first() =~= chars@.skip(i + 1));
        i = i + 1;
    }
    i
}

/// A text without leading and trailing white space.
pub fn trim(s: &str) -> (r: &str)
    ensures
        r@ == trimmed(s@),
{
    let chars: Vec<char> = chars_of(s);
    let n: usize = s.unicode_len();
    let start: usize = skip_white(&chars, 0);
    assert(chars@.skip(0) =~= s@);
    let mut end: usize = n;
    assert(s@.subrange(start as int, n as int) =~= s@.skip(start as int));
    while end > start && white(chars[end - 1])
        invariant
            start <= end <= n,
            n == chars.len(),
            chars@ == s@,
            trim_end(s@.subrange(start as int, end as int)) == trimmed(s@),
        decreases end,
    {
        assert(s@.subrange(start as int, end as int).drop_last() =~= s@.subrange(
            start as int,
            end - 1,
        ));
        end = end - 1;
    }
    s.substring_char(start, end)
}

/// A text without its trailing white space.
pub fn trim_right(s: &str) -> (r: &str)
    ensures
        r@ == trim_end(s@),
{
    let chars: Vec<char> = chars_of(s);
    let n: usize = s.unicode_len();
    let mut end: usize = n;
    assert(s@.subrange(0, n as int) =~= s@);
    while end > 0 && white(chars[end - 1])
        invariant
            end <= n,
            n == chars.len(),
            chars@ == s@,
            trim_end(s@.subrange(0, end as int)) == trim_end(s@),
        decreases end,
    {
        assert(s@.subrange(0, end as int).drop_last() =~= s@.subrange(0, end - 1));
        end = end - 1;
    }
    s.substring_char(0, end)
}

/// A text without its trailing slashes.
pub fn trim_trailing_slashes(s: &str) -> (r: &str)
    ensures
        r@ == trim_slashes(s@),
{
    let chars: Vec<char> = chars_of(s);
    let n: usize = s.unicode_len();
    let mut end: usize = n;
    assert(s@.subrange(0, n as int) =~= s@);
    while end > 0 && chars[end - 1] == '/'
        invariant
            end <= n,
            n == chars.len(),
            chars@ == s@,
            trim_slashes(s@.subrange(0, end as int)) == trim_slashes(s@),
        decreases end,
    {
        assert(s@.subrange(0, end as int).drop_last() =~= s@.subrange(0, end - 1));
        end = end - 1;
    }
    s.substring_char(0, end)
}

proof fn lemma_word_len_take(s: Seq<char>, k: nat)
    requires
        k <= s.len(),
        forall|i: int| 0 <= i < k ==> !is_white(#[trigger] s[i]),
        k < s.len() ==> is_white(s[k as int]),
    ensures
        word_len(s) == k,
    decreases s.len(),
{
    if k > 0 {
        let rest = s.drop_first();
        assert(!is_white(s[0]));
        assert forall|i: int| 0 <= i < k - 1 implies !is_white(#[trigger] rest[i]) by {
            assert(rest[i] == s[i + 1]);
        }
        lemma_word_len_take(rest, (k - 1) as nat);
    }
}

/// The words of a text: its maximal runs without white space.
pub fn split_words(s: &str) -> (r: Vec<String>)
    ensures
        texts(r@) == words(s@),
{
    let chars: Vec<char> = chars_of(s);
    let n: usize = s.unicode_len();
    let mut out: Vec<String> = Vec::new();
    let mut at: usize = 0;
    assert(chars@.skip(0) =~= s@);
    assert(texts(out@) + words(s@) =~= words(s@));
    loop
        invariant
            at <= n,
            n == chars.len(),
            chars@ == s@,
            texts(out@) + words(s@.skip(at as int)) == words(s@),
        ensures
            texts(out@) == words(s@),
        decreases n - at,
    {
        let start: usize = skip_white(&chars, at);
        if start == n {
            assert(s@.skip(start as int).len() == 0);
            assert(words(s@.skip(at as int)) =~= Seq::<Seq<char>>::empty());
            assert(texts(out@) =~= words(s@));
            break;
        }
        let ghost tail = s@.skip(start as int);
        proof {
            lemma_trim_start_len(s@.skip(at as int));
        }
        let mut end: usize = start;
        while end < n && !white(chars[end])
            invariant
                start <= end <= n,
                n == chars.len(),
                chars@ == s@,
                forall|i: int| start <= i < end ==> !is_white(#[trigger] chars@[i]),
            ensures
                end < n ==> is_white(chars@[end as int]),
                start <= end <= n,
                forall|i: int| start <= i < end ==> !is_white(#[trigger] chars@[i]),
            decreases n - end,
        {
            end = end + 1;
        }
        proof {
            let k = (end - start) as nat;
            assert forall|i: int| 0 <= i < k implies !is_white(#[trigger] tail[i]) by {
                assert(tail[i] == chars@[i + start]);
            }
            assert(k < tail.len() ==> tail[k as int] == chars@[end as int]);
            lemma_word_len_take(tail, k);
            lemma_word_len(tail);
            assert(tail.take(k as int) =~= s@.subrange(start as int, end as int));
            assert(tail.skip(k as int) =~= s@.skip(end as int));
        }
        let ghost before = out@;
        let word: &str = s.substring_char(start, end);
        out.push(word.to_owned());
        proof {
            assert(texts(out@) =~= texts(before).push(word@));
            assert(words(s@.skip(at as int)) == seq![word@] + words(s@.skip(end as int)));
            assert(texts(out@) + words(s@.skip(end as int)) =~= texts(before) + words(
                s@.skip(at as int),
            ));
        }
        at = end;
    }
    out
}

/// Texts with a separator between each two of them.
pub open spec fn joined(list: Seq<Seq<char>>, sep: Seq<char>) -> Seq<char>
    decreases list.len(),
{
    if list.len() == 0 {
        Seq::empty()
    } else if list.len() == 1 {
        list[0]
    } else {
        joined(list.drop_last(), sep) + sep + list.last()
    }
}

/// Strings with a separator between each two of them.
pub fn join_strings(list: &Vec<String>, sep: &str) -> (r: String)
    ensures
        r@ == joined(texts(list@), sep@),
{
    let mut out: String = String::new();
    let mut i: usize = 0;
    while i < list.len()
        invariant
            i <= list.len(),
            out@ == joined(texts(list@).take(i as int), sep@),
        decreases list.len() - i,
    {
        if i > 0 {
            out.append(sep);
        }
        out.append(list[i].as_str());
        proof {
            let t = texts(list@);
            assert(t.take(i + 1).drop_last() =~= t.take(i as int));
            assert(t.take(i + 1).last() == t[i as int]);
            if i == 0 {
                assert(out@ =~= t[0]);
            }
        }
        i = i + 1;
    }
    assert(texts(list@).take(list@.len() as int) =~= texts(list@));
    out
}

/// The text with every letter made small, as `str::to_lowercase` has it.
pub uninterp spec fn lowercase(s: Seq<char>) -> Seq<char>;

/// `str::to_lowercase`: the lowercase equivalent of a text, named by `lowercase`. It depends
/// on the text alone.
#[verifier::external_body]
fn make_lowercase(s: &str) -> (r: String)
    ensures
        r@ == lowercase(s@),
{
    s.to_lowercase()
}

/// The text with every letter made small.
pub fn to_lowercase(s: &str) -> (r: String)
    ensures
        r@ == lowercase(s@),
{
    make_lowercase(s)
}

} // verus!
