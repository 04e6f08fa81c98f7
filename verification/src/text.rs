//! Building blocks for the texts that the bot shows: characters of a string,
//! joining, decimal numbers.

use vstd::prelude::*;
use vstd::std_specs::iter::IteratorSpec;
use vstd::string::{StrSliceExecFns, StringExecFns};

verus! {

/// `String::push` appends one character.
pub assume_specification[ String::push ](s: &mut String, c: char)
    ensures
        final(s)@ == old(s)@.push(c),
;

/// The characters of `s`, in order.
pub fn chars_of(s: &str) -> (chars: Vec<char>)
    ensures
        chars@ == s@,
{
    broadcast use vstd::string::group_string_axioms;

    let mut it = s.chars();
    let mut chars: Vec<char> = Vec::new();
    loop
        invariant
            it.decrease() is Some,
            chars@ + it.remaining() == s@,
        ensures
            chars@ == s@,
        decreases it.decrease()->0,
    {
        match it.next() {
            Some(c) => {
                chars.push(c);
                assert(chars@ + it.remaining() =~= s@);
            },
            None => {
                assert(chars@ =~= s@);
                break ;
            },
        }
    }
    chars
}

/// The string made of `chars`.
pub fn string_of(chars: &Vec<char>) -> (s: String)
    ensures
        s@ == chars@,
{
    let mut s = String::new();
    let mut i: usize = 0;
    while i < chars.len()
        invariant
            i <= chars.len(),
            s@ == chars@.subrange(0, i as int),
        decreases chars.len() - i,
    {
        s.push(chars[i]);
        i = i + 1;
        assert(s@ =~= chars@.subrange(0, i as int));
    }
    assert(chars@.subrange(0, chars.len() as int) =~= chars@);
    s
}

/// The character that writes the digit `d`.
pub open spec fn digit(d: nat) -> char {
    if d == 0 {
        '0'
    } else if d == 1 {
        '1'
    } else if d == 2 {
        '2'
    } else if d == 3 {
        '3'
    } else if d == 4 {
        '4'
    } else if d == 5 {
        '5'
    } else if d == 6 {
        '6'
    } else if d == 7 {
        '7'
    } else if d == 8 {
        '8'
    } else {
        '9'
    }
}

/// `n` written in base ten, without sign or leading zeros.
pub open spec fn decimal(n: nat) -> Seq<char>
    decreases n,
{
    if n < 10 {
        seq![digit(n)]
    } else {
        decimal(n / 10).push(digit(n % 10))
    }
}

/// `n` written in base ten, with a minus sign when negative.
pub open spec fn signed_decimal(n: int) -> Seq<char> {
    if n < 0 {
        seq!['-'] + decimal((-n) as nat)
    } else {
        decimal(n as nat)
    }
}

/// `n` in base ten, with a leading zero when it has a single digit.
pub open spec fn two_digits(n: nat) -> Seq<char> {
    if n < 10 {
        seq!['0'] + decimal(n)
    } else {
        decimal(n)
    }
}

fn digit_char(d: u8) -> (c: char)
    requires
        d < 10,
    ensures
        c == digit(d as nat),
{
    if d == 0 {
        '0'
    } else if d == 1 {
        '1'
    } else if d == 2 {
        '2'
    } else if d == 3 {
        '3'
    } else if d == 4 {
        '4'
    } else if d == 5 {
        '5'
    } else if d == 6 {
        '6'
    } else if d == 7 {
        '7'
    } else if d == 8 {
        '8'
    } else {
        '9'
    }
}

/// Appends `n` in base ten to `out`.
pub fn push_decimal(out: &mut String, n: u128)
    ensures
        final(out)@ == old(out)@ + decimal(n as nat),
    decreases n,
{
    if n >= 10 {
        push_decimal(out, n / 10);
    }
    out.push(digit_char((n % 10) as u8));
    assert(out@ =~= old(out)@ + decimal(n as nat));
}

/// Appends `n` in base ten to `out`, with a minus sign when negative.
pub fn push_signed_decimal(out: &mut String, n: i128)
    ensures
        final(out)@ == old(out)@ + signed_decimal(n as int),
{
    if n < 0 {
        out.push('-');
        let magnitude: u128 = (-(n + 1)) as u128 + 1;
        push_decimal(out, magnitude);
        assert(out@ =~= old(out)@ + signed_decimal(n as int));
    } else {
        push_decimal(out, n as u128);
    }
}

/// Whole seconds in `millis` milliseconds, rounded down.
pub open spec fn whole_seconds(millis: int) -> int {
    millis / 1000
}

/// Whole seconds in `millis` milliseconds, rounded down.
pub fn seconds_of(millis: i128) -> (seconds: i128)
    ensures
        seconds == whole_seconds(millis as int),
{
    if millis >= 0 {
        millis / 1000
    } else {
        let up: i128 = -(millis + 1);
        -(up / 1000) - 1
    }
}

/// Appends `n` to `out` in at least two digits.
pub fn push_two_digits(out: &mut String, n: u128)
    ensures
        final(out)@ == old(out)@ + two_digits(n as nat),
{
    if n < 10 {
        out.push('0');
    }
    push_decimal(out, n);
    assert(out@ =~= old(out)@ + two_digits(n as nat));
}

/// The items of `items` written one after another with `sep` between
/// neighbours.
pub open spec fn joined(items: Seq<Seq<char>>, sep: Seq<char>) -> Seq<char>
    decreases items.len(),
{
    if items.len() == 0 {
        Seq::empty()
    } else if items.len() == 1 {
        items[0]
    } else {
        joined(items.drop_last(), sep) + sep + items.last()
    }
}

/// The texts of a list of strings.
pub open spec fn texts(items: Seq<String>) -> Seq<Seq<char>> {
    Seq::new(items.len(), |i: int| items[i]@)
}

/// Joins `items` with `sep` between neighbours.
pub fn join(items: &Vec<String>, sep: &str) -> (out: String)
    ensures
        out@ == joined(texts(items@), sep@),
{
    let mut out = String::new();
    let mut i: usize = 0;
    while i < items.len()
        invariant
            i <= items.len(),
            out@ == joined(texts(items@).subrange(0, i as int), sep@),
        decreases items.len() - i,
    {
        let ghost before = texts(items@).subrange(0, i as int);
        let ghost after = texts(items@).subrange(0, i + 1);
        assert(after.drop_last() =~= before);
        assert(after.last() == items@[i as int]@);
        if i > 0 {
            out.append(sep);
        }
        out.append(items[i].as_str());
        assert(out@ =~= joined(after, sep@));
        i = i + 1;
    }
    assert(texts(items@).subrange(0, items.len() as int) =~= texts(items@));
    out
}

/// Whether `c` is one of the 128 ASCII characters.
pub open spec fn is_ascii(c: char) -> bool {
    c as u32 <= 0x7f
}

/// Whether `c` is ASCII white space: tab, line feed, vertical tab, form
/// feed, carriage return or space.
pub open spec fn is_ascii_space(c: char) -> bool {
    0x09 <= c as u32 <= 0x0d || c == ' '
}

/// Whether `c` is an ASCII letter or digit.
pub open spec fn is_ascii_alphanumeric(c: char) -> bool {
    '0' <= c <= '9' || 'a' <= c <= 'z' || 'A' <= c <= 'Z'
}

/// `c` with the ASCII capitals turned into small letters.
pub open spec fn ascii_lower(c: char) -> char {
    if 'A' <= c <= 'Z' {
        ((c as u32 + 32) as u8) as char
    } else {
        c
    }
}

pub fn char_is_ascii(c: char) -> (r: bool)
    ensures
        r == is_ascii(c),
{
    c as u32 <= 0x7f
}

pub fn char_is_ascii_space(c: char) -> (r: bool)
    ensures
        r == is_ascii_space(c),
{
    let code: u32 = c as u32;
    (0x09 <= code && code <= 0x0d) || code == 0x20
}

pub fn char_is_ascii_alphanumeric(c: char) -> (r: bool)
    ensures
        r == is_ascii_alphanumeric(c),
{
    ('0' <= c && c <= '9') || ('a' <= c && c <= 'z') || ('A' <= c && c <= 'Z')
}

pub fn char_ascii_lower(c: char) -> (r: char)
    ensures
        r == ascii_lower(c),
{
    if 'A' <= c && c <= 'Z' {
        ((c as u32 + 32) as u8) as char
    } else {
        c
    }
}

/// Whether `c` is one of the marks `-`, `+`, `&`, `.` and `/`.
pub open spec fn is_joining_mark(c: char) -> bool {
    c == '-' || c == '+' || c == '&' || c == '.' || c == '/'
}

/// Whether `c` may stand in the name of a command or option: an ASCII
/// letter or digit, or an underscore.
pub open spec fn is_name_char(c: char) -> bool {
    is_ascii_alphanumeric(c) || c == '_'
}

/// `c` as it goes into a name: white space becomes an underscore, and so do
/// the joining marks where `marks` is set; capitals become small letters.
pub open spec fn underscored(c: char, marks: bool) -> char {
    if is_ascii_space(c) || (marks && is_joining_mark(c)) {
        '_'
    } else {
        ascii_lower(c)
    }
}

/// The ASCII characters of `s`.
pub open spec fn ascii_only(s: Seq<char>) -> Seq<char> {
    s.filter(|c: char| is_ascii(c))
}

/// The characters of `s` as they go into a name, without those that may not
/// stand in one.
pub open spec fn name_chars(s: Seq<char>, marks: bool) -> Seq<char> {
    s.map_values(|c: char| underscored(c, marks)).filter(|c: char| is_name_char(c))
}

/// How many characters at the beginning of `s` are ASCII white space.
pub open spec fn leading_spaces(s: Seq<char>) -> nat
    decreases s.len(),
{
    if s.len() > 0 && is_ascii_space(s[0]) {
        1 + leading_spaces(s.drop_first())
    } else {
        0
    }
}

/// How many characters at the end of `s` are ASCII white space.
pub open spec fn trailing_spaces(s: Seq<char>) -> nat
    decreases s.len(),
{
    if s.len() > 0 && is_ascii_space(s.last()) {
        1 + trailing_spaces(s.drop_last())
    } else {
        0
    }
}

/// `s` without the ASCII white space at its beginning and end.
pub open spec fn trim_ascii(s: Seq<char>) -> Seq<char> {
    if leading_spaces(s) == s.len() {
        Seq::empty()
    } else {
        s.subrange(leading_spaces(s) as int, s.len() - trailing_spaces(s))
    }
}

/// `s` with every run of underscores cut down to one.
pub open spec fn squeezed(s: Seq<char>) -> Seq<char>
    decreases s.len(),
{
    if s.len() == 0 {
        s
    } else if s.last() == '_' && s.len() >= 2 && s[s.len() - 2] == '_' {
        squeezed(s.drop_last())
    } else {
        squeezed(s.drop_last()).push(s.last())
    }
}

/// The first `n` characters of `s`, or all of `s` where it is shorter.
pub open spec fn first_chars(s: Seq<char>, n: nat) -> Seq<char> {
    if s.len() <= n {
        s
    } else {
        s.take(n as int)
    }
}

/// The ASCII characters of `chars`.
pub fn keep_ascii(chars: &Vec<char>) -> (out: Vec<char>)
    ensures
        out@ == ascii_only(chars@),
{
    let ghost keep = |c: char| is_ascii(c);
    let mut out: Vec<char> = Vec::new();
    let mut i: usize = 0;
    proof {
        reveal_with_fuel(Seq::filter, 1);
        assert(chars@.take(0) =~= Seq::empty());
    }
    while i < chars.len()
        invariant
            i <= chars.len(),
            keep == |c: char| is_ascii(c),
            out@ == chars@.take(i as int).filter(keep),
        decreases chars.len() - i,
    {
        proof {
            assert(chars@.take(i + 1) =~= chars@.take(i as int).push(chars@[i as int]));
            chars@.take(i as int).lemma_filter_push(chars@[i as int], keep);
        }
        if char_is_ascii(chars[i]) {
            out.push(chars[i]);
        }
        i = i + 1;
    }
    assert(chars@.take(chars.len() as int) =~= chars@);
    out
}

fn char_underscored(c: char, marks: bool) -> (r: char)
    ensures
        r == underscored(c, marks),
{
    if char_is_ascii_space(c) || (marks && (c == '-' || c == '+' || c == '&' || c == '.' || c
        == '/')) {
        '_'
    } else {
        char_ascii_lower(c)
    }
}

/// The characters of `chars` as they go into a name.
pub fn keep_name_chars(chars: &Vec<char>, marks: bool) -> (out: Vec<char>)
    ensures
        out@ == name_chars(chars@, marks),
{
    let ghost turn = |c: char| underscored(c, marks);
    let ghost keep = |c: char| is_name_char(c);
    let mut out: Vec<char> = Vec::new();
    let mut i: usize = 0;
    proof {
        reveal_with_fuel(Seq::filter, 1);
        assert(chars@.take(0).map_values(turn) =~= Seq::empty());
    }
    while i < chars.len()
        invariant
            i <= chars.len(),
            turn == |c: char| underscored(c, marks),
            keep == |c: char| is_name_char(c),
            out@ == chars@.take(i as int).map_values(turn).filter(keep),
        decreases chars.len() - i,
    {
        let c = char_underscored(chars[i], marks);
        proof {
            assert(chars@.take(i + 1).map_values(turn) =~= chars@.take(i as int).map_values(
                turn,
            ).push(c));
            chars@.take(i as int).map_values(turn).lemma_filter_push(c, keep);
        }
        if char_is_ascii_alphanumeric(c) || c == '_' {
            out.push(c);
        }
        i = i + 1;
    }
    assert(chars@.take(chars.len() as int) =~= chars@);
    out
}

proof fn lemma_leading_spaces(s: Seq<char>, i: int)
    requires
        0 <= i <= s.len(),
        forall|j: int| 0 <= j < i ==> is_ascii_space(s[j]),
    ensures
        leading_spaces(s) == i + leading_spaces(s.subrange(i, s.len() as int)),
    decreases i,
{
    if i > 0 {
        assert(s.drop_first().subrange(i - 1, s.len() - 1) =~= s.subrange(i, s.len() as int));
        lemma_leading_spaces(s.drop_first(), i - 1);
    } else {
        assert(s.subrange(0, s.len() as int) =~= s);
    }
}

proof fn lemma_trailing_spaces(s: Seq<char>, i: int)
    requires
        0 <= i <= s.len(),
        forall|j: int| i <= j < s.len() ==> is_ascii_space(s[j]),
    ensures
        trailing_spaces(s) == s.len() - i + trailing_spaces(s.subrange(0, i)),
    decreases s.len() - i,
{
    if i < s.len() {
        assert(s.drop_last().subrange(0, i) =~= s.subrange(0, i));
        lemma_trailing_spaces(s.drop_last(), i);
    } else {
        assert(s.subrange(0, s.len() as int) =~= s);
    }
}

/// `chars` without the ASCII white space at its beginning and end.
pub fn trim_ascii_space(chars: &Vec<char>) -> (out: Vec<char>)
    ensures
        out@ == trim_ascii(chars@),
{
    let mut start: usize = 0;
    while start < chars.len() && char_is_ascii_space(chars[start])
        invariant
            start <= chars.len(),
            forall|j: int| 0 <= j < start ==> is_ascii_space(chars@[j]),
        decreases chars.len() - start,
    {
        start = start + 1;
    }
    proof {
        lemma_leading_spaces(chars@, start as int);
    }
    if start == chars.len() {
        return Vec::new();
    }
    let mut end: usize = chars.len();
    while end > start && char_is_ascii_space(chars[end - 1])
        invariant
            start < chars.len(),
            !is_ascii_space(chars@[start as int]),
            start <= end <= chars.len(),
            forall|j: int| end <= j < chars.len() ==> is_ascii_space(chars@[j]),
        decreases end,
    {
        end = end - 1;
    }
    proof {
        lemma_trailing_spaces(chars@, end as int);
    }
    let mut out: Vec<char> = Vec::new();
    let mut i: usize = start;
    while i < end
        invariant
            start <= i <= end <= chars.len(),
            out@ == chars@.subrange(start as int, i as int),
        decreases end - i,
    {
        out.push(chars[i]);
        assert(out@ =~= chars@.subrange(start as int, i + 1));
        i = i + 1;
    }
    out
}

/// `chars` with every run of underscores cut down to one, cut off after
/// `limit` characters.
pub fn squeeze_underscores(chars: &Vec<char>, limit: usize) -> (out: Vec<char>)
    ensures
        out@ == first_chars(squeezed(chars@), limit as nat),
{
    let mut out: Vec<char> = Vec::new();
    let mut prev_was_underscore = false;
    let mut i: usize = 0;
    proof {
        assert(chars@.take(0) =~= Seq::empty());
    }
    while i < chars.len()
        invariant
            i <= chars.len(),
            out@ == first_chars(squeezed(chars@.take(i as int)), limit as nat),
            prev_was_underscore == (i > 0 && chars@[i - 1] == '_'),
        decreases chars.len() - i,
    {
        let c = chars[i];
        proof {
            assert(chars@.take(i + 1).drop_last() =~= chars@.take(i as int));
            lemma_squeezed_len(chars@.take(i as int));
        }
        if !(c == '_' && prev_was_underscore) && out.len() < limit {
            out.push(c);
        }
        prev_was_underscore = c == '_';
        assert(out@ =~= first_chars(squeezed(chars@.take(i + 1)), limit as nat));
        i = i + 1;
    }
    assert(chars@.take(chars.len() as int) =~= chars@);
    out
}

/// Squeezing never lengthens a text.
pub proof fn lemma_squeezed_len(s: Seq<char>)
    ensures
        squeezed(s).len() <= s.len(),
    decreases s.len(),
{
    if s.len() > 0 {
        lemma_squeezed_len(s.drop_last());
    }
}

/// `n` in base ten, with zeros in front until it has four digits.
pub open spec fn four_digits(n: nat) -> Seq<char> {
    if n < 10 {
        "000"@ + decimal(n)
    } else if n < 100 {
        "00"@ + decimal(n)
    } else if n < 1000 {
        "0"@ + decimal(n)
    } else {
        decimal(n)
    }
}

/// Appends `n` to `out` in at least four digits.
pub fn push_four_digits(out: &mut String, n: u128)
    ensures
        final(out)@ == old(out)@ + four_digits(n as nat),
{
    if n < 10 {
        out.append("000");
    } else if n < 100 {
        out.append("00");
    } else if n < 1000 {
        out.append("0");
    }
    push_decimal(out, n);
    assert(out@ =~= old(out)@ + four_digits(n as nat));
}

/// A member's handle: the name, then `#` and the discriminator in four
/// digits.
pub open spec fn handle_text(name: Seq<char>, discriminator: u16) -> Seq<char> {
    name + "#"@ + four_digits(discriminator as nat)
}

/// Writes a member's handle.
pub fn user_handle(name: &str, discriminator: u16) -> (out: String)
    ensures
        out@ == handle_text(name@, discriminator),
{
    let mut out = String::from_str(name);
    out.append("#");
    push_four_digits(&mut out, discriminator as u128);
    out
}

/// Whether `pattern` stands in `s` at position `at`.
pub open spec fn occurs_at(s: Seq<char>, pattern: Seq<char>, at: int) -> bool {
    0 <= at && at + pattern.len() <= s.len() && s.subrange(at, at + pattern.len()) == pattern
}

/// Whether `s` begins with `prefix`.
pub open spec fn has_prefix(s: Seq<char>, prefix: Seq<char>) -> bool {
    occurs_at(s, prefix, 0)
}

/// Whether `pattern` stands somewhere in `s`.
pub open spec fn contains_text(s: Seq<char>, pattern: Seq<char>) -> bool {
    exists|at: int| occurs_at(s, pattern, at)
}

/// Whether `pattern` stands in `s` at position `at`.
pub fn matches_at(s: &Vec<char>, pattern: &Vec<char>, at: usize) -> (found: bool)
    ensures
        found == occurs_at(s@, pattern@, at as int),
{
    if at > s.len() || pattern.len() > s.len() - at {
        return false;
    }
    let mut i: usize = 0;
    while i < pattern.len()
        invariant
            i <= pattern.len(),
            at + pattern.len() <= s.len(),
            forall|j: int| 0 <= j < i ==> s@[at + j] == pattern@[j],
        decreases pattern.len() - i,
    {
        if s[at + i] != pattern[i] {
            assert(s@.subrange(at as int, at + pattern.len())[i as int] != pattern@[i as int]);
            return false;
        }
        i = i + 1;
    }
    assert(s@.subrange(at as int, at + pattern.len()) =~= pattern@);
    true
}

/// Whether `s` begins with `prefix`.
pub fn starts_with(s: &str, prefix: &str) -> (found: bool)
    ensures
        found == has_prefix(s@, prefix@),
{
    matches_at(&chars_of(s), &chars_of(prefix), 0)
}

/// Whether `pattern` stands somewhere in the characters `s`.
pub fn contains_chars(s: &Vec<char>, pattern: &Vec<char>) -> (found: bool)
    ensures
        found == contains_text(s@, pattern@),
{
    if pattern.len() > s.len() {
        return false;
    }
    let last: usize = s.len() - pattern.len();
    let mut at: usize = 0;
    while at < last
        invariant
            last == s.len() - pattern.len(),
            at <= last,
            forall|j: int| 0 <= j < at ==> !occurs_at(s@, pattern@, j),
        decreases last - at,
    {
        if matches_at(s, pattern, at) {
            return true;
        }
        at = at + 1;
    }
    matches_at(s, pattern, last)
}

/// Whether `pattern` stands somewhere in `s`.
pub fn contains(s: &str, pattern: &str) -> (found: bool)
    ensures
        found == contains_text(s@, pattern@),
{
    contains_chars(&chars_of(s), &chars_of(pattern))
}

/// Whether two texts are the same.
pub fn same_text(a: &str, b: &str) -> (same: bool)
    ensures
        same == (a@ == b@),
{
    String::from_str(a) == String::from_str(b)
}

/// How many characters `s` loses at its beginning when `prefix` is taken
/// off as often as it stands there.
pub open spec fn leading_run(s: Seq<char>, prefix: Seq<char>) -> nat
    decreases s.len(),
{
    if prefix.len() > 0 && has_prefix(s, prefix) {
        prefix.len() + leading_run(s.subrange(prefix.len() as int, s.len() as int), prefix)
    } else {
        0
    }
}

/// How many characters `s` loses at its end when `suffix` is taken off as
/// often as it stands there.
pub open spec fn trailing_run(s: Seq<char>, suffix: Seq<char>) -> nat
    decreases s.len(),
{
    if suffix.len() > 0 && occurs_at(s, suffix, s.len() - suffix.len()) {
        suffix.len() + trailing_run(s.subrange(0, s.len() - suffix.len()), suffix)
    } else {
        0
    }
}

/// The run of `leading_run` never exceeds the text.
pub proof fn lemma_leading_run_bound(s: Seq<char>, prefix: Seq<char>)
    ensures
        leading_run(s, prefix) <= s.len(),
    decreases s.len(),
{
    if prefix.len() > 0 && has_prefix(s, prefix) {
        lemma_leading_run_bound(s.subrange(prefix.len() as int, s.len() as int), prefix);
    }
}

/// The run of `trailing_run` never exceeds the text.
pub proof fn lemma_trailing_run_bound(s: Seq<char>, suffix: Seq<char>)
    ensures
        trailing_run(s, suffix) <= s.len(),
    decreases s.len(),
{
    if suffix.len() > 0 && occurs_at(s, suffix, s.len() - suffix.len()) {
        lemma_trailing_run_bound(s.subrange(0, s.len() - suffix.len()), suffix);
    }
}

/// How many characters `s` loses at its beginning when `prefix` is taken
/// off as often as it stands there.
pub fn count_leading(s: &Vec<char>, prefix: &Vec<char>) -> (run: usize)
    ensures
        run == leading_run(s@, prefix@),
        run <= s.len(),
{
    if prefix.len() == 0 {
        return 0;
    }
    let mut at: usize = 0;
    proof {
        assert(s@.subrange(0, s.len() as int) =~= s@);
    }
    loop
        invariant
            prefix.len() > 0,
            at <= s.len(),
            leading_run(s@, prefix@) == at + leading_run(
                s@.subrange(at as int, s.len() as int),
                prefix@,
            ),
        ensures
            at <= s.len(),
            at == leading_run(s@, prefix@),
        decreases s.len() - at,
    {
        let ghost tail = s@.subrange(at as int, s.len() as int);
        if matches_at(s, prefix, at) {
            proof {
                assert(tail.subrange(0, prefix.len() as int) =~= s@.subrange(
                    at as int,
                    at + prefix.len(),
                ));
                assert(tail.subrange(prefix.len() as int, tail.len() as int) =~= s@.subrange(
                    at + prefix.len(),
                    s.len() as int,
                ));
            }
            at = at + prefix.len();
        } else {
            proof {
                if at + prefix.len() <= s.len() {
                    assert(tail.subrange(0, prefix.len() as int) =~= s@.subrange(
                        at as int,
                        at + prefix.len(),
                    ));
                }
            }
            break ;
        }
    }
    at
}

/// How many characters the first `end` characters of `s` lose at their end
/// when `suffix` is taken off as often as it stands there.
pub fn count_trailing(s: &Vec<char>, end: usize, suffix: &Vec<char>) -> (run: usize)
    requires
        end <= s.len(),
    ensures
        run == trailing_run(s@.subrange(0, end as int), suffix@),
        run <= end,
{
    if suffix.len() == 0 {
        return 0;
    }
    let mut at: usize = end;
    loop
        invariant
            suffix.len() > 0,
            at <= end <= s.len(),
            trailing_run(s@.subrange(0, end as int), suffix@) == end - at + trailing_run(
                s@.subrange(0, at as int),
                suffix@,
            ),
        ensures
            at <= end,
            end - at == trailing_run(s@.subrange(0, end as int), suffix@),
        decreases at,
    {
        let ghost head = s@.subrange(0, at as int);
        if at >= suffix.len() && matches_at(s, suffix, at - suffix.len()) {
            proof {
                assert(head.subrange(at - suffix.len(), at as int) =~= s@.subrange(
                    at - suffix.len(),
                    at as int,
                ));
                assert(head.subrange(0, at - suffix.len()) =~= s@.subrange(0, at - suffix.len()));
            }
            at = at - suffix.len();
        } else {
            proof {
                if at >= suffix.len() {
                    assert(head.subrange(at - suffix.len(), at as int) =~= s@.subrange(
                        at - suffix.len(),
                        at as int,
                    ));
                }
            }
            break ;
        }
    }
    end - at
}

/// The value of `c` as a hexadecimal digit, if it is one.
pub open spec fn hex_digit(c: char) -> Option<nat> {
    if '0' <= c <= '9' {
        Some((c as u32 - '0' as u32) as nat)
    } else if 'a' <= c <= 'f' {
        Some((c as u32 - 'a' as u32 + 10) as nat)
    } else if 'A' <= c <= 'F' {
        Some((c as u32 - 'A' as u32 + 10) as nat)
    } else {
        None
    }
}

/// Whether all of `digits` are hexadecimal digits.
pub open spec fn all_hex(digits: Seq<char>) -> bool {
    forall|i: int| 0 <= i < digits.len() ==> hex_digit(#[trigger] digits[i]) is Some
}

/// The number that `digits` write in base sixteen.
pub open spec fn hex_value(digits: Seq<char>) -> nat
    decreases digits.len(),
{
    if digits.len() == 0 {
        0
    } else {
        16 * hex_value(digits.drop_last()) + (match hex_digit(digits.last()) {
            Some(d) => d,
            None => 0,
        })
    }
}

/// The number that `s` writes in base sixteen: an optional `+`, then at
/// least one digit, the whole not above the largest `u64`.
pub open spec fn parsed_hex(s: Seq<char>) -> Option<u64> {
    let digits = if s.len() > 0 && s[0] == '+' {
        s.subrange(1, s.len() as int)
    } else {
        s
    };
    if digits.len() > 0 && all_hex(digits) && hex_value(digits) <= u64::MAX {
        Some(hex_value(digits) as u64)
    } else {
        None
    }
}

proof fn lemma_hex_value_grows(digits: Seq<char>, n: int)
    requires
        0 <= n <= digits.len(),
    ensures
        hex_value(digits.take(n)) <= hex_value(digits),
    decreases digits.len() - n,
{
    if n < digits.len() {
        assert(digits.take(n + 1).drop_last() =~= digits.take(n));
        lemma_hex_value_grows(digits, n + 1);
    } else {
        assert(digits.take(n) =~= digits);
    }
}

fn hex_digit_of(c: char) -> (d: Option<u64>)
    ensures
        match d {
            Some(v) => hex_digit(c) == Some(v as nat) && v < 16,
            None => hex_digit(c) is None,
        },
{
    if '0' <= c && c <= '9' {
        Some((c as u32 - '0' as u32) as u64)
    } else if 'a' <= c && c <= 'f' {
        Some((c as u32 - 'a' as u32 + 10) as u64)
    } else if 'A' <= c && c <= 'F' {
        Some((c as u32 - 'A' as u32 + 10) as u64)
    } else {
        None
    }
}

/// Reads a number written in base sixteen.
pub fn parse_hex(s: &str) -> (number: Option<u64>)
    ensures
        number == parsed_hex(s@),
{
    let chars = chars_of(s);
    let start: usize = if chars.len() > 0 && chars[0] == '+' {
        1
    } else {
        0
    };
    let ghost digits = chars@.subrange(start as int, chars.len() as int);
    if start == chars.len() {
        proof {
            assert(digits.len() == 0);
            assert(digits =~= (if s@.len() > 0 && s@[0] == '+' {
                s@.subrange(1, s@.len() as int)
            } else {
                s@
            }));
        }
        return None;
    }
    let mut value: u64 = 0;
    let mut i: usize = start;
    proof {
        assert(digits.take(0) =~= Seq::empty());
    }
    while i < chars.len()
        invariant
            start <= i <= chars.len(),
            start < chars.len(),
            chars@ == s@,
            start == (if s@.len() > 0 && s@[0] == '+' {
                1int
            } else {
                0int
            }),
            digits == chars@.subrange(start as int, chars.len() as int),
            value == hex_value(digits.take(i - start)),
            forall|j: int| 0 <= j < i - start ==> hex_digit(#[trigger] digits[j]) is Some,
        decreases chars.len() - i,
    {
        proof {
            assert(digits.take(i - start + 1).drop_last() =~= digits.take(i - start));
            assert(digits.take(i - start + 1).last() == chars@[i as int]);
            assert(digits[i - start] == chars@[i as int]);
        }
        let d = match hex_digit_of(chars[i]) {
            Some(d) => d,
            None => {
                assert(!all_hex(digits));
                assert(digits =~= (if s@.len() > 0 && s@[0] == '+' {
                    s@.subrange(1, s@.len() as int)
                } else {
                    s@
                }));
                return None;
            },
        };
        if value > (u64::MAX - d) / 16 {
            proof {
                assert(hex_value(digits.take(i - start + 1)) == 16 * value + d);
                lemma_hex_value_grows(digits, i - start + 1);
                assert(digits =~= (if s@.len() > 0 && s@[0] == '+' {
                    s@.subrange(1, s@.len() as int)
                } else {
                    s@
                }));
            }
            return None;
        }
        value = value * 16 + d;
        i = i + 1;
    }
    proof {
        assert(digits.take(digits.len() as int) =~= digits);
        assert(all_hex(digits));
        assert(digits =~= (if s@.len() > 0 && s@[0] == '+' {
            s@.subrange(1, s@.len() as int)
        } else {
            s@
        }));
    }
    Some(value)
}

/// The characters of `chars` from position `from` up to position `to`.
pub fn slice_chars(chars: &Vec<char>, from: usize, to: usize) -> (out: Vec<char>)
    requires
        from <= to <= chars.len(),
    ensures
        out@ == chars@.subrange(from as int, to as int),
{
    let mut out: Vec<char> = Vec::new();
    let mut i: usize = from;
    while i < to
        invariant
            from <= i <= to <= chars.len(),
            out@ == chars@.subrange(from as int, i as int),
        decreases to - i,
    {
        out.push(chars[i]);
        assert(out@ =~= chars@.subrange(from as int, i + 1));
        i = i + 1;
    }
    out
}

/// `s` without `prefix` at its beginning, taken off as often as it stands
/// there.
pub open spec fn without_leading(s: Seq<char>, prefix: Seq<char>) -> Seq<char> {
    s.subrange(leading_run(s, prefix) as int, s.len() as int)
}

/// `s` without `suffix` at its end, taken off as often as it stands there.
pub open spec fn without_trailing(s: Seq<char>, suffix: Seq<char>) -> Seq<char> {
    s.subrange(0, s.len() - trailing_run(s, suffix))
}

/// `s` without `prefix` at its beginning and then without `suffix` at its
/// end, each taken off as often as it stands there.
pub fn strip_both<'a>(s: &'a str, prefix: &str, suffix: &str) -> (out: &'a str)
    ensures
        out@ == without_trailing(without_leading(s@, prefix@), suffix@),
{
    let chars = chars_of(s);
    let from = count_leading(&chars, &chars_of(prefix));
    let rest = slice_chars(&chars, from, chars.len());
    let cut = count_trailing(&rest, rest.len(), &chars_of(suffix));
    proof {
        assert(rest@.subrange(0, rest.len() as int) =~= rest@);
        assert(rest@.subrange(0, rest.len() - cut) =~= s@.subrange(
            from as int,
            s@.len() - cut,
        ));
    }
    s.substring_char(from, chars.len() - cut)
}

/// The value of `c` as a digit of base ten, if it is one.
pub open spec fn decimal_digit(c: char) -> Option<nat> {
    if '0' <= c <= '9' {
        Some((c as u32 - '0' as u32) as nat)
    } else {
        None
    }
}

/// Whether all of `digits` are digits of base ten.
pub open spec fn all_decimal(digits: Seq<char>) -> bool {
    forall|i: int| 0 <= i < digits.len() ==> decimal_digit(#[trigger] digits[i]) is Some
}

/// The number that `digits` write in base ten.
pub open spec fn decimal_value(digits: Seq<char>) -> nat
    decreases digits.len(),
{
    if digits.len() == 0 {
        0
    } else {
        10 * decimal_value(digits.drop_last()) + (match decimal_digit(digits.last()) {
            Some(d) => d,
            None => 0,
        })
    }
}

/// `s` without a `+` in front.
pub open spec fn unsigned_part(s: Seq<char>) -> Seq<char> {
    if s.len() > 0 && s[0] == '+' {
        s.subrange(1, s.len() as int)
    } else {
        s
    }
}

/// The number that `s` writes in base ten: an optional `+`, then at least
/// one digit, the whole not above the largest `usize`.
pub open spec fn parsed_decimal(s: Seq<char>) -> Option<usize> {
    let digits = unsigned_part(s);
    if digits.len() > 0 && all_decimal(digits) && decimal_value(digits) <= usize::MAX {
        Some(decimal_value(digits) as usize)
    } else {
        None
    }
}

proof fn lemma_decimal_value_grows(digits: Seq<char>, n: int)
    requires
        0 <= n <= digits.len(),
    ensures
        decimal_value(digits.take(n)) <= decimal_value(digits),
    decreases digits.len() - n,
{
    if n < digits.len() {
        assert(digits.take(n + 1).drop_last() =~= digits.take(n));
        lemma_decimal_value_grows(digits, n + 1);
    } else {
        assert(digits.take(n) =~= digits);
    }
}

/// Reads a number written in base ten.
pub fn parse_decimal(s: &str) -> (number: Option<usize>)
    ensures
        number == parsed_decimal(s@),
{
    let chars = chars_of(s);
    let start: usize = if chars.len() > 0 && chars[0] == '+' {
        1
    } else {
        0
    };
    let ghost digits = chars@.subrange(start as int, chars.len() as int);
    proof {
        assert(digits =~= unsigned_part(s@));
    }
    if start == chars.len() {
        return None;
    }
    let mut value: usize = 0;
    let mut i: usize = start;
    proof {
        assert(digits.take(0) =~= Seq::empty());
    }
    while i < chars.len()
        invariant
            start <= i <= chars.len(),
            start < chars.len(),
            digits == unsigned_part(s@),
            digits == chars@.subrange(start as int, chars.len() as int),
            value == decimal_value(digits.take(i - start)),
            forall|j: int| 0 <= j < i - start ==> decimal_digit(#[trigger] digits[j]) is Some,
        decreases chars.len() - i,
    {
        proof {
            assert(digits.take(i - start + 1).drop_last() =~= digits.take(i - start));
            assert(digits.take(i - start + 1).last() == chars@[i as int]);
            assert(digits[i - start] == chars@[i as int]);
        }
        let c = chars[i];
        if !('0' <= c && c <= '9') {
            assert(!all_decimal(digits));
            return None;
        }
        let d: usize = (c as u32 - '0' as u32) as usize;
        if value > (usize::MAX - d) / 10 {
            proof {
                assert(decimal_value(digits.take(i - start + 1)) == 10 * value + d);
                lemma_decimal_value_grows(digits, i - start + 1);
            }
            return None;
        }
        value = value * 10 + d;
        i = i + 1;
    }
    proof {
        assert(digits.take(digits.len() as int) =~= digits);
        assert(all_decimal(digits));
    }
    Some(value)
}

/// Position of the first `sep` in `s`, or the length of `s` where it holds
/// none.
pub open spec fn first_position(s: Seq<char>, sep: char) -> int
    decreases s.len(),
{
    if s.len() == 0 || s[0] == sep {
        0
    } else {
        1 + first_position(s.subrange(1, s.len() as int), sep)
    }
}

/// The first position lies in the text or at its end, and nothing before
/// it is the separator.
pub proof fn lemma_first_position(s: Seq<char>, sep: char)
    ensures
        0 <= first_position(s, sep) <= s.len(),
        first_position(s, sep) < s.len() ==> s[first_position(s, sep)] == sep,
        forall|j: int| 0 <= j < first_position(s, sep) ==> s[j] != sep,
    decreases s.len(),
{
    if !(s.len() == 0 || s[0] == sep) {
        let rest = s.subrange(1, s.len() as int);
        lemma_first_position(rest, sep);
        assert forall|j: int| 0 <= j < first_position(s, sep) implies s[j] != sep by {
            if j > 0 {
                assert(rest[j - 1] == s[j]);
            }
        }
    }
}

/// The parts of `s` between the separators `sep`. A text without
/// separator is one part.
pub open spec fn split_text(s: Seq<char>, sep: char) -> Seq<Seq<char>>
    decreases s.len(),
{
    let at = first_position(s, sep);
    if 0 <= at < s.len() {
        seq![s.subrange(0, at)] + split_text(s.subrange(at + 1, s.len() as int), sep)
    } else {
        seq![s]
    }
}

/// Position of the first `sep` in `chars` from position `from` on, or the
/// length of `chars` where there is none.
pub fn find_char(chars: &Vec<char>, from: usize, sep: char) -> (at: usize)
    requires
        from <= chars.len(),
    ensures
        from <= at <= chars.len(),
        at - from == first_position(chars@.subrange(from as int, chars.len() as int), sep),
{
    let mut at: usize = from;
    proof {
        assert(chars@.subrange(from as int, chars.len() as int).subrange(
            0,
            chars.len() - from,
        ) =~= chars@.subrange(from as int, chars.len() as int));
    }
    while at < chars.len() && chars[at] != sep
        invariant
            from <= at <= chars.len(),
            first_position(chars@.subrange(from as int, chars.len() as int), sep) == at - from
                + first_position(chars@.subrange(at as int, chars.len() as int), sep),
        decreases chars.len() - at,
    {
        proof {
            let rest = chars@.subrange(at as int, chars.len() as int);
            assert(rest[0] == chars@[at as int]);
            assert(rest.subrange(1, rest.len() as int) =~= chars@.subrange(
                at + 1,
                chars.len() as int,
            ));
        }
        at = at + 1;
    }
    proof {
        let rest = chars@.subrange(at as int, chars.len() as int);
        if at < chars.len() {
            assert(rest[0] == chars@[at as int]);
        }
    }
    at
}

/// The parts of `s` between the separators `sep`.
pub fn split(s: &str, sep: char) -> (parts: Vec<String>)
    ensures
        texts(parts@) == split_text(s@, sep),
{
    let chars = chars_of(s);
    let mut parts: Vec<String> = Vec::new();
    let mut from: usize = 0;
    proof {
        assert(chars@.subrange(0, chars.len() as int) =~= chars@);
        assert(texts(parts@) + split_text(chars@, sep) =~= split_text(chars@, sep));
    }
    loop
        invariant_except_break
            from <= chars.len(),
            chars@ == s@,
            texts(parts@) + split_text(chars@.subrange(from as int, chars.len() as int), sep)
                == split_text(s@, sep),
        ensures
            texts(parts@) == split_text(s@, sep),
        decreases chars.len() - from,
    {
        let ghost rest = chars@.subrange(from as int, chars.len() as int);
        let ghost before = texts(parts@);
        let at = find_char(&chars, from, sep);
        let part = string_of(&slice_chars(&chars, from, at));
        parts.push(part);
        proof {
            assert(part@ =~= rest.subrange(0, at - from));
            assert(texts(parts@) =~= before.push(part@));
        }
        if at == chars.len() {
            proof {
                assert(rest.subrange(0, rest.len() as int) =~= rest);
                assert(before + seq![rest] =~= before.push(rest));
            }
            break ;
        }
        proof {
            assert(rest.subrange(at - from + 1, rest.len() as int) =~= chars@.subrange(
                at + 1,
                chars.len() as int,
            ));
            assert(before + (seq![rest.subrange(0, at - from)] + split_text(
                chars@.subrange(at + 1, chars.len() as int),
                sep,
            )) =~= before.push(part@) + split_text(
                chars@.subrange(at + 1, chars.len() as int),
                sep,
            ));
        }
        from = at + 1;
    }
    parts
}

/// `s` without `prefix` at its beginning, where it begins with it.
pub open spec fn stripped_prefix(s: Seq<char>, prefix: Seq<char>) -> Option<Seq<char>> {
    if has_prefix(s, prefix) {
        Some(s.subrange(prefix.len() as int, s.len() as int))
    } else {
        None
    }
}

/// `s` without `prefix` at its beginning, where it begins with it.
pub fn strip_prefix<'a>(s: &'a str, prefix: &str) -> (rest: Option<&'a str>)
    ensures
        (match rest {
            Some(r) => Some(r@),
            None => None,
        }) == stripped_prefix(s@, prefix@),
{
    let chars = chars_of(s);
    let start = chars_of(prefix);
    if matches_at(&chars, &start, 0) {
        Some(s.substring_char(start.len(), chars.len()))
    } else {
        None
    }
}

/// The part of `s` before the first `sep`, or all of `s` where it holds
/// none.
pub open spec fn before_first(s: Seq<char>, sep: char) -> Seq<char> {
    s.subrange(0, first_position(s, sep))
}

/// The part of `s` before the first `sep`.
pub fn up_to<'a>(s: &'a str, sep: char) -> (part: &'a str)
    ensures
        part@ == before_first(s@, sep),
{
    let chars = chars_of(s);
    let at = find_char(&chars, 0, sep);
    proof {
        assert(chars@.subrange(0, chars.len() as int) =~= chars@);
    }
    s.substring_char(0, at)
}

} // verus!
