//! Text as the application writes and tidies it: numbers in decimal for the
//! day counts in messages and in upper-case hexadecimal for the machine code,
//! and the cutting and cleaning of what users typed.

use vstd::prelude::*;
use vstd::string::*;

verus! {

/// The character for one digit below sixteen, letters in upper case.
pub open spec fn digit_char(d: int) -> char {
    if d == 0 {
        '0'
    } else if d == 1 {
        '1'
    } else if d == 2 {
        '2'
    } else if d == 3 {
        '3'
    } else if d == 4 {
        '4'
    } else if d == 5 {
        '5'
    } else if d == 6 {
        '6'
    } else if d == 7 {
        '7'
    } else if d == 8 {
        '8'
    } else if d == 9 {
        '9'
    } else if d == 10 {
        'A'
    } else if d == 11 {
        'B'
    } else if d == 12 {
        'C'
    } else if d == 13 {
        'D'
    } else if d == 14 {
        'E'
    } else {
        'F'
    }
}

/// A natural number in decimal, without leading zeros.
pub open spec fn natural_text(n: nat) -> Seq<char>
    decreases n,
{
    if n < 10 {
        seq![digit_char(n as int)]
    } else {
        natural_text(n / 10).push(digit_char((n % 10) as int))
    }
}

/// An integer in decimal, with a minus sign where it is negative.
pub open spec fn decimal_text(n: int) -> Seq<char> {
    if n < 0 {
        seq!['-'] + natural_text((-n) as nat)
    } else {
        natural_text(n as nat)
    }
}

/// The lowest `width` hexadecimal digits of a natural number, highest digit
/// first, zeros included.
pub open spec fn hex_text(n: nat, width: nat) -> Seq<char>
    decreases width,
{
    if width == 0 {
        Seq::empty()
    } else {
        hex_text(n / 16, (width - 1) as nat).push(digit_char((n % 16) as int))
    }
}

/// Whether the standard library counts a character as white space.
pub uninterp spec fn white_space(c: char) -> bool;

/// A piece of text without the white space at its start.
pub open spec fn trim_start(text: Seq<char>) -> Seq<char>
    decreases text.len(),
{
    if text.len() > 0 && white_space(text[0]) {
        trim_start(text.drop_first())
    } else {
        text
    }
}

/// A piece of text without the white space at its end.
pub open spec fn trim_end(text: Seq<char>) -> Seq<char>
    decreases text.len(),
{
    if text.len() > 0 && white_space(text.last()) {
        trim_end(text.drop_last())
    } else {
        text
    }
}

/// What is left of a piece of text once the white space at both of its ends
/// is taken away: the text from its first to its last character that is not
/// white space, and nothing where it has none.
pub open spec fn trimmed(text: Seq<char>) -> Seq<char> {
    trim_end(trim_start(text))
}

/// Where a piece of text begins with `lead` characters of white space and
/// goes on with another character or ends, what is left without the white
/// space at its start is what follows those `lead` characters.
pub proof fn lemma_trim_start(text: Seq<char>, lead: int)
    requires
        0 <= lead <= text.len(),
        forall|i: int| 0 <= i < lead ==> white_space(#[trigger] text[i]),
        lead == text.len() || !white_space(text[lead]),
    ensures
        trim_start(text) == text.subrange(lead, text.len() as int),
    decreases lead,
{
    if lead == 0 {
        assert(text.subrange(0, text.len() as int) =~= text);
    } else {
        let rest = text.drop_first();
        assert forall|i: int| 0 <= i < lead - 1 implies white_space(#[trigger] rest[i]) by {
            assert(rest[i] == text[i + 1]);
        }
        lemma_trim_start(rest, lead - 1);
        assert(rest.subrange(lead - 1, rest.len() as int) =~= text.subrange(
            lead,
            text.len() as int,
        ));
    }
}

/// Where a piece of text ends with white space from position `end` on and
/// has another character before that or none at all, what is left without
/// the white space at its end is what stands before `end`.
pub proof fn lemma_trim_end(text: Seq<char>, end: int)
    requires
        0 <= end <= text.len(),
        forall|i: int| end <= i < text.len() ==> white_space(#[trigger] text[i]),
        end == 0 || !white_space(text[end - 1]),
    ensures
        trim_end(text) == text.subrange(0, end),
    decreases text.len() - end,
{
    if end == text.len() {
        assert(text.subrange(0, end) =~= text);
    } else {
        let rest = text.drop_last();
        assert forall|i: int| end <= i < rest.len() implies white_space(#[trigger] rest[i]) by {
            assert(rest[i] == text[i]);
        }
        lemma_trim_end(rest, end);
        assert(rest.subrange(0, end) =~= text.subrange(0, end));
    }
}

/// A piece of text is blank after trimming exactly where all of it is white
/// space; what is left of any other text begins and ends with a character
/// that is not white space.
pub proof fn lemma_trimmed_is_tight(text: Seq<char>)
    ensures
        trimmed(text).len() == 0 <==> (forall|i: int|
            0 <= i < text.len() ==> white_space(#[trigger] text[i])),
        trimmed(text).len() > 0 ==> !white_space(trimmed(text)[0]) && !white_space(
            trimmed(text).last(),
        ),
        trimmed(text).len() <= text.len(),
{
    let lead = leading_white(text);
    lemma_leading_white(text);
    lemma_trim_start(text, lead as int);
    let rest = text.subrange(lead as int, text.len() as int);
    let tail = trailing_white(rest);
    lemma_trailing_white(rest);
    lemma_trim_end(rest, rest.len() - tail);
    if lead < text.len() {
        assert(rest[0] == text[lead as int]);
        assert(rest.len() - tail > 0) by {
            if rest.len() - tail == 0 {
                assert(white_space(rest[0]));
            }
        }
        assert(!white_space(text[lead as int]));
    } else {
        assert(rest.len() == 0);
        assert(trimmed(text).len() == 0);
    }
}

/// The number of characters of white space at the start of a piece of text.
pub open spec fn leading_white(text: Seq<char>) -> nat
    decreases text.len(),
{
    if text.len() > 0 && white_space(text[0]) {
        1 + leading_white(text.drop_first())
    } else {
        0
    }
}

/// The number of characters of white space at the end of a piece of text.
pub open spec fn trailing_white(text: Seq<char>) -> nat
    decreases text.len(),
{
    if text.len() > 0 && white_space(text.last()) {
        1 + trailing_white(text.drop_last())
    } else {
        0
    }
}

/// The white space counted at the start of a piece of text is white space,
/// and what follows it is not.
pub proof fn lemma_leading_white(text: Seq<char>)
    ensures
        leading_white(text) <= text.len(),
        forall|i: int| 0 <= i < leading_white(text) ==> white_space(#[trigger] text[i]),
        leading_white(text) == text.len() || !white_space(text[leading_white(text) as int]),
    decreases text.len(),
{
    if text.len() > 0 && white_space(text[0]) {
        let rest = text.drop_first();
        lemma_leading_white(rest);
        assert forall|i: int| 0 <= i < leading_white(text) implies white_space(
            #[trigger] text[i],
        ) by {
            if i > 0 {
                assert(text[i] == rest[i - 1]);
            }
        }
        if leading_white(text) < text.len() {
            assert(text[leading_white(text) as int] == rest[leading_white(rest) as int]);
        }
    }
}

/// The white space counted at the end of a piece of text is white space, and
/// what stands before it is not.
pub proof fn lemma_trailing_white(text: Seq<char>)
    ensures
        trailing_white(text) <= text.len(),
        forall|i: int|
            text.len() - trailing_white(text) <= i < text.len() ==> white_space(
                #[trigger] text[i],
            ),
        trailing_white(text) == text.len() || !white_space(
            text[text.len() - trailing_white(text) - 1],
        ),
    decreases text.len(),
{
    if text.len() > 0 && white_space(text.last()) {
        let rest = text.drop_last();
        lemma_trailing_white(rest);
        assert forall|i: int|
            text.len() - trailing_white(text) <= i < text.len() implies white_space(
            #[trigger] text[i],
        ) by {
            if i < rest.len() {
                assert(text[i] == rest[i]);
            }
        }
        if trailing_white(text) < text.len() {
            assert(text[text.len() - trailing_white(text) - 1] == rest[rest.len()
                - trailing_white(rest) - 1]);
        }
    }
}

/// Whether the standard library counts a character as a letter or a digit.
pub uninterp spec fn alphanumeric(c: char) -> bool;

/// The first `limit` characters of a piece of text; all of it where it has
/// no more.
pub open spec fn first_chars(text: Seq<char>, limit: nat) -> Seq<char> {
    if text.len() <= limit {
        text
    } else {
        text.subrange(0, limit as int)
    }
}

/// Calls `char::is_whitespace`.
///
/// Trusted: that what it returns depends on the character alone.
#[verifier::external_body]
fn char_is_whitespace(c: char) -> (found: bool)
    ensures
        found == white_space(c),
{
    c.is_whitespace()
}

/// Calls `char::is_alphanumeric`.
///
/// Trusted: that what it returns depends on the character alone.
#[verifier::external_body]
fn char_is_alphanumeric(c: char) -> (found: bool)
    ensures
        found == alphanumeric(c),
{
    c.is_alphanumeric()
}

/// Calls `String::push`.
///
/// Trusted: that it appends the character and changes nothing else.
#[verifier::external_body]
fn push_char(buf: &mut String, c: char)
    ensures
        final(buf)@ == old(buf)@.push(c),
{
    buf.push(c);
}

/// Where what is left of a piece of text after trimming begins and ends.
fn trim_bounds(text: &str) -> (bounds: (usize, usize))
    ensures
        bounds.0 <= bounds.1 <= text@.len(),
        trimmed(text@) == text@.subrange(bounds.0 as int, bounds.1 as int),
{
    let len = text.unicode_len();
    let mut start: usize = 0;
    let mut found = false;
    while start < len && !found
        invariant
            len == text@.len(),
            start <= len,
            forall|i: int| 0 <= i < start ==> white_space(#[trigger] text@[i]),
            found ==> start < len && !white_space(text@[start as int]),
        decreases len - start + (if found { 0int } else { 1int }),
    {
        if char_is_whitespace(text.get_char(start)) {
            start = start + 1;
        } else {
            found = true;
        }
    }
    proof {
        lemma_trim_start(text@, start as int);
    }
    if !found {
        proof {
            lemma_trim_end(text@.subrange(start as int, len as int), 0);
            assert(text@.subrange(start as int, len as int).subrange(0, 0) =~= text@.subrange(
                start as int,
                start as int,
            ));
        }
        return (start, start);
    }
    let mut end: usize = len;
    let mut met = false;
    while end > start + 1 && !met
        invariant
            len == text@.len(),
            start < end <= len,
            !white_space(text@[start as int]),
            forall|i: int| end <= i < len ==> white_space(#[trigger] text@[i]),
            met ==> !white_space(text@[end - 1]),
        decreases end - start + (if met { 0int } else { 1int }),
    {
        if char_is_whitespace(text.get_char(end - 1)) {
            end = end - 1;
        } else {
            met = true;
        }
    }
    proof {
        let rest = text@.subrange(start as int, len as int);
        assert forall|i: int| end - start <= i < rest.len() implies white_space(
            #[trigger] rest[i],
        ) by {
            assert(rest[i] == text@[i + start]);
        }
        assert(rest[end - start - 1] == text@[end - 1]);
        lemma_trim_end(rest, end - start);
        assert(rest.subrange(0, end - start) =~= text@.subrange(start as int, end as int));
    }
    (start, end)
}

/// A piece of text without the white space at its ends.
pub fn trim(text: &str) -> (rest: String)
    ensures
        rest@ == trimmed(text@),
{
    let (start, end) = trim_bounds(text);
    String::from_str(text.substring_char(start, end))
}

/// Whether a piece of text holds nothing but white space.
pub fn is_blank(text: &str) -> (blank: bool)
    ensures
        blank == (trimmed(text@).len() == 0),
        blank == (forall|i: int| 0 <= i < text@.len() ==> white_space(#[trigger] text@[i])),
{
    proof {
        lemma_trimmed_is_tight(text@);
    }
    let (start, end) = trim_bounds(text);
    start == end
}

/// Cuts a piece of text down to its first `limit` characters.
pub fn truncate(text: String, limit: usize) -> (cut: String)
    ensures
        cut@ == first_chars(text@, limit as nat),
{
    if text.as_str().unicode_len() <= limit {
        text
    } else {
        String::from_str(text.as_str().substring_char(0, limit))
    }
}

/// One character of a name that is safe in a file name: itself where it is
/// a letter, a digit, a hyphen or an underscore, and an underscore otherwise.
pub open spec fn safe_char(c: char) -> char {
    if alphanumeric(c) || c == '-' || c == '_' {
        c
    } else {
        '_'
    }
}

/// A name made safe for use in a file name, character by character.
pub open spec fn safe_name(name: Seq<char>) -> Seq<char> {
    Seq::new(name.len(), |i: int| safe_char(name[i]))
}

/// Makes a name safe for use in a file name: every character that is
/// neither a letter nor a digit nor a hyphen nor an underscore becomes an
/// underscore.
pub fn sanitize(name: &str) -> (safe: String)
    ensures
        safe@ == safe_name(name@),
{
    let mut safe = String::new();
    let len = name.unicode_len();
    let mut i: usize = 0;
    while i < len
        invariant
            len == name@.len(),
            i <= len,
            safe@ == safe_name(name@).subrange(0, i as int),
        decreases len - i,
    {
        let c = name.get_char(i);
        if char_is_alphanumeric(c) || c == '-' || c == '_' {
            push_char(&mut safe, c);
        } else {
            push_char(&mut safe, '_');
        }
        i = i + 1;
        assert(safe@ =~= safe_name(name@).subrange(0, i as int));
    }
    assert(safe@ =~= safe_name(name@));
    safe
}

/// One digit as text.
fn digit_str(d: u64) -> (text: &'static str)
    requires
        d < 16,
    ensures
        text@ == seq![digit_char(d as int)],
{
    let text = if d == 0 {
        proof { reveal_strlit("0"); }
        "0"
    } else if d == 1 {
        proof { reveal_strlit("1"); }
        "1"
    } else if d == 2 {
        proof { reveal_strlit("2"); }
        "2"
    } else if d == 3 {
        proof { reveal_strlit("3"); }
        "3"
    } else if d == 4 {
        proof { reveal_strlit("4"); }
        "4"
    } else if d == 5 {
        proof { reveal_strlit("5"); }
        "5"
    } else if d == 6 {
        proof { reveal_strlit("6"); }
        "6"
    } else if d == 7 {
        proof { reveal_strlit("7"); }
        "7"
    } else if d == 8 {
        proof { reveal_strlit("8"); }
        "8"
    } else if d == 9 {
        proof { reveal_strlit("9"); }
        "9"
    } else if d == 10 {
        proof { reveal_strlit("A"); }
        "A"
    } else if d == 11 {
        proof { reveal_strlit("B"); }
        "B"
    } else if d == 12 {
        proof { reveal_strlit("C"); }
        "C"
    } else if d == 13 {
        proof { reveal_strlit("D"); }
        "D"
    } else if d == 14 {
        proof { reveal_strlit("E"); }
        "E"
    } else {
        proof { reveal_strlit("F"); }
        "F"
    };
    assert(text@ =~= seq![digit_char(d as int)]);
    text
}

/// Appends a natural number in decimal.
pub fn push_natural(buf: &mut String, n: u64)
    ensures
        final(buf)@ == old(buf)@ + natural_text(n as nat),
    decreases n,
{
    if n >= 10 {
        push_natural(buf, n / 10);
    }
    buf.append(digit_str(n % 10));
    assert(buf@ =~= old(buf)@ + natural_text(n as nat));
}

/// An integer in decimal, as `i64` is written for display.
pub fn decimal(n: i64) -> (text: String)
    ensures
        text@ == decimal_text(n as int),
{
    let mut text = String::new();
    if n < 0 {
        proof { reveal_strlit("-"); }
        text.append("-");
        let magnitude: u64 = (-(n as i128)) as u64;
        push_natural(&mut text, magnitude);
    } else {
        push_natural(&mut text, n as u64);
    }
    assert(text@ =~= decimal_text(n as int));
    text
}

/// Appends the lowest `width` hexadecimal digits of `n`, highest first.
pub fn push_hex(buf: &mut String, n: u64, width: u8)
    ensures
        final(buf)@ == old(buf)@ + hex_text(n as nat, width as nat),
    decreases width,
{
    if width > 0 {
        push_hex(buf, n / 16, width - 1);
        buf.append(digit_str(n % 16));
    }
    assert(buf@ =~= old(buf)@ + hex_text(n as nat, width as nat));
}

} // verus!
