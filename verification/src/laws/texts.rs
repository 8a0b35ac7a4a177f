//! Numbers as text, padding and trimming.

use vstd::prelude::*;

use crate::cli::{LevelFilter, LogLevel};
use crate::string_map::StringMap;
use crate::text;
use crate::theme::Theme;

verus! {

/// The number that a row of digits stands for.
pub open spec fn value_of(digits: Seq<char>) -> int
    decreases digits.len(),
{
    if digits.len() == 0 {
        0
    } else {
        10 * value_of(digits.drop_last()) + (digits.last() as int - '0' as int)
    }
}

/// A number in decimal is made of digits only, reads as that number, and starts with a
/// zero only where it is zero.
pub proof fn decimals_read_as_their_number(n: nat)
    ensures
        text::decimal(n).len() > 0,
        forall|i: int|
            0 <= i < text::decimal(n).len() ==> '0' <= #[trigger] text::decimal(n)[i] <= '9',
        value_of(text::decimal(n)) == n,
        n > 0 ==> text::decimal(n)[0] != '0',
    decreases n,
{
    if n < 10 {
        let s = text::decimal(n);
        assert(s.drop_last() =~= Seq::empty());
        assert(value_of(Seq::<char>::empty()) == 0);
    } else {
        decimals_read_as_their_number(n / 10);
        let rest = text::decimal(n / 10);
        let s = text::decimal(n);
        assert(s.drop_last() =~= rest);
        assert forall|i: int| 0 <= i < s.len() implies '0' <= #[trigger] s[i] <= '9' by {
            if i < rest.len() {
                assert(s[i] == rest[i]);
            }
        }
        assert(s[0] == rest[0]);
    }
}

/// A negative number is its opposite behind a minus; any other is written plainly.
pub proof fn signs_are_written_in_front(n: i64, written: String)
    requires
        call_ensures(text::signed_decimal_text, (n,), written),
    ensures
        n >= 0 ==> written@ == text::decimal(n as nat),
        n < 0 ==> written@.len() > 1 && written@[0] == '-' && written@.drop_first()
            == text::decimal((-n) as nat),
{
    if n < 0 {
        decimals_read_as_their_number((-n) as nat);
        assert(written@.drop_first() =~= text::decimal((-n) as nat));
    }
}

/// Different numbers read differently.
pub proof fn different_numbers_read_differently(a: nat, b: nat)
    requires
        text::decimal(a) == text::decimal(b),
    ensures
        a == b,
{
    decimals_read_as_their_number(a);
    decimals_read_as_their_number(b);
}

/// Padding keeps the text at the end, puts only the filler in front of it, and reaches the
/// width but no further.
pub proof fn padding_goes_in_front(line: &str, width: usize, fill: char, padded: String)
    requires
        call_ensures(text::padded_start, (line, width, fill), padded),
    ensures
        line@.len() >= width ==> padded@ == line@,
        line@.len() < width ==> {
            &&& padded@.len() == width
            &&& padded@.skip(width - line@.len()) == line@
            &&& forall|i: int|
                0 <= i < width - line@.len() ==> #[trigger] padded@[i] == fill
        },
{
    if line@.len() < width {
        assert(padded@.skip(width - line@.len()) =~= line@);
    }
}

/// Two digits are at least two characters and read as the number.
pub proof fn two_digits_read_as_their_number(n: u64, written: String)
    requires
        call_ensures(text::two_digit_text, (n,), written),
    ensures
        written@.len() >= 2,
        n < 10 ==> written@ == seq!['0'] + text::decimal(n as nat),
        n >= 10 ==> written@ == text::decimal(n as nat),
{
    decimals_read_as_their_number(n as nat);
    if n < 10 {
        assert(text::decimal(n as nat).len() == 1);
        assert(written@ =~= seq!['0'] + text::decimal(n as nat));
    } else {
        decimals_read_as_their_number((n / 10) as nat);
        assert(text::decimal(n as nat).len() >= 2);
    }
}

/// Whether a stretch of a text is white space throughout.
pub open spec fn white_between(s: Seq<char>, from: int, to: int) -> bool {
    forall|i: int| from <= i < to ==> text::is_white_space(#[trigger] s[i])
}

/// Whether `inner` is the stretch of a text between two places, with nothing but white
/// space outside them.
pub open spec fn cut_out(s: Seq<char>, inner: Seq<char>, from: int, to: int) -> bool {
    &&& 0 <= from <= to <= s.len()
    &&& inner == s.subrange(from, to)
    &&& white_between(s, 0, from)
    &&& white_between(s, to, s.len() as int)
}

/// Trimming takes white space off the two ends and nothing else.
pub proof fn trimming_takes_off_white_ends(s: Seq<char>)
    ensures
        exists|from: int, to: int| #[trigger] cut_out(s, text::trimmed(s), from, to),
    decreases s.len(),
{
    let inner = text::trimmed(s);
    if s.len() > 0 && text::is_white_space(s[0]) {
        let rest = s.drop_first();
        trimming_takes_off_white_ends(rest);
        let (from, to) = choose|from: int, to: int| #[trigger] cut_out(rest, inner, from, to);
        lemma_white_in_front(s, inner, from, to);
    } else if s.len() > 0 && text::is_white_space(s.last()) {
        let rest = s.drop_last();
        trimming_takes_off_white_ends(rest);
        let (from, to) = choose|from: int, to: int| #[trigger] cut_out(rest, inner, from, to);
        lemma_white_behind(s, inner, from, to);
    } else {
        assert(s.subrange(0, s.len() as int) =~= s);
        assert(cut_out(s, inner, 0, s.len() as int));
    }
}

proof fn lemma_white_in_front(s: Seq<char>, inner: Seq<char>, from: int, to: int)
    requires
        s.len() > 0,
        text::is_white_space(s[0]),
        cut_out(s.drop_first(), inner, from, to),
    ensures
        cut_out(s, inner, from + 1, to + 1),
{
    let rest = s.drop_first();
    assert(s.subrange(from + 1, to + 1) =~= rest.subrange(from, to));
    assert forall|i: int| 0 <= i < from + 1 implies text::is_white_space(#[trigger] s[i]) by {
        if i > 0 {
            assert(text::is_white_space(rest[i - 1]));
        }
    }
    assert forall|i: int| to + 1 <= i < s.len() implies text::is_white_space(#[trigger] s[i]) by {
        assert(text::is_white_space(rest[i - 1]));
    }
}

proof fn lemma_white_behind(s: Seq<char>, inner: Seq<char>, from: int, to: int)
    requires
        s.len() > 0,
        text::is_white_space(s.last()),
        cut_out(s.drop_last(), inner, from, to),
    ensures
        cut_out(s, inner, from, to),
{
    let rest = s.drop_last();
    assert(s.subrange(from, to) =~= rest.subrange(from, to));
    assert forall|i: int| 0 <= i < from implies text::is_white_space(#[trigger] s[i]) by {
        assert(text::is_white_space(rest[i]));
    }
    assert forall|i: int| to <= i < s.len() implies text::is_white_space(#[trigger] s[i]) by {
        if i < rest.len() {
            assert(text::is_white_space(rest[i]));
        }
    }
}

/// Blanks, tabs and line ends are white space; no visible character of ASCII is.
pub proof fn visible_characters_are_kept(c: char)
    ensures
        text::is_white_space(' '),
        text::is_white_space('\t'),
        text::is_white_space('\n'),
        text::is_white_space('\r'),
        '!' <= c <= '~' ==> !text::is_white_space(c),
{
}

/// The code trims as the laws say.
pub proof fn trim_takes_off_white_ends(line: &str, inner: &str)
    requires
        call_ensures(text::trim, (line,), inner),
    ensures
        inner@ == text::trimmed(line@),
        inner@.len() > 0 ==> !text::is_white_space(inner@[0]) && !text::is_white_space(
            inner@.last(),
        ),
{
    text::trimmed_has_no_white_ends(line@);
}

/// Each log level lets exactly itself and the quieter ones through.
pub proof fn levels_filter_by_their_own_name(level: LogLevel, filter: LevelFilter)
    requires
        call_ensures(LogLevel::as_level_filter, (level,), filter),
    ensures
        level is Error ==> filter is Error,
        level is Warn ==> filter is Warn,
        level is Info ==> filter is Info,
        level is Debug ==> filter is Debug,
        level is Trace ==> filter is Trace,
{
}

/// What is stored under a key is found under it, and nothing else changes; what is removed
/// is not found.
pub proof fn maps_keep_what_is_stored(
    stored: &mut StringMap<String>,
    key: String,
    value: String,
    removed: &mut StringMap<String>,
    other: &str,
)
    requires
        call_ensures(StringMap::<String>::insert, (stored, key, value), ()),
        call_ensures(StringMap::<String>::remove, (removed, other), ()),
    ensures
        final(stored)@.dom().contains(key@),
        final(stored)@[key@] == value,
        other@ != key@ ==> (final(stored)@.dom().contains(other@) <==> old(stored)@.dom().contains(
            other@,
        )),
        other@ != key@ && old(stored)@.dom().contains(other@) ==> final(stored)@[other@]
            == old(stored)@[other@],
        !final(removed)@.dom().contains(other@),
{
}

/// What is looked up is what is stored under the key, and nothing where nothing is.
pub proof fn lookups_find_what_is_stored(map: StringMap<String>, key: &str, value: Option<&String>)
    requires
        call_ensures(StringMap::<String>::get, (&map, key), value),
    ensures
        value is Some <==> map@.dom().contains(key@),
        value matches Some(found) ==> *found == map@[key@],
{
}

/// A new map is empty.
pub proof fn new_maps_are_empty(map: StringMap<String>, key: Seq<char>)
    requires
        call_ensures(StringMap::<String>::new, (), map),
    ensures
        !map@.dom().contains(key),
{
}

/// A theme goes by the name it was given.
pub proof fn themes_go_by_their_name(name: &str, theme: Theme, shown: &str)
    requires
        call_ensures(Theme::named, (name,), theme),
        call_ensures(Theme::name, (&theme,), shown),
    ensures
        shown@ == name@,
{
}

} // verus!
