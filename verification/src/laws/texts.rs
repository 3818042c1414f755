//! What holds of the texts that are read and written: white space, lines, reports and numbers.

use crate::errors::LimiterError;
use vstd::prelude::*;

verus! {

/// White space is what Unicode gives that property: these code points and no others.
pub proof fn white_space_is_that_of_unicode(c: char)
    ensures
        crate::text::is_white_space(c) <==> {
            let code = c as int;
            ||| 9 <= code <= 13
            ||| code == 32
            ||| code == 133
            ||| code == 160
            ||| code == 5760
            ||| 8192 <= code <= 8202
            ||| code == 8232 || code == 8233
            ||| code == 8239
            ||| code == 8287
            ||| code == 12288
        },
{
}

/// Whether a text is white space only.
pub open spec fn blank(s: Seq<char>) -> bool {
    forall|i: int| 0 <= i < s.len() ==> crate::text::is_white_space(#[trigger] s[i])
}

/// Whether neither the first nor the last character of a text is white space.
pub open spec fn tight(s: Seq<char>) -> bool {
    s.len() > 0 ==> !crate::text::is_white_space(s[0]) && !crate::text::is_white_space(
        s[s.len() - 1],
    )
}

/// White space at the start is left out.
proof fn start_is_trimmed(space: Seq<char>, s: Seq<char>)
    requires
        blank(space),
        s.len() > 0 ==> !crate::text::is_white_space(s[0]),
    ensures
        crate::text::trim_start(space + s) == s,
    decreases space.len(),
{
    if space.len() == 0 {
        assert(space + s == s);
    } else {
        assert((space + s)[0] == space[0]);
        assert((space + s).skip(1) == space.skip(1) + s);
        start_is_trimmed(space.skip(1), s);
    }
}

/// White space at the end is left out.
proof fn end_is_trimmed(s: Seq<char>, space: Seq<char>)
    requires
        blank(space),
        s.len() > 0 ==> !crate::text::is_white_space(s[s.len() - 1]),
    ensures
        crate::text::trim_end(s + space) == s,
    decreases space.len(),
{
    if space.len() == 0 {
        assert(s + space == s);
    } else {
        assert((s + space).last() == space.last());
        assert((s + space).drop_last() == s + space.drop_last());
        end_is_trimmed(s, space.drop_last());
    }
}

/// Trimming a text takes the white space around it away, and nothing else.
pub proof fn trimming_takes_white_space_only(ahead: Seq<char>, s: Seq<char>, behind: Seq<char>)
    requires
        blank(ahead),
        tight(s),
        blank(behind),
    ensures
        crate::text::trim(ahead + s + behind) == s,
{
    if s.len() == 0 {
        let all = ahead + behind;
        assert(ahead + s + behind == all + Seq::<char>::empty());
        assert forall|i: int| 0 <= i < all.len() implies crate::text::is_white_space(
            #[trigger] all[i],
        ) by {
            if i < ahead.len() {
                assert(all[i] == ahead[i]);
            } else {
                assert(all[i] == behind[i - ahead.len()]);
            }
        }
        start_is_trimmed(all, Seq::empty());
        assert(s == Seq::<char>::empty());
    } else {
        assert(ahead + s + behind == ahead + (s + behind));
        start_is_trimmed(ahead, s + behind);
        end_is_trimmed(s, behind);
    }
}

/// The part of a text before a character goes up to the first one of that kind, and is all of the
/// text where there is none.
pub proof fn part_before_is_up_to_the_first(s: Seq<char>, c: char, rest: Seq<char>)
    requires
        !s.contains(c),
    ensures
        crate::text::before(s, c) == s,
        crate::text::before(s + seq![c] + rest, c) == s,
{
    let all = s + seq![c] + rest;
    assert forall|i: int| 0 <= i < s.len() implies s[i] != c && all[i] != c by {
        assert(s.contains(s[i]));
        assert(all[i] == s[i]);
    }
    crate::text::first_is_find(s, c, s.len() as int);
    crate::text::first_is_find(all, c, s.len() as int);
    assert(s.take(s.len() as int) == s);
    assert(all.take(s.len() as int) == s);
}

/// What `trimmed_before` returns, by the parts of the text: the first part, without the white
/// space around it.
pub proof fn first_part_is_returned_trimmed(
    text: &str,
    c: char,
    part: String,
    ahead: Seq<char>,
    s: Seq<char>,
    behind: Seq<char>,
    rest: Seq<char>,
)
    requires
        call_ensures(crate::text::trimmed_before, (text, c), part),
        blank(ahead),
        tight(s),
        blank(behind),
        !(ahead + s + behind).contains(c),
        text@ == ahead + s + behind || text@ == ahead + s + behind + seq![c] + rest,
    ensures
        part@ == s,
{
    part_before_is_up_to_the_first(ahead + s + behind, c, rest);
    trimming_takes_white_space_only(ahead, s, behind);
}

/// A text without a line feed is one line, carriage returns included; an empty text has no line.
pub proof fn text_without_feed_is_one_line(s: Seq<char>)
    requires
        !s.contains('\n'),
    ensures
        s.len() == 0 ==> crate::text::lines(s).len() == 0,
        s.len() > 0 ==> crate::text::lines(s) == seq![s],
{
    assert forall|i: int| 0 <= i < s.len() implies s[i] != '\n' by {
        assert(s.contains(s[i]));
    }
    crate::text::first_is_find(s, '\n', s.len() as int);
}

/// A line feed ends a line, with one carriage return before it, if there is one; the lines of
/// what follows come next.
pub proof fn feed_ends_a_line(s: Seq<char>, rest: Seq<char>)
    requires
        !s.contains('\n'),
    ensures
        s.len() == 0 || s[s.len() - 1] != '\r' ==> crate::text::lines(s + seq!['\n'] + rest)
            == seq![s] + crate::text::lines(rest),
        crate::text::lines(s + seq!['\r', '\n'] + rest) == seq![s] + crate::text::lines(rest),
{
    let returned = s + seq!['\r'];
    assert(s + seq!['\r', '\n'] + rest == returned + seq!['\n'] + rest);
    assert forall|i: int| 0 <= i < returned.len() implies returned[i] != '\n' by {
        if i < s.len() {
            assert(returned[i] == s[i]);
            assert(s.contains(s[i]));
        }
    }
    assert(!returned.contains('\n'));
    first_line_ends(s, rest);
    first_line_ends(returned, rest);
    assert(returned.drop_last() == s);
    assert(returned.last() == '\r');
}

/// The first line of a text, before a feed.
proof fn first_line_ends(s: Seq<char>, rest: Seq<char>)
    requires
        !s.contains('\n'),
    ensures
        crate::text::lines(s + seq!['\n'] + rest) == seq![crate::text::without_return(s)]
            + crate::text::lines(rest),
{
    let all = s + seq!['\n'] + rest;
    part_before_is_up_to_the_first(s, '\n', rest);
    assert forall|i: int| 0 <= i < s.len() implies all[i] != '\n' by {
        assert(all[i] == s[i]);
        assert(s.contains(s[i]));
    }
    crate::text::first_is_find(all, '\n', s.len() as int);
    assert(all.skip(s.len() as int + 1) == rest);
}

/// The lines of a text that goes on behind a line feed are those up to the feed and those behind
/// it.
pub proof fn lines_follow_each_other(head: Seq<char>, rest: Seq<char>)
    requires
        head.len() > 0 ==> head[head.len() - 1] == '\n',
    ensures
        crate::text::lines(head + rest) == crate::text::lines(head) + crate::text::lines(rest),
    decreases head.len(),
{
    if head.len() == 0 {
        assert(head + rest == rest);
        assert(crate::text::lines(head) + crate::text::lines(rest) == crate::text::lines(rest));
    } else {
        let feed = crate::text::find(head, '\n');
        crate::text::find_is_first(head, '\n');
        assert(feed < head.len()) by {
            if feed == head.len() {
                assert(head[head.len() - 1] != '\n');
            }
        }
        let first = head.take(feed);
        let next = head.skip(feed + 1);
        assert(!first.contains('\n')) by {
            assert forall|i: int| 0 <= i < first.len() implies first[i] != '\n' by {
                assert(first[i] == head[i]);
            }
        }
        assert(head == first + seq!['\n'] + next);
        assert(head + rest == first + seq!['\n'] + (next + rest));
        first_line_ends(first, next);
        first_line_ends(first, next + rest);
        if next.len() > 0 {
            assert(next[next.len() - 1] == head[head.len() - 1]);
        }
        lines_follow_each_other(next, rest);
        let line = seq![crate::text::without_return(first)];
        assert(line + (crate::text::lines(next) + crate::text::lines(rest)) == line
            + crate::text::lines(next) + crate::text::lines(rest));
    }
}

/// A line with one colon reports a field: the name before the colon and the value behind it.
pub proof fn line_with_one_colon_is_a_field(name: Seq<char>, value: Seq<char>)
    requires
        crate::laws::colon_free(name),
        crate::laws::colon_free(value),
    ensures
        crate::storage::field(name + seq![':'] + value) == Some((name, value)),
{
    let line = name + seq![':'] + value;
    assert forall|i: int| 0 <= i < name.len() implies line[i] != ':' by {
        assert(line[i] == name[i]);
        assert(name.contains(name[i]));
    }
    crate::text::first_is_find(line, ':', name.len() as int);
    assert(line.skip(name.len() as int + 1) == value);
    assert(line.take(name.len() as int) == name);
    assert forall|i: int| 0 <= i < value.len() implies value[i] != ':' by {
        assert(value.contains(value[i]));
    }
    crate::text::first_is_find(value, ':', value.len() as int);
}

/// A line without a colon, or with more than one, reports no field.
pub proof fn other_lines_are_no_fields(line: Seq<char>, i: int, j: int)
    requires
        crate::laws::colon_free(line) || (0 <= i < j < line.len() && line[i] == ':' && line[j] == ':'),
    ensures
        crate::storage::field(line) is None,
{
    let colon = crate::text::find(line, ':');
    crate::text::find_is_first(line, ':');
    if crate::laws::colon_free(line) {
        if colon < line.len() {
            assert(line.contains(line[colon]));
        }
    } else {
        assert(colon <= i);
        let value = line.skip(colon + 1);
        crate::text::find_is_first(value, ':');
        assert(value[j - colon - 1] == ':');
    }
}

/// A report holds, under each name, what the last line with that name says.
pub proof fn last_line_of_a_name_counts(
    earlier: Seq<Seq<char>>,
    name: Seq<char>,
    value: Seq<char>,
    later: Seq<Seq<char>>,
)
    requires
        crate::laws::colon_free(name),
        crate::laws::colon_free(value),
        forall|i: int|
            0 <= i < later.len() ==> (crate::storage::field(#[trigger] later[i]) matches Some(
                (other, _),
            ) ==> other != name),
    ensures
        ({
            let fields = crate::storage::fields(earlier.push(name + seq![':'] + value) + later);
            fields.contains_key(name) && fields[name] == value
        }),
    decreases later.len(),
{
    let line = name + seq![':'] + value;
    let all = earlier.push(line) + later;
    if later.len() == 0 {
        line_with_one_colon_is_a_field(name, value);
        assert(all == earlier.push(line));
        assert(all.drop_last() == earlier);
    } else {
        last_line_of_a_name_counts(earlier, name, value, later.drop_last());
        assert(all.drop_last() == earlier.push(line) + later.drop_last());
        assert(all.last() == later[later.len() - 1]);
    }
}

/// A report holds nothing that no line says.
pub proof fn fields_come_from_lines(lines: Seq<Seq<char>>, name: Seq<char>) -> (at: int)
    requires
        crate::storage::fields(lines).contains_key(name),
    ensures
        0 <= at < lines.len(),
        crate::storage::field(lines[at]) == Some((name, crate::storage::fields(lines)[name])),
    decreases lines.len(),
{
    match crate::storage::field(lines.last()) {
        Some((last, _)) if last == name => lines.len() - 1,
        _ => {
            let at = fields_come_from_lines(lines.drop_last(), name);
            assert(lines.drop_last()[at] == lines[at]);
            at
        },
    }
}

/// A report that Redis gives as a text is read line by line. The line `name:value`, ended by a
/// carriage return and a line feed, says that the field has that value, if no later line has the
/// name.
pub proof fn report_is_read(
    info: crate::storage::InfoMap,
    text: Seq<char>,
    head: Seq<char>,
    name: Seq<char>,
    value: Seq<char>,
    tail: Seq<char>,
)
    requires
        crate::storage::info_fields(info) == crate::storage::fields(crate::text::lines(text)),
        text == head + (name + seq![':'] + value + seq!['\r', '\n'] + tail),
        head.len() > 0 ==> head[head.len() - 1] == '\n',
        crate::laws::colon_free(name),
        crate::laws::colon_free(value),
        !name.contains('\n'),
        !value.contains('\n'),
        forall|i: int|
            0 <= i < crate::text::lines(tail).len() ==> (crate::storage::field(
                #[trigger] crate::text::lines(tail)[i],
            ) matches Some((other, _)) ==> other != name),
    ensures
        crate::storage::info_fields(info).contains_key(name),
        crate::storage::info_fields(info)[name] == value,
{
    let line = name + seq![':'] + value;
    assert forall|i: int| 0 <= i < line.len() implies line[i] != '\n' by {
        if i < name.len() {
            assert(line[i] == name[i]);
            assert(name.contains(name[i]));
        } else if i > name.len() {
            assert(line[i] == value[i - name.len() - 1]);
            assert(value.contains(value[i - name.len() - 1]));
        }
    }
    assert(!line.contains('\n'));
    lines_follow_each_other(head, line + seq!['\r', '\n'] + tail);
    feed_ends_a_line(line, tail);
    let lines = crate::text::lines(head) + (seq![line] + crate::text::lines(tail));
    assert(lines == crate::text::lines(head).push(line) + crate::text::lines(tail));
    last_line_of_a_name_counts(crate::text::lines(head), name, value, crate::text::lines(tail));
}

/// The fields of a report are found by their names, counted, and listed, each once.
pub proof fn fields_are_found_and_listed(
    info: crate::storage::InfoMap,
    name: &str,
    value: Option<String>,
    len: usize,
    entries: Vec<(String, String)>,
    text: Seq<char>,
)
    ensures
        call_ensures(crate::storage::InfoMap::get, (&info, name), value) ==> match value {
            Some(value) => crate::storage::info_fields(info).get(name@) == Some(value@),
            None => crate::storage::info_fields(info).get(name@) is None,
        },
        call_ensures(crate::storage::InfoMap::len, (&info,), len) ==> len as nat
            == crate::storage::info_fields(info).dom().len(),
        call_ensures(crate::storage::InfoMap::entries, (&info,), entries) ==> {
            &&& crate::storage::info_fields(info).get(text) is Some <==> exists|i: int|
                0 <= i < entries@.len() && (#[trigger] entries@[i]).0@ == text
            &&& forall|i: int|
                0 <= i < entries@.len() ==> crate::storage::info_fields(info).get(
                    (#[trigger] entries@[i]).0@,
                ) == Some(entries@[i].1@)
            &&& forall|i: int, j: int|
                0 <= i < entries@.len() && 0 <= j < entries@.len() && (#[trigger] entries@[i]).0@
                    == (#[trigger] entries@[j]).0@ ==> i == j
        },
{
    let fields = crate::storage::info_fields(info);
    assert(fields.get(text) is Some <==> fields.contains_key(text));
    if call_ensures(crate::storage::InfoMap::entries, (&info,), entries) {
        assert forall|i: int, j: int|
            0 <= i < entries@.len() && 0 <= j < entries@.len() && (#[trigger] entries@[i]).0@ == (
            #[trigger] entries@[j]).0@ implies i == j by {
            if i < j {
                assert(entries@[i].0@ != entries@[j].0@);
            } else if j < i {
                assert(entries@[j].0@ != entries@[i].0@);
            }
        }
        if exists|i: int| 0 <= i < entries@.len() && (#[trigger] entries@[i]).0@ == text {
            let i = choose|i: int| 0 <= i < entries@.len() && (#[trigger] entries@[i]).0@ == text;
            assert(fields.contains_key(entries@[i].0@));
        }
    }
}

/// Digits denote a number by their places: one more digit counts as many ones, and each digit
/// before it ten times as much.
pub proof fn digits_count_by_place(s: Seq<char>, c: char)
    requires
        '0' <= c <= '9',
    ensures
        crate::text::digits_value(Seq::empty()) == 0,
        crate::text::digits_value(s.push(c)) == 10 * crate::text::digits_value(s) + (c as int - 48),
{
    assert(s.push(c).drop_last() == s);
}

/// A number is written with the digits from 0 to 9, without leading zeros, and reads back.
pub proof fn numbers_are_written_in_decimal(n: nat)
    ensures
        crate::text::decimal(n).len() > 0,
        forall|i: int|
            0 <= i < crate::text::decimal(n).len() ==> '0' <= #[trigger] crate::text::decimal(n)[i]
                <= '9',
        n > 0 ==> crate::text::decimal(n)[0] != '0',
        n < 10 ==> crate::text::decimal(n).len() == 1,
        crate::text::digits_value(crate::text::decimal(n)) == n,
        crate::text::unsigned(crate::text::decimal(n)) == Some(n),
    decreases n,
{
    crate::text::decimal_denotes(n);
    crate::text::unsigned_reads_decimal(n);
    assert forall|i: int| 0 <= i < crate::text::decimal(n).len() implies '0'
        <= #[trigger] crate::text::decimal(n)[i] <= '9' by {
        assert(crate::text::is_digit(crate::text::decimal(n)[i]));
    }
    if n >= 10 {
        numbers_are_written_in_decimal(n / 10);
        assert(crate::text::decimal(n)[0] == crate::text::decimal(n / 10)[0]);
    }
}

/// What `to_decimal` returns reads back as the number, and has no leading zero.
pub proof fn written_numbers_read_back(n: u64, text: String)
    requires
        call_ensures(crate::text::to_decimal, (n,), text),
    ensures
        is_number(text@),
        crate::text::digits_value(text@) == n,
        n > 0 ==> text@[0] != '0',
        n == 0 ==> text@ == seq!['0'],
{
    numbers_are_written_in_decimal(n as nat);
    assert(text@ == crate::text::decimal(n as nat));
}

/// Two numbers are never written alike.
pub proof fn numbers_are_told_apart(one: nat, other: nat)
    requires
        crate::text::decimal(one) == crate::text::decimal(other),
    ensures
        one == other,
{
    crate::text::decimal_denotes(one);
    crate::text::decimal_denotes(other);
}

/// Whether a text is digits, at least one.
pub open spec fn is_number(s: Seq<char>) -> bool {
    s.len() > 0 && forall|i: int| 0 <= i < s.len() ==> '0' <= #[trigger] s[i] <= '9'
}

/// A text denotes a number exactly if it is digits, or a plus sign and digits; and then the number
/// of the digits.
pub proof fn numbers_are_read(s: Seq<char>)
    ensures
        is_number(s) ==> crate::text::unsigned(s) == Some(crate::text::digits_value(s)),
        is_number(s) ==> crate::text::unsigned(seq!['+'] + s) == Some(crate::text::digits_value(s)),
        crate::text::unsigned(s) is Some <==> is_number(s) || (s.len() > 0 && s[0] == '+'
            && is_number(s.skip(1))),
{
    assert((seq!['+'] + s).skip(1) == s);
    if is_number(s) {
        assert(s[0] != '+');
        assert forall|i: int| 0 <= i < s.len() implies crate::text::is_digit(#[trigger] s[i]) by {}
    }
    if s.len() > 0 && s[0] == '+' {
        let digits = s.skip(1);
        if crate::text::all_digits(digits) {
            assert forall|i: int| 0 <= i < digits.len() implies '0' <= #[trigger] digits[i]
                <= '9' by {
                assert(crate::text::is_digit(digits[i]));
            }
        }
        if is_number(digits) {
            assert forall|i: int| 0 <= i < digits.len() implies crate::text::is_digit(
                #[trigger] digits[i],
            ) by {}
        }
    } else if crate::text::all_digits(s) {
        assert forall|i: int| 0 <= i < s.len() implies '0' <= #[trigger] s[i] <= '9' by {
            assert(crate::text::is_digit(s[i]));
        }
    }
}

/// A number is read from a text exactly if the text denotes one that fits.
pub proof fn parsing_reads_what_fits(s: &str, value: Option<usize>)
    requires
        call_ensures(crate::text::parse_usize, (s,), value),
    ensures
        is_number(s@) && crate::text::digits_value(s@) <= usize::MAX ==> (value matches Some(n)
            && n as nat == crate::text::digits_value(s@)),
        is_number(s@) && crate::text::digits_value(s@) > usize::MAX ==> value is None,
        !is_number(s@) && !(s@.len() > 0 && s@[0] == '+' && is_number(s@.skip(1))) ==> value is None,
        s@.len() > 0 && s@[0] == '+' && is_number(s@.skip(1)) ==> match value {
            Some(n) => n as nat == crate::text::digits_value(s@.skip(1)),
            None => crate::text::digits_value(s@.skip(1)) > usize::MAX,
        },
{
    numbers_are_read(s@);
    if s@.len() > 0 && s@[0] == '+' {
        numbers_are_read(s@.skip(1));
        assert(seq!['+'] + s@.skip(1) == s@);
    }
}

/// Redis is understood to use what its report gives as `used_memory`. The report is unusable
/// exactly if that field is missing, denotes no number, or one that does not fit.
pub proof fn memory_is_read_from_its_field(fields: Map<Seq<char>, Seq<char>>)
    ensures
        match crate::storage::used_memory(fields) {
            Ok(bytes) => {
                &&& fields.contains_key("used_memory"@)
                &&& ({
                    let value = fields["used_memory"@];
                    ||| is_number(value) && crate::text::digits_value(value) == bytes
                    ||| value.len() > 0 && value[0] == '+' && is_number(value.skip(1))
                        && crate::text::digits_value(value.skip(1)) == bytes
                })
            },
            Err(error) => {
                &&& error == LimiterError::RedisGetUsageMemoryError
                &&& fields.contains_key("used_memory"@) ==> {
                    let value = fields["used_memory"@];
                    &&& is_number(value) ==> crate::text::digits_value(value) > usize::MAX
                    &&& value.len() > 0 && value[0] == '+' && is_number(value.skip(1))
                        ==> crate::text::digits_value(value.skip(1)) > usize::MAX
                }
            },
        },
{
    if fields.contains_key("used_memory"@) {
        let value = fields["used_memory"@];
        numbers_are_read(value);
        if value.len() > 0 && value[0] == '+' {
            numbers_are_read(value.skip(1));
            assert(seq!['+'] + value.skip(1) == value);
        }
    }
}

/// A command is sent word by word, each as its bytes in UTF-8.
pub proof fn words_are_sent_one_by_one(words: Seq<Seq<char>>)
    ensures
        crate::commands::encoded(words).len() == words.len(),
        forall|i: int|
            0 <= i < words.len() ==> #[trigger] crate::commands::encoded(words)[i]
                == vstd::utf8::encode_utf8(words[i]),
{
}

} // verus!
