use vstd::prelude::*;
use vstd::string::*;

verus! {

/// The hexadecimal digit for a value below sixteen, lower case.
pub open spec fn hex_digit(n: int) -> char {
    if n == 0 {
        '0'
    } else if n == 1 {
        '1'
    } else if n == 2 {
        '2'
    } else if n == 3 {
        '3'
    } else if n == 4 {
        '4'
    } else if n == 5 {
        '5'
    } else if n == 6 {
        '6'
    } else if n == 7 {
        '7'
    } else if n == 8 {
        '8'
    } else if n == 9 {
        '9'
    } else if n == 10 {
        'a'
    } else if n == 11 {
        'b'
    } else if n == 12 {
        'c'
    } else if n == 13 {
        'd'
    } else if n == 14 {
        'e'
    } else {
        'f'
    }
}

/// How one character appears inside a JSON string literal: quote and
/// backslash get a backslash, the named control characters their short
/// escape, other control characters a `\u00XX` escape, and everything
/// else stands as itself.
pub open spec fn escaped_char(c: char) -> Seq<char> {
    if c == '"' {
        seq!['\\', '"']
    } else if c == '\\' {
        seq!['\\', '\\']
    } else if c == '\n' {
        seq!['\\', 'n']
    } else if c == '\r' {
        seq!['\\', 'r']
    } else if c == '\t' {
        seq!['\\', 't']
    } else if (c as u32) < 32 {
        seq!['\\', 'u', '0', '0', hex_digit(((c as u32) / 16) as int), hex_digit(
            ((c as u32) % 16) as int,
        )]
    } else {
        seq![c]
    }
}

/// The body of a JSON string literal for `s`.
pub open spec fn escape_seq(s: Seq<char>) -> Seq<char>
    decreases s.len(),
{
    if s.len() == 0 {
        Seq::empty()
    } else {
        escaped_char(s[0]) + escape_seq(s.drop_first())
    }
}

/// A complete JSON string literal for `s`, quotes included.
pub open spec fn quoted(s: Seq<char>) -> Seq<char> {
    seq!['"'] + escape_seq(s) + seq!['"']
}

proof fn lemma_escape_push(s: Seq<char>, c: char)
    ensures
        escape_seq(s.push(c)) == escape_seq(s) + escaped_char(c),
    decreases s.len(),
{
    if s.len() == 0 {
        assert(s.push(c)[0] == c);
        assert(s.push(c).drop_first() =~= Seq::<char>::empty());
        assert(escape_seq(s.push(c)) == escaped_char(c) + escape_seq(s.push(c).drop_first()));
        assert(escape_seq(Seq::<char>::empty()) == Seq::<char>::empty());
        assert(escape_seq(s.push(c)) =~= escape_seq(s) + escaped_char(c));
    } else {
        lemma_escape_push(s.drop_first(), c);
        assert(s.push(c)[0] == s[0]);
        assert(s.push(c).drop_first() =~= s.drop_first().push(c));
        assert(escape_seq(s.push(c)) =~= escape_seq(s) + escaped_char(c));
    }
}

/// Relies on `String::push`: appends exactly the given character.
#[verifier::external_body]
fn push_char(out: &mut String, c: char)
    ensures
        final(out)@ == old(out)@.push(c),
{
    out.push(c);
}

/// The hexadecimal digit character for a value below sixteen.
fn hex_char(n: u32) -> (c: char)
    requires
        n < 16,
    ensures
        c == hex_digit(n as int),
{
    if n == 0 {
        '0'
    } else if n == 1 {
        '1'
    } else if n == 2 {
        '2'
    } else if n == 3 {
        '3'
    } else if n == 4 {
        '4'
    } else if n == 5 {
        '5'
    } else if n == 6 {
        '6'
    } else if n == 7 {
        '7'
    } else if n == 8 {
        '8'
    } else if n == 9 {
        '9'
    } else if n == 10 {
        'a'
    } else if n == 11 {
        'b'
    } else if n == 12 {
        'c'
    } else if n == 13 {
        'd'
    } else if n == 14 {
        'e'
    } else {
        'f'
    }
}

/// Appends one character in its JSON string-literal form.
fn push_escaped_char(out: &mut String, c: char)
    ensures
        final(out)@ == old(out)@ + escaped_char(c),
{
    if c == '"' {
        out.append("\\\"");
        proof {
            reveal_strlit("\\\"");
            assert(out@ =~= old(out)@ + escaped_char(c));
        }
    } else if c == '\\' {
        out.append("\\\\");
        proof {
            reveal_strlit("\\\\");
            assert(out@ =~= old(out)@ + escaped_char(c));
        }
    } else if c == '\n' {
        out.append("\\n");
        proof {
            reveal_strlit("\\n");
            assert(out@ =~= old(out)@ + escaped_char(c));
        }
    } else if c == '\r' {
        out.append("\\r");
        proof {
            reveal_strlit("\\r");
            assert(out@ =~= old(out)@ + escaped_char(c));
        }
    } else if c == '\t' {
        out.append("\\t");
        proof {
            reveal_strlit("\\t");
            assert(out@ =~= old(out)@ + escaped_char(c));
        }
    } else if (c as u32) < 32 {
        out.append("\\u00");
        push_char(out, hex_char((c as u32) / 16));
        push_char(out, hex_char((c as u32) % 16));
        proof {
            reveal_strlit("\\u00");
            assert(out@ =~= old(out)@ + escaped_char(c));
        }
    } else {
        push_char(out, c);
        proof {
            assert(out@ =~= old(out)@ + escaped_char(c));
        }
    }
}

/// Appends a complete JSON string literal for `s`, quotes included.
pub fn push_quoted(out: &mut String, s: &str)
    ensures
        final(out)@ == old(out)@ + quoted(s@),
{
    push_char(out, '"');
    let n = s.unicode_len();
    let mut i: usize = 0;
    while i < n
        invariant
            i <= n,
            n == s@.len(),
            out@ == old(out)@ + seq!['"'] + escape_seq(s@.subrange(0, i as int)),
        decreases n - i,
    {
        let c = s.get_char(i);
        push_escaped_char(out, c);
        proof {
            assert(s@.subrange(0, i + 1).drop_last() =~= s@.subrange(0, i as int));
            assert(s@.subrange(0, i + 1) =~= s@.subrange(0, i as int).push(s@[i as int]));
            lemma_escape_push(s@.subrange(0, i as int), s@[i as int]);
        }
        i += 1;
    }
    proof {
        assert(s@.subrange(0, n as int) =~= s@);
    }
    push_char(out, '"');
    proof {
        assert(out@ =~= old(out)@ + quoted(s@));
    }
}

/// The views of a sequence of owned strings.
pub open spec fn seq_views(items: Seq<String>) -> Seq<Seq<char>> {
    items.map_values(|s: String| s@)
}

/// The views of a sequence of owned string pairs.
pub open spec fn pair_views(entries: Seq<(String, String)>) -> Seq<(Seq<char>, Seq<char>)> {
    entries.map_values(|p: (String, String)| (p.0@, p.1@))
}

/// The comma-separated string literals for the first `i` items.
pub open spec fn array_items_upto(items: Seq<Seq<char>>, i: int) -> Seq<char>
    decreases i,
{
    if i <= 0 {
        Seq::empty()
    } else if i == 1 {
        quoted(items[0])
    } else {
        array_items_upto(items, i - 1) + seq![','] + quoted(items[i - 1])
    }
}

/// A JSON array of string literals.
pub open spec fn string_array(items: Seq<Seq<char>>) -> Seq<char> {
    seq!['['] + array_items_upto(items, items.len() as int) + seq![']']
}

/// The comma-separated members for the first `i` entries.
pub open spec fn object_entries_upto(entries: Seq<(Seq<char>, Seq<char>)>, i: int) -> Seq<char>
    decreases i,
{
    if i <= 0 {
        Seq::empty()
    } else if i == 1 {
        quoted(entries[0].0) + seq![':'] + quoted(entries[0].1)
    } else {
        object_entries_upto(entries, i - 1) + seq![','] + quoted(entries[i - 1].0) + seq![':']
            + quoted(entries[i - 1].1)
    }
}

/// A JSON object whose members are all string literals.
pub open spec fn string_object(entries: Seq<(Seq<char>, Seq<char>)>) -> Seq<char> {
    seq!['{'] + object_entries_upto(entries, entries.len() as int) + seq!['}']
}

/// Appends a JSON array holding the given strings, in order.
pub fn push_string_array(out: &mut String, items: &Vec<String>)
    ensures
        final(out)@ == old(out)@ + string_array(seq_views(items@)),
{
    push_char(out, '[');
    let mut idx: usize = 0;
    while idx < items.len()
        invariant
            idx <= items@.len(),
            out@ == old(out)@ + seq!['['] + array_items_upto(seq_views(items@), idx as int),
        decreases items@.len() - idx,
    {
        if idx > 0 {
            push_char(out, ',');
        }
        push_quoted(out, items[idx].as_str());
        proof {
            assert(seq_views(items@)[idx as int] == items@[idx as int]@);
            assert(out@ =~= old(out)@ + seq!['['] + array_items_upto(seq_views(items@), idx + 1));
        }
        idx += 1;
    }
    push_char(out, ']');
    proof {
        assert(out@ =~= old(out)@ + string_array(seq_views(items@)));
    }
}

/// Appends a JSON object holding the given entries, in order.
pub fn push_string_object(out: &mut String, entries: &Vec<(String, String)>)
    ensures
        final(out)@ == old(out)@ + string_object(pair_views(entries@)),
{
    push_char(out, '{');
    let mut idx: usize = 0;
    while idx < entries.len()
        invariant
            idx <= entries@.len(),
            out@ == old(out)@ + seq!['{'] + object_entries_upto(pair_views(entries@), idx as int),
        decreases entries@.len() - idx,
    {
        if idx > 0 {
            push_char(out, ',');
        }
        push_quoted(out, entries[idx].0.as_str());
        push_char(out, ':');
        push_quoted(out, entries[idx].1.as_str());
        proof {
            assert(pair_views(entries@)[idx as int] == (entries@[idx as int].0@, entries@[idx as int].1@));
            assert(out@ =~= old(out)@ + seq!['{'] + object_entries_upto(
                pair_views(entries@),
                idx + 1,
            ));
        }
        idx += 1;
    }
    push_char(out, '}');
    proof {
        assert(out@ =~= old(out)@ + string_object(pair_views(entries@)));
    }
}

} // verus!
