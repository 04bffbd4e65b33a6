//! Localized texts of the game: a Lua table of strings, read from the game's own language file,
//! looked up by dotted paths and rendered with `#n#` placeholders filled in.
use vstd::prelude::*;
use crate::link::{char_is_whitespace, is_ws, push_char, trimmed, ws_end};

verus! {

/// What `char::is_alphanumeric` says of `c`.
pub uninterp spec fn is_alnum(c: char) -> bool;

/// Relies on `char::is_alphanumeric`.
#[verifier::external_body]
fn char_is_alphanumeric(c: char) -> (r: bool)
    ensures
        r == is_alnum(c),
{
    c.is_alphanumeric()
}

/// A value of a Lua table: a string, a table keyed by names, or a list. A table keeps its
/// entries in order in a `Vec`, no two with the same key: with string keys, vstd's `HashMap`
/// gives lookups no usable contract.
#[derive(Debug)]
pub enum LuaTable {
    Item(String),
    Table(Vec<(String, LuaTable)>),
    List(Vec<LuaTable>),
}

/// The first index from `i` on whose key is `key`, or the length where none is.
pub open spec fn find_from(m: Seq<(String, LuaTable)>, key: Seq<char>, i: int) -> int
    decreases m.len() - i,
{
    if i < 0 || i >= m.len() {
        m.len() as int
    } else if m[i].0@ == key {
        i
    } else {
        find_from(m, key, i + 1)
    }
}

/// Every key of `m` has at least one character.
pub open spec fn keys_named(m: Seq<(String, LuaTable)>) -> bool {
    forall|i: int| 0 <= i < m.len() ==> #[trigger] m[i].0@.len() > 0
}

/// No two entries of `m` have the same key.
pub open spec fn keys_unique(m: Seq<(String, LuaTable)>) -> bool {
    forall|i: int, j: int| 0 <= i < j < m.len() ==> m[i].0@ != m[j].0@
}

/// The value under `key`, where `t` is a table keyed by names that has one.
pub open spec fn lookup(t: LuaTable, key: Seq<char>) -> Option<LuaTable> {
    match t {
        LuaTable::Table(m) => {
            let i = find_from(m@, key, 0);
            if i < m@.len() {
                Some(m@[i].1)
            } else {
                None
            }
        },
        _ => None,
    }
}

proof fn lemma_find_from_bounds(m: Seq<(String, LuaTable)>, key: Seq<char>, i: int)
    requires
        0 <= i <= m.len(),
    ensures
        i <= find_from(m, key, i) <= m.len(),
        find_from(m, key, i) < m.len() ==> m[find_from(m, key, i)].0@ == key,
    decreases m.len() - i,
{
    if i < m.len() && m[i].0@ != key {
        lemma_find_from_bounds(m, key, i + 1);
    }
}

impl LuaTable {
    /// The value under `key`, where this is a table keyed by names that has one.
    pub fn get(&self, key: &str) -> (r: Option<&LuaTable>)
        ensures
            match lookup(*self, key@) {
                Some(v) => r matches Some(x) && *x == v,
                None => r is None,
            },
    {
        match self {
            LuaTable::Table(m) => {
                let k = String::from_str(key);
                let mut i: usize = 0;
                while i < m.len()
                    invariant
                        0 <= i <= m@.len(),
                        k@ == key@,
                        *self == LuaTable::Table(*m),
                        find_from(m@, key@, 0) == find_from(m@, key@, i as int),
                    decreases m@.len() - i,
                {
                    if m[i].0 == k {
                        assert(find_from(m@, key@, i as int) == i as int);
                        assert(lookup(*self, key@) == Some(m@[i as int].1));
                        return Some(&m[i].1);
                    }
                    i = i + 1;
                }
                None
            },
            LuaTable::Item(_) => None,
            LuaTable::List(_) => None,
        }
    }

    /// The string, where this is one.
    pub fn as_item(&self) -> (r: Option<&String>)
        ensures
            match *self {
                LuaTable::Item(s) => r matches Some(x) && *x == s,
                _ => r is None,
            },
    {
        match self {
            LuaTable::Item(item) => Some(item),
            LuaTable::Table(_) => None,
            LuaTable::List(_) => None,
        }
    }

    /// The list, where this is one.
    pub fn as_list(&self) -> (r: Option<&Vec<LuaTable>>)
        ensures
            match *self {
                LuaTable::List(l) => r matches Some(x) && *x == l,
                _ => r is None,
            },
    {
        match self {
            LuaTable::List(list) => Some(list),
            _ => None,
        }
    }
}

// ------------------------------------------------------------------------------------------
// Reading the Lua table
// ------------------------------------------------------------------------------------------

/// A character that may stand in a name.
pub open spec fn ident_char(c: char) -> bool {
    is_alnum(c) || c == '_'
}

/// The end of the name that starts at `i`.
pub open spec fn ident_end(s: Seq<char>, i: int) -> int
    decreases s.len() - i,
{
    if 0 <= i < s.len() && ident_char(s[i]) {
        ident_end(s, i + 1)
    } else {
        i
    }
}

proof fn lemma_ws_end_bounds(s: Seq<char>, i: int)
    requires
        0 <= i <= s.len(),
    ensures
        i <= ws_end(s, i) <= s.len(),
    decreases s.len() - i,
{
    if i < s.len() && is_ws(s[i]) {
        lemma_ws_end_bounds(s, i + 1);
    }
}

proof fn lemma_ident_end_bounds(s: Seq<char>, i: int)
    requires
        0 <= i <= s.len(),
    ensures
        i <= ident_end(s, i) <= s.len(),
    decreases s.len() - i,
{
    if i < s.len() && ident_char(s[i]) {
        lemma_ident_end_bounds(s, i + 1);
    }
}

/// The position after the whitespace that starts at `pos`.
fn skip_whitespace(chars: &Vec<char>, pos: usize) -> (r: usize)
    requires
        pos <= chars@.len(),
    ensures
        r == ws_end(chars@, pos as int),
        pos <= r <= chars@.len(),
{
    let mut i = pos;
    proof {
        lemma_ws_end_bounds(chars@, pos as int);
    }
    while i < chars.len() && char_is_whitespace(chars[i])
        invariant
            pos <= i <= chars@.len(),
            ws_end(chars@, pos as int) == ws_end(chars@, i as int),
        decreases chars@.len() - i,
    {
        i = i + 1;
    }
    i
}

/// The name that starts at `pos`, and the position after it.
fn parse_identifier(chars: &Vec<char>, pos: usize) -> (r: (String, usize))
    requires
        pos <= chars@.len(),
    ensures
        r.1 == ident_end(chars@, pos as int),
        pos <= r.1 <= chars@.len(),
        r.0@ == chars@.subrange(pos as int, r.1 as int),
{
    let mut result = String::new();
    let mut i = pos;
    proof {
        lemma_ident_end_bounds(chars@, pos as int);
    }
    while i < chars.len() && (char_is_alphanumeric(chars[i]) || chars[i] == '_')
        invariant
            pos <= i <= chars@.len(),
            ident_end(chars@, pos as int) == ident_end(chars@, i as int),
            result@ == chars@.subrange(pos as int, i as int),
        decreases chars@.len() - i,
    {
        push_char(&mut result, chars[i]);
        assert(result@ =~= chars@.subrange(pos as int, i + 1));
        i = i + 1;
    }
    (result, i)
}

/// Whether the name at `pos`, past any whitespace after it, is followed by `=`: the entry
/// there has a key.
fn has_equals_ahead(chars: &Vec<char>, pos: usize) -> (r: bool)
    requires
        pos <= chars@.len(),
    ensures
        r == {
            let w = ws_end(chars@, ident_end(chars@, pos as int));
            w < chars@.len() && chars@[w] == '='
        },
{
    let (_, after_name) = parse_identifier(chars, pos);
    let after_space = skip_whitespace(chars, after_name);
    after_space < chars.len() && chars[after_space] == '='
}

/// The character an escape `\c` stands for inside a string.
pub open spec fn escaped(c: char) -> Seq<char> {
    if c == 'n' {
        seq!['\n']
    } else if c == 't' {
        seq!['\t']
    } else if c == 'r' {
        seq!['\r']
    } else if c == '\\' {
        seq!['\\']
    } else if c == '"' {
        seq!['"']
    } else {
        seq!['\\', c]
    }
}

/// The text of a string whose content starts at `i`, and the position after its closing quote
/// (or the end of input, where it has none).
pub open spec fn string_from(s: Seq<char>, i: int) -> (Seq<char>, int)
    decreases s.len() - i,
{
    if i < 0 || i >= s.len() {
        (Seq::empty(), s.len() as int)
    } else if s[i] == '"' {
        (Seq::empty(), i + 1)
    } else if s[i] == '\\' {
        if i + 1 >= s.len() {
            (seq!['\\'], s.len() as int)
        } else {
            let rest = string_from(s, i + 2);
            (escaped(s[i + 1]) + rest.0, rest.1)
        }
    } else {
        let rest = string_from(s, i + 1);
        (seq![s[i]] + rest.0, rest.1)
    }
}

/// The string at `i`: its opening quote, where there is one, then its content.
pub open spec fn string_at(s: Seq<char>, i: int) -> (Seq<char>, int) {
    if 0 <= i < s.len() && s[i] == '"' {
        string_from(s, i + 1)
    } else {
        string_from(s, i)
    }
}

proof fn lemma_string_from_bounds(s: Seq<char>, i: int)
    requires
        0 <= i <= s.len(),
    ensures
        i <= string_from(s, i).1 <= s.len(),
        i < s.len() ==> i < string_from(s, i).1,
    decreases s.len() - i,
{
    if i < s.len() && s[i] != '"' {
        if s[i] == '\\' {
            if i + 1 < s.len() {
                lemma_string_from_bounds(s, i + 2);
            }
        } else {
            lemma_string_from_bounds(s, i + 1);
        }
    }
}

/// Appends the characters of `t` to `s`.
fn push_chars(s: &mut String, t: &str)
    ensures
        final(s)@ == old(s)@ + t@,
{
    s.append(t);
}

/// The string at `pos`, escapes read, and the position after it.
fn parse_string(chars: &Vec<char>, pos: usize) -> (r: (String, usize))
    requires
        pos <= chars@.len(),
    ensures
        (r.0@, r.1 as int) == string_at(chars@, pos as int),
        pos <= r.1 <= chars@.len(),
        pos < chars@.len() ==> pos < r.1,
{
    let n = chars.len();
    let mut i = pos;
    if i < n && chars[i] == '"' {
        i = i + 1;
    }
    let start = i;
    assert(string_at(chars@, pos as int) == string_from(chars@, start as int));
    let mut result = String::new();
    proof {
        lemma_string_from_bounds(chars@, start as int);
    }
    while i < n
        invariant
            n == chars@.len(),
            pos <= start <= i <= n,
            string_at(chars@, pos as int) == string_from(chars@, start as int),
            string_from(chars@, start as int) == (result@ + string_from(chars@, i as int).0,
            string_from(chars@, i as int).1),
        decreases n - i,
    {
        let ch = chars[i];
        if ch == '"' {
            assert(string_from(chars@, i as int) == (Seq::<char>::empty(), i as int + 1));
            assert(result@ + Seq::<char>::empty() =~= result@);
            assert(string_at(chars@, pos as int) == (result@, i as int + 1));
            return (result, i + 1);
        } else if ch == '\\' {
            if i + 1 < n {
                let e = chars[i + 1];
                let old_result = Ghost(result@);
                if e == 'n' {
                    push_char(&mut result, '\n');
                } else if e == 't' {
                    push_char(&mut result, '\t');
                } else if e == 'r' {
                    push_char(&mut result, '\r');
                } else if e == '\\' {
                    push_char(&mut result, '\\');
                } else if e == '"' {
                    push_char(&mut result, '"');
                } else {
                    push_char(&mut result, '\\');
                    push_char(&mut result, e);
                }
                assert(result@ =~= old_result@ + escaped(e));
                assert(old_result@ + (escaped(e) + string_from(chars@, i + 2).0) =~= result@
                    + string_from(chars@, i + 2).0);
                i = i + 2;
            } else {
                let ghost before = result@;
                push_char(&mut result, '\\');
                assert(string_from(chars@, i as int) == (seq!['\\'], n as int));
                assert(before + seq!['\\'] =~= result@);
                assert(string_at(chars@, pos as int) == (result@, n as int));
                return (result, n);
            }
        } else {
            let ghost old_result = result@;
            push_char(&mut result, ch);
            assert(old_result + (seq![ch] + string_from(chars@, i + 1).0) =~= result@
                + string_from(chars@, i + 1).0);
            i = i + 1;
        }
    }
    assert(result@ + Seq::<char>::empty() =~= result@);
    (result, i)
}

/// Puts `value` under `key`: in place of the value already there, or as a new last entry.
fn insert_entry(entries: &mut Vec<(String, LuaTable)>, key: String, value: LuaTable)
    requires
        keys_unique(old(entries)@),
        keys_named(old(entries)@),
        key@.len() > 0,
    ensures
        keys_unique(final(entries)@),
        keys_named(final(entries)@),
        ({
            let i = find_from(old(entries)@, key@, 0);
            if i < old(entries)@.len() {
                final(entries)@ == old(entries)@.update(i, (key, value))
            } else {
                final(entries)@ == old(entries)@.push((key, value))
            }
        }),
{
    let mut i: usize = 0;
    while i < entries.len()
        invariant
            0 <= i <= entries@.len(),
            entries@ == old(entries)@,
            keys_unique(entries@),
            keys_named(entries@),
            find_from(entries@, key@, 0) == find_from(entries@, key@, i as int),
            forall|j: int| 0 <= j < i ==> entries@[j].0@ != key@,
        decreases entries@.len() - i,
    {
        if entries[i].0 == key {
            assert(find_from(entries@, key@, i as int) == i as int);
            let ghost before = entries@;
            entries.set(i, (key, value));
            assert forall|a: int, b: int| 0 <= a < b < entries@.len() implies entries@[a].0@
                != entries@[b].0@ by {
                assert(before[a].0@ != before[b].0@);
            }
            return;
        }
        i = i + 1;
    }
    proof {
        lemma_find_from_bounds(entries@, key@, 0);
    }
    entries.push((key, value));
}

proof fn lemma_literal_end_bounds(s: Seq<char>, i: int)
    requires
        0 <= i <= s.len(),
    ensures
        i <= literal_end(s, i) <= s.len(),
    decreases s.len() - i,
{
    if i < s.len() && !(s[i] == ',' || s[i] == '}' || s[i] == ']' || is_ws(s[i])) {
        lemma_literal_end_bounds(s, i + 1);
    }
}

/// Whether `c` ends a bare literal.
fn ends_literal(c: char) -> (r: bool)
    ensures
        r == (c == ',' || c == '}' || c == ']' || is_ws(c)),
{
    c == ',' || c == '}' || c == ']' || char_is_whitespace(c)
}

/// The end of the bare literal that starts at `i`: up to a comma, a closing bracket or brace,
/// or whitespace.
pub open spec fn literal_end(s: Seq<char>, i: int) -> int
    decreases s.len() - i,
{
    if 0 <= i < s.len() && !(s[i] == ',' || s[i] == '}' || s[i] == ']' || is_ws(s[i])) {
        literal_end(s, i + 1)
    } else {
        i
    }
}

/// A braced value at `p` is a list when its first entry has no key: it starts with a quote, a
/// brace, or a letter or digit that no `=` follows.
pub open spec fn list_starts(s: Seq<char>, p: int) -> bool {
    p < s.len() && (s[p] == '"' || s[p] == '{' || (is_alnum(s[p]) && !({
        let w = ws_end(s, ident_end(s, p));
        w < s.len() && s[w] == '='
    })))
}

/// What the value that starts at `p`, whitespace skipped, is, and where it ends: nothing at the
/// end of input; a string for a quote; a name, or else a bare literal, for anything but a
/// brace; a list or a table for a brace.
pub open spec fn value_shape(s: Seq<char>, p: int, v: LuaTable, end: int) -> bool {
    if p >= s.len() {
        v matches LuaTable::Item(t) && t@.len() == 0 && end == p
    } else if s[p] == '{' {
        &&& end > p
        &&& (v is List <==> list_starts(s, ws_end(s, p + 1)))
        &&& (v is List || v is Table)
    } else if s[p] == '"' {
        v matches LuaTable::Item(t) && (t@, end) == string_at(s, p)
    } else if ident_end(s, p) > p {
        v matches LuaTable::Item(t) && t@ == s.subrange(p, ident_end(s, p)) && end == ident_end(
            s,
            p,
        )
    } else {
        v matches LuaTable::Item(t) && t@ == s.subrange(p, literal_end(s, p)) && end
            == literal_end(s, p)
    }
}

/// The value that starts at `pos`, past any whitespace, and the position after it: a braced
/// table, a quoted string, a name, or a bare literal up to the next separator.
fn parse_table_value(chars: &Vec<char>, pos: usize) -> (r: (LuaTable, usize))
    requires
        pos <= chars@.len(),
    ensures
        pos <= r.1 <= chars@.len(),
        r.0 matches LuaTable::Table(m) ==> keys_unique(m@) && keys_named(m@),
        value_shape(chars@, ws_end(chars@, pos as int), r.0, r.1 as int),
    decreases chars@.len() - pos,
{
    let n = chars.len();
    let mut p = skip_whitespace(chars, pos);
    if p >= n {
        return (LuaTable::Item(String::new()), p);
    }
    if chars[p] == '{' {
        let brace = p;
        p = skip_whitespace(chars, p + 1);
        let is_list = p < n && (chars[p] == '"' || chars[p] == '{' || (char_is_alphanumeric(
            chars[p],
        ) && !has_equals_ahead(chars, p)));
        if is_list {
            let mut list: Vec<LuaTable> = Vec::new();
            loop
                invariant
                    n == chars@.len(),
                    pos <= brace < p <= n,
                    brace == ws_end(chars@, pos as int),
                    chars@[brace as int] == '{',
                decreases n - p,
            {
                p = skip_whitespace(chars, p);
                if p >= n {
                    break ;
                }
                if chars[p] == '}' {
                    p = p + 1;
                    break ;
                }
                if chars[p] == ',' {
                    p = p + 1;
                    continue ;
                }
                let (value, after) = parse_table_value(chars, p);
                list.push(value);
                // a character that starts no value is passed over
                let after = if after == p {
                    after + 1
                } else {
                    after
                };
                p = skip_whitespace(chars, after);
                if p < n && chars[p] == ',' {
                    p = p + 1;
                }
            }
            (LuaTable::List(list), p)
        } else {
            let mut entries: Vec<(String, LuaTable)> = Vec::new();
            loop
                invariant
                    n == chars@.len(),
                    pos <= brace < p <= n,
                    brace == ws_end(chars@, pos as int),
                    chars@[brace as int] == '{',
                    keys_unique(entries@),
                    keys_named(entries@),
                decreases n - p,
            {
                p = skip_whitespace(chars, p);
                if p >= n {
                    break ;
                }
                if chars[p] == '}' {
                    p = p + 1;
                    break ;
                }
                if chars[p] == ',' {
                    p = p + 1;
                    continue ;
                }
                let start = p;
                let key = if chars[p] == '"' {
                    let (k, e) = parse_string(chars, p);
                    p = e;
                    k
                } else if chars[p] == '[' {
                    p = skip_whitespace(chars, p + 1);
                    let (k, e) = parse_string(chars, p);
                    p = skip_whitespace(chars, e);
                    if p < n && chars[p] == ']' {
                        p = p + 1;
                    }
                    k
                } else {
                    let (id, e) = parse_identifier(chars, p);
                    if e == p {
                        // a character that starts no key is passed over
                        p = p + 1;
                        continue ;
                    }
                    p = e;
                    id
                };
                assert(start < p);
                p = skip_whitespace(chars, p);
                if p < n && chars[p] == '=' {
                    p = p + 1;
                } else if !key.as_str().is_empty() {
                    continue ;
                }
                p = skip_whitespace(chars, p);
                let (value, e) = parse_table_value(chars, p);
                p = e;
                if !key.as_str().is_empty() {
                    insert_entry(&mut entries, key, value);
                }
                p = skip_whitespace(chars, p);
                if p < n && chars[p] == ',' {
                    p = p + 1;
                }
            }
            (LuaTable::Table(entries), p)
        }
    } else if chars[p] == '"' {
        let (s, e) = parse_string(chars, p);
        (LuaTable::Item(s), e)
    } else {
        let (id, e) = parse_identifier(chars, p);
        if e == p {
            let mut literal = String::new();
            let mut q = p;
            proof {
                lemma_literal_end_bounds(chars@, p as int);
            }
            while q < n && !ends_literal(chars[q])
                invariant
                    n == chars@.len(),
                    p <= q <= n,
                    literal_end(chars@, p as int) == literal_end(chars@, q as int),
                    literal@ == chars@.subrange(p as int, q as int),
                decreases n - q,
            {
                push_char(&mut literal, chars[q]);
                assert(literal@ =~= chars@.subrange(p as int, q + 1));
                q = q + 1;
            }
            (LuaTable::Item(literal), q)
        } else {
            (LuaTable::Item(id), e)
        }
    }
}

/// The prefix `return ` that a Lua file may start with.
pub open spec fn starts_with_return(s: Seq<char>) -> bool {
    s.len() >= 7 && s.take(7) == "return "@
}

/// Where the value of a language file's text `s` starts: past a leading `return `.
pub open spec fn body_start(s: Seq<char>) -> int {
    if starts_with_return(s) {
        7
    } else {
        0
    }
}

/// Reads a Lua table from the text of a language file: trimmed, past a leading `return `.
fn parse_lua_table(input: &str) -> (r: LuaTable)
    ensures
        r matches LuaTable::Table(m) ==> keys_unique(m@) && keys_named(m@),
        exists|end: int| value_shape(trimmed(input@), ws_end(trimmed(input@), body_start(trimmed(input@))), r, end),
{
    let text = crate::link::trim_str(input);
    let chars = crate::frame::chars_of(text);
    let prefix = crate::frame::chars_of("return ");
    proof {
        reveal_strlit("return ");
    }
    let mut skip = chars.len() >= prefix.len();
    let mut i: usize = 0;
    while i < prefix.len() && skip
        invariant
            chars@ == text@,
            prefix@ == "return "@,
            prefix@.len() == 7,
            !skip ==> !starts_with_return(chars@),
            skip ==> chars@.len() >= prefix@.len(),
            0 <= i <= prefix@.len(),
            skip ==> chars@.take(i as int) == prefix@.take(i as int),
        decreases prefix@.len() - i,
    {
        if chars[i] != prefix[i] {
            assert(chars@.take(7)[i as int] != "return "@[i as int]);
            skip = false;
        } else {
            assert(chars@.take(i + 1) =~= chars@.take(i as int).push(chars@[i as int]));
            assert(prefix@.take(i + 1) =~= prefix@.take(i as int).push(prefix@[i as int]));
        }
        i = i + 1;
    }
    proof {
        if skip {
            assert(prefix@.take(7) =~= prefix@);
        }
    }
    let start = if skip {
        prefix.len()
    } else {
        0
    };
    let (value, end) = parse_table_value(&chars, start);
    assert(value_shape(text@, ws_end(text@, body_start(text@)), value, end as int));
    value
}

/// The localized texts of the game.
pub struct Translations {
    data: LuaTable,
}

/// A rendered text: a name, and a description where there is one.
#[derive(Clone, Debug, PartialEq, Eq)]
pub struct Translation {
    pub name: String,
    pub text: Option<String>,
}

/// A value of the catalog that has a localized name and description.
pub trait Translatable {
    fn translate(&self, translations: &Translations) -> Option<Translation>;
}

impl Translations {
    /// The table the texts are read from.
    pub closed spec fn data(&self) -> LuaTable {
        self.data
    }

    /// Reads the texts from the contents of a language file.
    pub fn from_string(contents: String) -> (r: Translations)
        ensures
            r.data() matches LuaTable::Table(m) ==> keys_unique(m@) && keys_named(m@),
            exists|end: int| value_shape(
                trimmed(contents@),
                ws_end(trimmed(contents@), body_start(trimmed(contents@))),
                r.data(),
                end,
            ),
    {
        Translations { data: parse_lua_table(contents.as_str()) }
    }
}

// ------------------------------------------------------------------------------------------
// Looking texts up and rendering them
// ------------------------------------------------------------------------------------------

/// The parts of `s` between dots, in order; a text without dots is one part.
pub open spec fn segments(s: Seq<char>) -> Seq<Seq<char>>
    decreases s.len(),
{
    if s.len() == 0 {
        seq![Seq::empty()]
    } else {
        let p = segments(s.drop_last());
        if s.last() == '.' {
            p.push(Seq::empty())
        } else {
            p.update(p.len() - 1, p.last().push(s.last()))
        }
    }
}

proof fn lemma_segments_len(s: Seq<char>)
    ensures
        segments(s).len() >= 1,
    decreases s.len(),
{
    if s.len() > 0 {
        lemma_segments_len(s.drop_last());
    }
}

/// The value at the end of the path `comps`, taken from `t` one key at a time.
pub open spec fn walk(t: LuaTable, comps: Seq<Seq<char>>) -> Option<LuaTable>
    decreases comps.len(),
{
    if comps.len() == 0 {
        Some(t)
    } else {
        match lookup(t, comps[0]) {
            Some(c) => walk(c, comps.drop_first()),
            None => None,
        }
    }
}

/// The strings of a list, in order, other values left out.
pub open spec fn items(l: Seq<LuaTable>) -> Seq<Seq<char>>
    decreases l.len(),
{
    if l.len() == 0 {
        Seq::empty()
    } else {
        match l.last() {
            LuaTable::Item(s) => items(l.drop_last()).push(s@),
            _ => items(l.drop_last()),
        }
    }
}

/// The strings `strs` joined by single spaces.
pub open spec fn join(strs: Seq<Seq<char>>) -> Seq<char>
    decreases strs.len(),
{
    if strs.len() == 0 {
        Seq::empty()
    } else if strs.len() == 1 {
        strs[0]
    } else {
        join(strs.drop_last()) + seq![' '] + strs.last()
    }
}

/// The text a value stands for: a string itself, or the strings of a list that is not empty.
pub open spec fn text_value(t: LuaTable) -> Option<Seq<char>> {
    match t {
        LuaTable::Item(s) => Some(s@),
        LuaTable::List(l) => if l@.len() == 0 {
            None
        } else {
            Some(join(items(l@)))
        },
        _ => None,
    }
}

/// The characters of `args`, one sequence per argument.
pub open spec fn arg_views(args: Seq<String>) -> Seq<Seq<char>> {
    Seq::new(args.len(), |i: int| args[i]@)
}

/// A decimal digit.
pub open spec fn is_digit(c: char) -> bool {
    '0' <= c <= '9'
}

/// The argument a placeholder `#d#` stands for, counted from one; nothing where there is none.
pub open spec fn arg_text(d: int, args: Seq<Seq<char>>) -> Seq<char> {
    if 1 <= d <= args.len() {
        args[d - 1]
    } else {
        Seq::empty()
    }
}

/// `s` rendered from `i` on: `{...}` markup dropped, `#d#` replaced by argument `d`, anything
/// else kept; `in_brace` holds inside markup.
pub open spec fn render_from(s: Seq<char>, args: Seq<Seq<char>>, i: int, in_brace: bool) -> Seq<
    char,
>
    decreases s.len() - i,
{
    if i < 0 || i >= s.len() {
        Seq::empty()
    } else if in_brace {
        render_from(s, args, i + 1, s[i] != '}')
    } else if s[i] == '{' {
        render_from(s, args, i + 1, true)
    } else if s[i] == '#' {
        if i + 1 < s.len() && is_digit(s[i + 1]) {
            if i + 2 < s.len() && s[i + 2] == '#' {
                arg_text(s[i + 1] as int - '0' as int, args) + render_from(s, args, i + 3, false)
            } else {
                seq!['#', s[i + 1]] + render_from(s, args, i + 2, false)
            }
        } else {
            seq!['#'] + render_from(s, args, i + 1, false)
        }
    } else {
        seq![s[i]] + render_from(s, args, i + 1, false)
    }
}

/// `s` rendered with `args`.
pub open spec fn render_text(s: Seq<char>, args: Seq<Seq<char>>) -> Seq<char> {
    render_from(s, args, 0, false)
}

/// Splits a dotted path into its parts.
fn split_path(path: &str) -> (r: Vec<String>)
    ensures
        r@.len() == segments(path@).len(),
        forall|i: int| 0 <= i < r@.len() ==> #[trigger] r@[i]@ == segments(path@)[i],
{
    let chars = crate::frame::chars_of(path);
    let mut done: Vec<String> = Vec::new();
    let mut current = String::new();
    let mut i: usize = 0;
    while i < chars.len()
        invariant
            chars@ == path@,
            0 <= i <= chars@.len(),
            segments(path@.take(i as int)).len() == done@.len() + 1,
            forall|j: int| 0 <= j < done@.len() ==> #[trigger] done@[j]@ == segments(
                path@.take(i as int),
            )[j],
            current@ == segments(path@.take(i as int)).last(),
        decreases chars@.len() - i,
    {
        proof {
            lemma_segments_len(path@.take(i as int));
            assert(path@.take(i + 1).drop_last() =~= path@.take(i as int));
        }
        if chars[i] == '.' {
            done.push(current);
            current = String::new();
        } else {
            push_char(&mut current, chars[i]);
        }
        i = i + 1;
    }
    assert(path@.take(chars@.len() as int) =~= path@);
    done.push(current);
    done
}

/// The text of a list: its strings joined by spaces, where it is not empty.
fn list_text(l: &Vec<LuaTable>) -> (r: Option<String>)
    ensures
        match r {
            Some(x) => l@.len() > 0 && x@ == join(items(l@)),
            None => l@.len() == 0,
        },
{
    if l.len() == 0 {
        return None;
    }
    let mut out = String::new();
    let mut count: usize = 0;
    let mut i: usize = 0;
    while i < l.len()
        invariant
            0 <= i <= l@.len(),
            count == items(l@.take(i as int)).len(),
            count <= i,
            out@ == join(items(l@.take(i as int))),
        decreases l@.len() - i,
    {
        assert(l@.take(i + 1).drop_last() =~= l@.take(i as int));
        match &l[i] {
            LuaTable::Item(s) => {
                let ghost prev = items(l@.take(i as int));
                assert(items(l@.take(i + 1)) == prev.push(s@));
                if count == 0 {
                    out = s.clone();
                    assert(prev.push(s@).drop_last() =~= prev);
                } else {
                    out.append(" ");
                    proof {
                        reveal_strlit(" ");
                    }
                    out.append(s.as_str());
                    assert(prev.push(s@).drop_last() =~= prev);
                }
                count = count + 1;
            },
            _ => {},
        }
        i = i + 1;
    }
    assert(l@.take(l@.len() as int) =~= l@);
    Some(out)
}

/// `text` rendered with `args`: `{...}` markup dropped and each `#d#` replaced by argument `d`,
/// counted from one, or by nothing where there is no such argument.
fn parse_text(text: &str, args: &Vec<String>) -> (r: String)
    ensures
        r@ == render_text(text@, arg_views(args@)),
{
    let s = crate::frame::chars_of(text);
    let n = s.len();
    let ghost a = arg_views(args@);
    let mut out = String::new();
    let mut in_brace = false;
    let mut i: usize = 0;
    while i < n
        invariant
            s@ == text@,
            n == s@.len(),
            0 <= i <= n,
            a == arg_views(args@),
            render_text(text@, a) == out@ + render_from(s@, a, i as int, in_brace),
        decreases n - i,
    {
        let ghost before = out@;
        let ch = s[i];
        if in_brace {
            in_brace = ch != '}';
            i = i + 1;
        } else if ch == '{' {
            in_brace = true;
            i = i + 1;
        } else if ch == '#' {
            if i + 1 < n && '0' <= s[i + 1] && s[i + 1] <= '9' {
                let d = s[i + 1];
                if i + 2 < n && s[i + 2] == '#' {
                    let index = (d as u32 - '0' as u32) as usize;
                    if index > 0 && index <= args.len() {
                        out.append(args[index - 1].as_str());
                    }
                    assert(out@ =~= before + arg_text(d as int - '0' as int, a));
                    i = i + 3;
                } else {
                    push_char(&mut out, '#');
                    push_char(&mut out, d);
                    assert(out@ =~= before + seq!['#', d]);
                    i = i + 2;
                }
            } else {
                push_char(&mut out, '#');
                assert(out@ =~= before + seq!['#']);
                i = i + 1;
            }
        } else {
            push_char(&mut out, ch);
            assert(out@ =~= before + seq![ch]);
            i = i + 1;
        }
    }
    assert(out@ + Seq::<char>::empty() =~= out@);
    out
}

impl Translations {
    /// The value at the end of `path` in the table, and whether there is one.
    fn find(&self, path: &str) -> (r: Option<&LuaTable>)
        ensures
            match walk(self.data(), segments(path@)) {
                Some(t) => r matches Some(x) && *x == t,
                None => r is None,
            },
    {
        let comps = split_path(path);
        let ghost cs = segments(path@);
        let mut current: &LuaTable = &self.data;
        let mut i: usize = 0;
        assert(cs.skip(0) =~= cs);
        while i < comps.len()
            invariant
                comps@.len() == cs.len(),
                forall|j: int| 0 <= j < comps@.len() ==> #[trigger] comps@[j]@ == cs[j],
                cs == segments(path@),
                0 <= i <= comps@.len(),
                walk(self.data(), cs) == walk(*current, cs.skip(i as int)),
            decreases comps@.len() - i,
        {
            assert(cs.skip(i as int)[0] == cs[i as int]);
            assert(cs.skip(i as int).drop_first() =~= cs.skip(i + 1));
            match current.get(comps[i].as_str()) {
                Some(next) => {
                    current = next;
                },
                None => {
                    return None;
                },
            }
            i = i + 1;
        }
        assert(cs.skip(i as int) =~= Seq::<Seq<char>>::empty());
        Some(current)
    }

    /// The name and description at `path`, rendered with `args`: the value there must hold a
    /// string under `name`; its `text`, a string or a list of strings, becomes the description.
    pub fn render(&self, path: String, args: Vec<String>) -> (r: Option<Translation>)
        ensures
            match walk(self.data(), segments(path@)) {
                Some(cur) => match lookup(cur, "name"@) {
                    Some(LuaTable::Item(n)) => r matches Some(t) && t.name@ == render_text(
                        n@,
                        arg_views(args@),
                    ) && match lookup(cur, "text"@) {
                        Some(tt) => match text_value(tt) {
                            Some(x) => t.text matches Some(y) && y@ == render_text(
                                x,
                                arg_views(args@),
                            ),
                            None => t.text is None,
                        },
                        None => t.text is None,
                    },
                    _ => r is None,
                },
                None => r is None,
            },
    {
        let current = match self.find(path.as_str()) {
            Some(c) => c,
            None => return None,
        };
        let name = match current.get("name") {
            Some(n) => match n.as_item() {
                Some(s) => s,
                None => return None,
            },
            None => return None,
        };
        let text: Option<String> = match current.get("text") {
            Some(t) => match t {
                LuaTable::Item(s) => Some(parse_text(s.as_str(), &args)),
                LuaTable::List(l) => match list_text(l) {
                    Some(x) => Some(parse_text(x.as_str(), &args)),
                    None => None,
                },
                LuaTable::Table(_) => None,
            },
            None => None,
        };
        Some(Translation { name: parse_text(name.as_str(), &args), text })
    }

    /// The strings of the list at `path`, joined by spaces, where there is such a list and it
    /// is not empty.
    pub fn render_single(&self, path: String) -> (r: Option<String>)
        ensures
            match walk(self.data(), segments(path@)) {
                Some(LuaTable::List(l)) => if l@.len() == 0 {
                    r is None
                } else {
                    r matches Some(x) && x@ == join(items(l@))
                },
                _ => r is None,
            },
    {
        match self.find(path.as_str()) {
            Some(LuaTable::List(l)) => list_text(l),
            _ => None,
        }
    }
}

} // verus!
