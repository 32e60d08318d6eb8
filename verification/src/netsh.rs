//! Reading the tables that `netsh` prints, and the commands that change
//! interfaces and routes. Running `netsh` is left to the caller; these
//! functions take its output as text and give back what to run.
use vstd::prelude::*;
use crate::text::{chars_of, dotted, ipv4_text, push_char};

verus! {

/// Unicode White_Space, the set `char::is_whitespace` tests.
pub open spec fn is_ws(c: char) -> bool {
    ||| '\u{9}' <= c <= '\u{d}'
    ||| c == ' '
    ||| c == '\u{85}'
    ||| c == '\u{a0}'
    ||| c == '\u{1680}'
    ||| '\u{2000}' <= c <= '\u{200a}'
    ||| c == '\u{2028}'
    ||| c == '\u{2029}'
    ||| c == '\u{202f}'
    ||| c == '\u{205f}'
    ||| c == '\u{3000}'
}

/// Whether a character is whitespace (`char::is_whitespace`).
pub fn is_whitespace(c: char) -> (b: bool)
    ensures
        b == is_ws(c),
{
    ('\u{9}' <= c && c <= '\u{d}') || c == ' ' || c == '\u{85}' || c == '\u{a0}' || c
        == '\u{1680}' || ('\u{2000}' <= c && c <= '\u{200a}') || c == '\u{2028}' || c
        == '\u{2029}' || c == '\u{202f}' || c == '\u{205f}' || c == '\u{3000}'
}

/// A line without the carriage return of a `\r\n` ending.
pub open spec fn strip_cr(l: Seq<char>) -> Seq<char> {
    if l.len() > 0 && l.last() == '\r' {
        l.drop_last()
    } else {
        l
    }
}

/// Scanning text for lines: the lines ended so far, and the one being read.
pub open spec fn line_scan(s: Seq<char>) -> (Seq<Seq<char>>, Seq<char>)
    decreases s.len(),
{
    if s.len() == 0 {
        (seq![], seq![])
    } else {
        let (done, cur) = line_scan(s.drop_last());
        if s.last() == '\n' {
            (done.push(strip_cr(cur)), seq![])
        } else {
            (done, cur.push(s.last()))
        }
    }
}

/// The lines of a text (`str::lines`): split at `\n`, a `\r` before it
/// dropped, and no empty line after a final `\n`.
pub open spec fn lines(s: Seq<char>) -> Seq<Seq<char>> {
    let (done, cur) = line_scan(s);
    if cur.len() > 0 {
        done.push(cur)
    } else {
        done
    }
}

/// Scanning a line for words: the words ended so far, and the one being read.
pub open spec fn word_scan(s: Seq<char>) -> (Seq<Seq<char>>, Seq<char>)
    decreases s.len(),
{
    if s.len() == 0 {
        (seq![], seq![])
    } else {
        let (done, cur) = word_scan(s.drop_last());
        if is_ws(s.last()) {
            if cur.len() > 0 {
                (done.push(cur), seq![])
            } else {
                (done, seq![])
            }
        } else {
            (done, cur.push(s.last()))
        }
    }
}

/// The words of a line (`str::split_whitespace`): its maximal runs of
/// characters that are not whitespace.
pub open spec fn words(s: Seq<char>) -> Seq<Seq<char>> {
    let (done, cur) = word_scan(s);
    if cur.len() > 0 {
        done.push(cur)
    } else {
        done
    }
}

/// A line that holds only whitespace (its `trim` is empty).
pub open spec fn is_blank(l: Seq<char>) -> bool {
    forall|i: int| 0 <= i < l.len() ==> is_ws(#[trigger] l[i])
}

/// Scanning over only whitespace ends with nothing read, and only then.
proof fn lemma_word_scan_empty(s: Seq<char>)
    ensures
        word_scan(s) == (Seq::<Seq<char>>::empty(), Seq::<char>::empty()) <==> is_blank(s),
    decreases s.len(),
{
    if s.len() > 0 {
        lemma_word_scan_empty(s.drop_last());
        let (done, cur) = word_scan(s.drop_last());
        if is_blank(s) {
            assert(is_blank(s.drop_last())) by {
                assert forall|i: int| 0 <= i < s.drop_last().len() implies is_ws(
                    #[trigger] s.drop_last()[i],
                ) by {
                    assert(s.drop_last()[i] == s[i]);
                }
            }
            assert(is_ws(s[s.len() - 1]));
        }
        if word_scan(s) == (Seq::<Seq<char>>::empty(), Seq::<char>::empty()) {
            if !is_ws(s.last()) {
                assert(word_scan(s).1.len() == cur.len() + 1);
            } else if cur.len() > 0 {
                assert(word_scan(s).0.len() == done.len() + 1);
            } else {
                assert forall|i: int| 0 <= i < s.len() implies is_ws(#[trigger] s[i]) by {
                    if i < s.len() - 1 {
                        assert(s.drop_last()[i] == s[i]);
                    }
                }
            }
        }
    } else {
        assert(word_scan(s) =~= (Seq::<Seq<char>>::empty(), Seq::<char>::empty()));
    }
}

/// A line has no words exactly when it is blank.
pub proof fn lemma_no_words_iff_blank(l: Seq<char>)
    ensures
        words(l).len() == 0 <==> is_blank(l),
{
    lemma_word_scan_empty(l);
    let (done, cur) = word_scan(l);
    if words(l).len() == 0 {
        assert(cur.len() == 0);
        assert(done.len() == 0);
        assert(done =~= Seq::<Seq<char>>::empty());
        assert(cur =~= Seq::<char>::empty());
    }
}

/// The strings of a vector, as character sequences.
pub open spec fn strs(v: Seq<String>) -> Seq<Seq<char>> {
    v.map_values(|s: String| s@)
}

/// The rows of strings of a table, as character sequences.
pub open spec fn table_view(t: Seq<Vec<String>>) -> Seq<Seq<Seq<char>>> {
    t.map_values(|r: Vec<String>| strs(r@))
}

/// Splits a line into its words.
pub fn split_words(line: &Vec<char>) -> (r: Vec<String>)
    ensures
        strs(r@) == words(line@),
{
    let mut done: Vec<String> = Vec::new();
    let mut cur = String::new();
    let mut i: usize = 0;
    while i < line.len()
        invariant
            i <= line@.len(),
            (strs(done@), cur@) == word_scan(line@.subrange(0, i as int)),
        decreases line@.len() - i,
    {
        let c = line[i];
        let ghost prefix = line@.subrange(0, i as int);
        assert(line@.subrange(0, i + 1).drop_last() =~= prefix);
        assert(line@.subrange(0, i + 1).last() == c);
        if is_whitespace(c) {
            if !cur.as_str().is_empty() {
                let ghost d = done@;
                let w = cur;
                done.push(w);
                cur = String::new();
                assert(strs(done@) =~= strs(d).push(w@));
            } else {
                cur = String::new();
            }
        } else {
            push_char(&mut cur, c);
        }
        i += 1;
    }
    assert(line@.subrange(0, line@.len() as int) =~= line@);
    if !cur.as_str().is_empty() {
        let ghost d = done@;
        let w = cur;
        done.push(w);
        assert(strs(done@) =~= strs(d).push(w@));
    }
    done
}

/// Splits a text into its lines.
pub fn split_lines(text: &Vec<char>) -> (r: Vec<Vec<char>>)
    ensures
        r@.map_values(|l: Vec<char>| l@) == lines(text@),
{
    let mut done: Vec<Vec<char>> = Vec::new();
    let mut cur: Vec<char> = Vec::new();
    let mut i: usize = 0;
    while i < text.len()
        invariant
            i <= text@.len(),
            (done@.map_values(|l: Vec<char>| l@), cur@) == line_scan(
                text@.subrange(0, i as int),
            ),
        decreases text@.len() - i,
    {
        let c = text[i];
        let ghost prefix = text@.subrange(0, i as int);
        assert(text@.subrange(0, i + 1).drop_last() =~= prefix);
        assert(text@.subrange(0, i + 1).last() == c);
        if c == '\n' {
            let n = cur.len();
            if n > 0 && cur[n - 1] == '\r' {
                cur.pop();
            }
            assert(cur@ =~= strip_cr(line_scan(prefix).1));
            let ghost d = done@;
            let l = cur;
            done.push(l);
            cur = Vec::new();
            assert(done@.map_values(|l: Vec<char>| l@) =~= d.map_values(|l: Vec<char>| l@).push(
                l@,
            ));
        } else {
            cur.push(c);
        }
        i += 1;
    }
    assert(text@.subrange(0, text@.len() as int) =~= text@);
    if cur.len() > 0 {
        let ghost d = done@;
        let l = cur;
        done.push(l);
        assert(done@.map_values(|l: Vec<char>| l@) =~= d.map_values(|l: Vec<char>| l@).push(l@));
    }
    done
}

/// The rows of a table: the words of each non-blank line.
pub open spec fn rows_of(ls: Seq<Seq<char>>) -> Seq<Seq<Seq<char>>>
    decreases ls.len(),
{
    if ls.len() == 0 {
        seq![]
    } else if is_blank(ls.last()) {
        rows_of(ls.drop_last())
    } else {
        rows_of(ls.drop_last()).push(words(ls.last()))
    }
}

/// Lines of a `netsh` table before its rows: a blank line, the column
/// names and a rule.
pub const TABLE_HEADER_LINES: usize = 3;

/// The rows `netsh` prints in a table: past the first three lines, the words
/// of each line that is not blank.
pub open spec fn table_rows(text: Seq<char>) -> Seq<Seq<Seq<char>>> {
    rows_of(skip_seq(lines(text), TABLE_HEADER_LINES as nat))
}

/// A sequence without its first `n` items (`Iterator::skip`): empty when it
/// has no more than `n`.
pub open spec fn skip_seq<T>(s: Seq<T>, n: nat) -> Seq<T> {
    if s.len() <= n {
        seq![]
    } else {
        s.subrange(n as int, s.len() as int)
    }
}

/// Reads the rows of a `netsh` table.
pub fn parse_table(output: &str) -> (r: Vec<Vec<String>>)
    ensures
        table_view(r@) == table_rows(output@),
{
    let text = chars_of(output);
    let ls = split_lines(&text);
    let ghost lv = ls@.map_values(|l: Vec<char>| l@);
    let mut rows: Vec<Vec<String>> = Vec::new();
    let mut i: usize = TABLE_HEADER_LINES;
    if ls.len() < TABLE_HEADER_LINES {
        return rows;
    }
    while i < ls.len()
        invariant
            TABLE_HEADER_LINES <= i <= ls@.len(),
            lv == lines(output@),
            lv == ls@.map_values(|l: Vec<char>| l@),
            table_view(rows@) == rows_of(lv.subrange(TABLE_HEADER_LINES as int, i as int)),
        decreases ls@.len() - i,
    {
        let ghost part = lv.subrange(TABLE_HEADER_LINES as int, i as int);
        assert(lv.subrange(TABLE_HEADER_LINES as int, i + 1).drop_last() =~= part);
        assert(lv.subrange(TABLE_HEADER_LINES as int, i + 1).last() == ls[i as int]@);
        let w = split_words(&ls[i]);
        proof {
            lemma_no_words_iff_blank(ls[i as int]@);
        }
        if w.len() > 0 {
            let ghost r0 = rows@;
            rows.push(w);
            assert(table_view(rows@) =~= table_view(r0).push(strs(w@)));
        }
        i += 1;
    }
    rows
}

/// Every row has a column `col`.
pub open spec fn all_have_column(rows: Seq<Seq<Seq<char>>>, col: int) -> bool {
    forall|i: int| 0 <= i < rows.len() ==> (#[trigger] rows[i]).len() > col
}

/// The index of the last row whose column `col` is `v`, or -1.
pub open spec fn last_match(rows: Seq<Seq<Seq<char>>>, col: int, v: Seq<char>) -> int
    decreases rows.len(),
{
    if rows.len() == 0 {
        -1
    } else if rows.last()[col] == v {
        rows.len() - 1
    } else {
        last_match(rows.drop_last(), col, v)
    }
}

/// Whether some row has `v` in column `col`, every row having that column.
pub open spec fn has_match(rows: Seq<Seq<Seq<char>>>, col: int, v: Seq<char>) -> bool {
    all_have_column(rows, col) && exists|i: int| 0 <= i < rows.len() && (#[trigger] rows[i])[col] == v
}

proof fn lemma_last_match_bound(rows: Seq<Seq<Seq<char>>>, col: int, v: Seq<char>)
    ensures
        -1 <= last_match(rows, col, v) < rows.len(),
    decreases rows.len(),
{
    if rows.len() > 0 {
        lemma_last_match_bound(rows.drop_last(), col, v);
    }
}

proof fn lemma_last_match(rows: Seq<Seq<Seq<char>>>, col: int, v: Seq<char>)
    requires
        has_match(rows, col, v),
    ensures
        0 <= last_match(rows, col, v) < rows.len(),
        rows[last_match(rows, col, v)][col] == v,
    decreases rows.len(),
{
    if rows.last()[col] != v {
        let i = choose|i: int| 0 <= i < rows.len() && (#[trigger] rows[i])[col] == v;
        assert(i != rows.len() - 1);
        assert(rows.drop_last()[i] == rows[i]);
        assert forall|j: int| 0 <= j < rows.drop_last().len() implies (
        #[trigger] rows.drop_last()[j]).len() > col by {
            assert(rows.drop_last()[j] == rows[j]);
        }
        lemma_last_match(rows.drop_last(), col, v);
        assert(rows.drop_last()[last_match(rows, col, v)] == rows[last_match(rows, col, v)]);
    }
}

/// The index of the last row whose column `col` is `value`.
pub fn last_row_with(rows: &Vec<Vec<String>>, col: usize, value: &String) -> (k: usize)
    requires
        has_match(table_view(rows@), col as int, value@),
    ensures
        k == last_match(table_view(rows@), col as int, value@),
        k < rows@.len(),
{
    let ghost t = table_view(rows@);
    proof {
        lemma_last_match(t, col as int, value@);
    }
    let mut i: usize = rows.len();
    assert(t.subrange(0, i as int) =~= t);
    while i > 0
        invariant
            i <= rows@.len(),
            t == table_view(rows@),
            all_have_column(t, col as int),
            last_match(t, col as int, value@) == last_match(t.subrange(0, i as int), col as int, value@),
            0 <= last_match(t, col as int, value@) < i,
        decreases i,
    {
        let ghost part = t.subrange(0, i as int);
        assert(t[i - 1] == strs(rows@[i - 1]@));
        assert(t[i - 1].len() > col);
        let row = &rows[i - 1];
        assert(row@[col as int]@ == t[i - 1][col as int]);
        if row[col].eq(value) {
            assert(part.last() == t[i - 1]);
            return i - 1;
        }
        assert(part.drop_last() =~= t.subrange(0, i - 1));
        assert(part.last() == t[i - 1]);
        proof {
            lemma_last_match_bound(t.subrange(0, i - 1), col as int, value@);
        }
        i -= 1;
    }
    assert(false);
    0
}

/// The rows of the IPv4 routing table (`netsh interface ipv4 show route`).
pub fn get_ipv4_route_entries(output: &str) -> (r: Vec<Vec<String>>)
    ensures
        table_view(r@) == table_rows(output@),
{
    parse_table(output)
}

/// The rows of the interface table (`netsh interface ip show interface`).
pub fn get_interface_entries(output: &str) -> (r: Vec<Vec<String>>)
    ensures
        table_view(r@) == table_rows(output@),
{
    parse_table(output)
}

/// The prefix of a default IPv4 route.
pub open spec fn default_prefix() -> Seq<char> {
    "0.0.0.0/0"@
}

/// Whether a routing table can be searched for its default route: every
/// row has a prefix column and one of them is the default prefix.
pub open spec fn has_default_route(route_output: Seq<char>) -> bool {
    has_match(table_rows(route_output), 3, default_prefix())
}

/// The last row of the routing table whose prefix is the default one.
pub open spec fn default_route_entry(route_output: Seq<char>) -> Seq<Seq<char>> {
    table_rows(route_output)[last_match(table_rows(route_output), 3, default_prefix())]
}

/// The last default route of the IPv4 routing table.
pub fn get_default_ipv4_route_entry(route_output: &str) -> (r: Vec<String>)
    requires
        has_default_route(route_output@),
    ensures
        strs(r@) == default_route_entry(route_output@),
{
    let entries = get_ipv4_route_entries(route_output);
    let prefix = String::from_str("0.0.0.0/0");
    let k = last_row_with(&entries, 3, &prefix);
    assert(table_view(entries@)[k as int] == strs(entries@[k as int]@));
    entries[k].clone()
}

/// Whether the default route row has the six columns the gateway and
/// interface index are read from.
pub open spec fn default_route_well_formed(route_output: Seq<char>) -> bool {
    has_default_route(route_output) && default_route_entry(route_output).len() == 6
}

/// The gateway of the default IPv4 route: its sixth column.
pub fn get_default_ipv4_gateway(route_output: &str) -> (r: String)
    requires
        default_route_well_formed(route_output@),
    ensures
        r@ == default_route_entry(route_output@)[5],
{
    let cols = get_default_ipv4_route_entry(route_output);
    assert(cols@[5]@ == strs(cols@)[5]);
    cols[5].clone()
}

/// The interface index of the default IPv4 route: its fifth column.
pub fn get_default_ipv4_interface_index(route_output: &str) -> (r: String)
    requires
        default_route_well_formed(route_output@),
    ensures
        r@ == default_route_entry(route_output@)[4],
{
    let cols = get_default_ipv4_route_entry(route_output);
    assert(cols@[4]@ == strs(cols@)[4]);
    cols[4].clone()
}

/// Whether the interface table can be searched for an interface: every row
/// has a name column and one of them names the interface.
pub open spec fn has_interface(iface_output: Seq<char>, name: Seq<char>) -> bool {
    has_match(table_rows(iface_output), 4, name)
}

/// The last row of the interface table that names the interface.
pub open spec fn interface_entry(iface_output: Seq<char>, name: Seq<char>) -> Seq<Seq<char>> {
    table_rows(iface_output)[last_match(table_rows(iface_output), 4, name)]
}

/// The row of the interface table for an interface name (its last one).
pub fn get_interface_entry(interface: &str, iface_output: &str) -> (r: Vec<String>)
    requires
        has_interface(iface_output@, interface@),
    ensures
        strs(r@) == interface_entry(iface_output@, interface@),
{
    let entries = get_interface_entries(iface_output);
    let name = String::from_str(interface);
    let k = last_row_with(&entries, 4, &name);
    assert(table_view(entries@)[k as int] == strs(entries@[k as int]@));
    entries[k].clone()
}

/// The index of an interface: the first column of its row.
pub fn get_interface_index(interface: &str, iface_output: &str) -> (r: String)
    requires
        has_interface(iface_output@, interface@),
    ensures
        r@ == interface_entry(iface_output@, interface@)[0],
{
    let col = get_interface_entry(interface, iface_output);
    proof {
        lemma_last_match(table_rows(iface_output@), 4, interface@);
    }
    assert(col@[0]@ == strs(col@)[0]);
    col[0].clone()
}

/// The words of each line of `netsh interface ipv4 show interface` past the
/// first three, blank lines kept.
pub open spec fn listed_lines(text: Seq<char>) -> Seq<Seq<Seq<char>>> {
    skip_seq(lines(text), TABLE_HEADER_LINES as nat).map_values(|l: Seq<char>| words(l))
}

/// The first of the listed lines whose first word is `idx`, every line before
/// it having a first word, or -1.
pub open spec fn first_with_index(ls: Seq<Seq<Seq<char>>>, idx: Seq<char>) -> int
    decreases ls.len(),
{
    if ls.len() == 0 || ls[0].len() == 0 {
        -1
    } else if ls[0][0] == idx {
        0
    } else {
        let k = first_with_index(ls.drop_first(), idx);
        if k < 0 {
            -1
        } else {
            k + 1
        }
    }
}

/// Whether the default interface can be read: the default route is well
/// formed, and the interface listing has, before any blank line, a line for
/// its interface index with five words.
pub open spec fn default_interface_listed(route_output: Seq<char>, show_output: Seq<char>) -> bool {
    &&& default_route_well_formed(route_output)
    &&& first_with_index(listed_lines(show_output), default_route_entry(route_output)[4]) >= 0
    &&& listed_lines(show_output)[first_with_index(
        listed_lines(show_output),
        default_route_entry(route_output)[4],
    )].len() == 5
}

/// The name of the interface of the default route: the fifth word of the
/// first listed line for its index.
pub open spec fn default_interface_name(route_output: Seq<char>, show_output: Seq<char>) -> Seq<
    char,
> {
    listed_lines(show_output)[first_with_index(
        listed_lines(show_output),
        default_route_entry(route_output)[4],
    )][4]
}

proof fn lemma_first_with_index(ls: Seq<Seq<Seq<char>>>, idx: Seq<char>)
    ensures
        first_with_index(ls, idx) < ls.len(),
        first_with_index(ls, idx) >= 0 ==> {
            &&& ls[first_with_index(ls, idx)].len() > 0
            &&& ls[first_with_index(ls, idx)][0] == idx
            &&& forall|j: int|
                0 <= j < first_with_index(ls, idx) ==> (#[trigger] ls[j]).len() > 0 && ls[j][0]
                    != idx
        },
    decreases ls.len(),
{
    if ls.len() == 0 {
    } else if ls[0].len() == 0 {
    } else if ls[0][0] == idx {
    } else {
        lemma_first_with_index(ls.drop_first(), idx);
        if first_with_index(ls, idx) >= 0 {
            assert forall|j: int| 0 <= j < first_with_index(ls, idx) implies (
            #[trigger] ls[j]).len() > 0 && ls[j][0] != idx by {
                if j > 0 {
                    assert(ls.drop_first()[j - 1] == ls[j]);
                }
            }
        }
    }
}

/// The name of the interface the default IPv4 route goes through.
pub fn get_default_interface(route_output: &str, show_output: &str) -> (r: String)
    requires
        default_interface_listed(route_output@, show_output@),
    ensures
        r@ == default_interface_name(route_output@, show_output@),
{
    let if_idx = get_default_ipv4_interface_index(route_output);
    let text = chars_of(show_output);
    let ls = split_lines(&text);
    let ghost lv = ls@.map_values(|l: Vec<char>| l@);
    let ghost listed = listed_lines(show_output@);
    let ghost target = first_with_index(listed, if_idx@);
    proof {
        lemma_first_with_index(listed, if_idx@);
    }
    let mut i: usize = TABLE_HEADER_LINES;
    while i < ls.len()
        invariant
            lv == lines(show_output@),
            lv == ls@.map_values(|l: Vec<char>| l@),
            listed == listed_lines(show_output@),
            if_idx@ == default_route_entry(route_output@)[4],
            target == first_with_index(listed, if_idx@),
            0 <= target < listed.len(),
            listed.len() == lv.len() - TABLE_HEADER_LINES,
            TABLE_HEADER_LINES <= i <= TABLE_HEADER_LINES + target,
            listed[target].len() == 5,
            listed[target][0] == if_idx@,
            forall|j: int| 0 <= j < target ==> (#[trigger] listed[j]).len() > 0 && listed[j][0]
                != if_idx@,
        decreases ls@.len() - i,
    {
        let cols = split_words(&ls[i]);
        let ghost j = i - TABLE_HEADER_LINES;
        assert(listed[j] == words(lv[i as int]));
        assert(strs(cols@) == listed[j]);
        assert(cols@[0]@ == listed[j][0]);
        if cols[0].eq(&if_idx) {
            assert(j == target);
            assert(cols@[4]@ == listed[j][4]);
            let name = cols[4].clone();
            assert(name@ == listed[target][4]);
            assert(if_idx@ == default_route_entry(route_output@)[4]);
            return name;
        }
        i += 1;
    }
    assert(false);
    String::new()
}

/// The fourth line of `netsh interface ipv6 show route`.
pub fn get_default_ipv6_route_entry(output: &str) -> (r: String)
    requires
        lines(output@).len() > TABLE_HEADER_LINES,
    ensures
        r@ == lines(output@)[TABLE_HEADER_LINES as int],
{
    let text = chars_of(output);
    let ls = split_lines(&text);
    let line = &ls[TABLE_HEADER_LINES];
    let mut s = String::new();
    let mut i: usize = 0;
    while i < line.len()
        invariant
            i <= line@.len(),
            s@ == line@.subrange(0, i as int),
        decreases line@.len() - i,
    {
        push_char(&mut s, line[i]);
        i += 1;
        assert(s@ =~= line@.subrange(0, i as int));
    }
    assert(line@.subrange(0, line@.len() as int) =~= line@);
    s
}

/// Whether IPv4 forwarding is on: it is reported off.
pub fn get_ipv4_forwarding() -> (b: bool)
    ensures
        !b,
{
    false
}

/// Whether IPv6 forwarding is on: it is reported off.
pub fn get_ipv6_forwarding() -> (b: bool)
    ensures
        !b,
{
    false
}

/// Appends an argument to a command line.
fn push_arg(args: &mut Vec<String>, a: &str)
    ensures
        strs(final(args)@) == strs(old(args)@).push(a@),
{
    let ghost before = args@;
    args.push(String::from_str(a));
    assert(strs(args@) =~= strs(before).push(a@));
}

/// Appends an owned argument to a command line.
fn push_owned_arg(args: &mut Vec<String>, a: String)
    ensures
        strs(final(args)@) == strs(old(args)@).push(a@),
{
    let ghost before = args@;
    args.push(a);
    assert(strs(args@) =~= strs(before).push(a@));
}

/// The `netsh` arguments that give an interface a static IPv4 address,
/// mask and gateway.
pub fn add_interface_ipv4_address(name: &str, addr: [u8; 4], gw: [u8; 4], mask: [u8; 4]) -> (r:
    Vec<String>)
    ensures
        strs(r@) == seq![
            "interface"@,
            "ipv4"@,
            "set"@,
            "address"@,
            name@,
            "static"@,
            dotted(addr@),
            dotted(mask@),
            dotted(gw@),
            "store=active"@,
        ],
{
    let mut args: Vec<String> = Vec::new();
    push_arg(&mut args, "interface");
    push_arg(&mut args, "ipv4");
    push_arg(&mut args, "set");
    push_arg(&mut args, "address");
    push_arg(&mut args, name);
    push_arg(&mut args, "static");
    push_owned_arg(&mut args, ipv4_text(addr));
    push_owned_arg(&mut args, ipv4_text(mask));
    push_owned_arg(&mut args, ipv4_text(gw));
    push_arg(&mut args, "store=active");
    assert(strs(args@) =~= seq![
        "interface"@,
        "ipv4"@,
        "set"@,
        "address"@,
        name@,
        "static"@,
        dotted(addr@),
        dotted(mask@),
        dotted(gw@),
        "store=active"@,
    ]);
    args
}

/// The `netsh` arguments that give an interface an IPv6 address, the address
/// given as text.
pub fn add_interface_ipv6_address(name: &str, addr: &str) -> (r: Vec<String>)
    ensures
        strs(r@) == seq![
            "interface"@,
            "ipv6"@,
            "set"@,
            "address"@,
            "interface="@ + name@,
            "address="@ + addr@,
            "store=active"@,
        ],
{
    let mut args: Vec<String> = Vec::new();
    push_arg(&mut args, "interface");
    push_arg(&mut args, "ipv6");
    push_arg(&mut args, "set");
    push_arg(&mut args, "address");
    let mut a = String::from_str("interface=");
    a.append(name);
    push_owned_arg(&mut args, a);
    let mut b = String::from_str("address=");
    b.append(addr);
    push_owned_arg(&mut args, b);
    push_arg(&mut args, "store=active");
    assert(strs(args@) =~= seq![
        "interface"@,
        "ipv6"@,
        "set"@,
        "address"@,
        "interface="@ + name@,
        "address="@ + addr@,
        "store=active"@,
    ]);
    args
}

/// The `netsh` arguments that add a default IPv4 route through a gateway on
/// an interface, named by its index.
pub fn add_default_ipv4_route(gateway: [u8; 4], interface: &str, iface_output: &str) -> (r: Vec<
    String,
>)
    requires
        has_interface(iface_output@, interface@),
    ensures
        strs(r@) == seq![
            "interface"@,
            "ipv4"@,
            "add"@,
            "route"@,
            "0.0.0.0/0"@,
            interface_entry(iface_output@, interface@)[0],
            dotted(gateway@),
            "store=active"@,
        ],
{
    let if_idx = get_interface_index(interface, iface_output);
    let mut args: Vec<String> = Vec::new();
    push_arg(&mut args, "interface");
    push_arg(&mut args, "ipv4");
    push_arg(&mut args, "add");
    push_arg(&mut args, "route");
    push_arg(&mut args, "0.0.0.0/0");
    push_owned_arg(&mut args, if_idx);
    push_owned_arg(&mut args, ipv4_text(gateway));
    push_arg(&mut args, "store=active");
    assert(strs(args@) =~= seq![
        "interface"@,
        "ipv4"@,
        "add"@,
        "route"@,
        "0.0.0.0/0"@,
        interface_entry(iface_output@, interface@)[0],
        dotted(gateway@),
        "store=active"@,
    ]);
    args
}

/// The `netsh` arguments that add a default IPv6 route through a gateway,
/// given as text, on an interface, named by its index.
pub fn add_default_ipv6_route(gateway: &str, interface: &str, iface_output: &str) -> (r: Vec<
    String,
>)
    requires
        has_interface(iface_output@, interface@),
    ensures
        strs(r@) == seq![
            "interface"@,
            "ipv6"@,
            "add"@,
            "route"@,
            "::/0"@,
            interface_entry(iface_output@, interface@)[0],
            gateway@,
            "store=active"@,
        ],
{
    let if_idx = get_interface_index(interface, iface_output);
    let mut args: Vec<String> = Vec::new();
    push_arg(&mut args, "interface");
    push_arg(&mut args, "ipv6");
    push_arg(&mut args, "add");
    push_arg(&mut args, "route");
    push_arg(&mut args, "::/0");
    push_owned_arg(&mut args, if_idx);
    push_arg(&mut args, gateway);
    push_arg(&mut args, "store=active");
    assert(strs(args@) =~= seq![
        "interface"@,
        "ipv6"@,
        "add"@,
        "route"@,
        "::/0"@,
        interface_entry(iface_output@, interface@)[0],
        gateway@,
        "store=active"@,
    ]);
    args
}

/// The `netsh` arguments that delete a default IPv6 route on an interface,
/// `prefix` being the route prefix written.
fn delete_default_route(prefix: &str, scope: &str, iface_output: &str) -> (r: Vec<
    String,
>)
    requires
        has_interface(iface_output@, scope@),
    ensures
        strs(r@) == seq![
            "interface"@,
            "ipv6"@,
            "delete"@,
            "route"@,
            prefix@,
            "if"@,
            interface_entry(iface_output@, scope@)[0],
            "store=active"@,
        ],
{
    let if_idx = get_interface_index(scope, iface_output);
    let mut args: Vec<String> = Vec::new();
    push_arg(&mut args, "interface");
    push_arg(&mut args, "ipv6");
    push_arg(&mut args, "delete");
    push_arg(&mut args, "route");
    push_arg(&mut args, prefix);
    push_arg(&mut args, "if");
    push_owned_arg(&mut args, if_idx);
    push_arg(&mut args, "store=active");
    assert(strs(args@) =~= seq![
        "interface"@,
        "ipv6"@,
        "delete"@,
        "route"@,
        prefix@,
        "if"@,
        interface_entry(iface_output@, scope@)[0],
        "store=active"@,
    ]);
    args
}

/// The `netsh` arguments that delete the default IPv4 route of an interface,
/// or `None` (nothing to run) when no interface is given:
/// `interface ipv4 delete route 0.0.0.0/0 if=<index> store=active`.
pub fn delete_default_ipv4_route(ifscope: Option<String>, iface_output: &str) -> (r: Option<
    Vec<String>,
>)
    requires
        ifscope matches Some(s) ==> has_interface(iface_output@, s@),
    ensures
        match ifscope {
            None => r is None,
            Some(s) => r matches Some(args) && strs(args@) == seq![
                "interface"@,
                "ipv4"@,
                "delete"@,
                "route"@,
                "0.0.0.0/0"@,
                "if="@ + interface_entry(iface_output@, s@)[0],
                "store=active"@,
            ],
        },
{
    match ifscope {
        Some(scope) => {
            let if_idx = get_interface_index(scope.as_str(), iface_output);
            let mut args: Vec<String> = Vec::new();
            push_arg(&mut args, "interface");
            push_arg(&mut args, "ipv4");
            push_arg(&mut args, "delete");
            push_arg(&mut args, "route");
            push_arg(&mut args, "0.0.0.0/0");
            let mut a = String::from_str("if=");
            a.append(if_idx.as_str());
            push_owned_arg(&mut args, a);
            push_arg(&mut args, "store=active");
            assert(strs(args@) =~= seq![
                "interface"@,
                "ipv4"@,
                "delete"@,
                "route"@,
                "0.0.0.0/0"@,
                "if="@ + interface_entry(iface_output@, scope@)[0],
                "store=active"@,
            ]);
            Some(args)
        },
        None => None,
    }
}

/// The `netsh` arguments that delete the default IPv6 route of an interface,
/// or `None` (nothing to run) when no interface is given. The route prefix
/// written is `0.0.0.0/0`.
pub fn delete_default_ipv6_route(ifscope: Option<String>, iface_output: &str) -> (r: Option<
    Vec<String>,
>)
    requires
        ifscope matches Some(s) ==> has_interface(iface_output@, s@),
    ensures
        match ifscope {
            None => r is None,
            Some(s) => r matches Some(args) && strs(args@) == seq![
                "interface"@,
                "ipv6"@,
                "delete"@,
                "route"@,
                "0.0.0.0/0"@,
                "if"@,
                interface_entry(iface_output@, s@)[0],
                "store=active"@,
            ],
        },
{
    match ifscope {
        Some(scope) => Some(delete_default_route("0.0.0.0/0", scope.as_str(), iface_output)),
        None => None,
    }
}

} // verus!
