//! The text format of the two task lists: one task per line, `TODO: `
//! before a pending title and `DONE: ` before a completed one.
use vstd::prelude::*;
use crate::nav::Status;
use vstd::std_specs::iter::IteratorSpec;

verus! {

/// The index of the first newline in `t`, or its length if it has none.
pub open spec fn first_newline(t: Seq<char>) -> nat
    decreases t.len(),
{
    if t.len() == 0 {
        0
    } else if t[0] == '\n' {
        0
    } else {
        1 + first_newline(t.drop_first())
    }
}

/// A line without its ending: a carriage return before the newline goes too.
pub open spec fn strip_cr(l: Seq<char>) -> Seq<char> {
    if l.len() > 0 && l.last() == '\r' {
        l.drop_last()
    } else {
        l
    }
}

/// The lines of a text: split at each newline (or carriage return and
/// newline); a final line ending is optional.
pub open spec fn lines_of(t: Seq<char>) -> Seq<Seq<char>>
    decreases t.len(),
{
    if t.len() == 0 {
        Seq::empty()
    } else {
        let k = first_newline(t);
        if k < t.len() {
            seq![strip_cr(t.take(k as int))] + lines_of(t.skip(k + 1 as int))
        } else {
            seq![t]
        }
    }
}

proof fn lemma_first_newline_at(t: Seq<char>, k: int)
    requires
        0 <= k <= t.len(),
        k < t.len() ==> t[k] == '\n',
        forall|j: int| 0 <= j < k ==> t[j] != '\n',
    ensures
        first_newline(t) == k,
    decreases t.len(),
{
    if t.len() > 0 && k > 0 {
        lemma_first_newline_at(t.drop_first(), k - 1);
    }
}

/// Relies on String::push: the character goes at the end.
#[verifier::external_body]
fn push_char(s: &mut String, c: char)
    ensures
        final(s)@ == old(s)@.push(c),
{
    s.push(c);
}

/// The characters of a text, in order.
fn chars_of(text: &str) -> (r: Vec<char>)
    ensures
        r@ == text@,
{
    let n = text.unicode_len();
    let mut it = text.chars();
    let mut out: Vec<char> = Vec::new();
    let mut i: usize = 0;
    while i < n
        invariant
            n == text@.len(),
            i <= n,
            out@ == text@.take(i as int),
            it.remaining() == text@.skip(i as int),
            it.obeys_prophetic_iter_laws(),
        decreases n - i,
    {
        if let Some(c) = it.next() {
            out.push(c);
        }
        i = i + 1;
        assert(out@ =~= text@.take(i as int));
    }
    assert(out@ =~= text@);
    out
}

/// What a sequence of strings holds, as character sequences.
pub open spec fn views(v: Seq<String>) -> Seq<Seq<char>> {
    v.map_values(|s: String| s@)
}

/// The characters `cs[from..to]` as a string.
fn string_of(cs: &Vec<char>, from: usize, to: usize) -> (r: String)
    requires
        from <= to <= cs@.len(),
    ensures
        r@ == cs@.subrange(from as int, to as int),
{
    let mut r = String::new();
    let mut i: usize = from;
    while i < to
        invariant
            from <= i <= to <= cs@.len(),
            r@ == cs@.subrange(from as int, i as int),
        decreases to - i,
    {
        push_char(&mut r, cs[i]);
        i = i + 1;
        assert(r@ =~= cs@.subrange(from as int, i as int));
    }
    r
}

/// Splits a text into its lines: at each newline, with a carriage return
/// right before it dropped too; a last line without a newline counts.
pub fn split_lines(text: &str) -> (r: Vec<String>)
    ensures
        views(r@) == lines_of(text@),
{
    let cs = chars_of(text);
    let n = cs.len();
    let mut out: Vec<String> = Vec::new();
    let mut start: usize = 0;
    let mut i: usize = 0;
    proof {
        assert(text@.skip(0) =~= text@);
        assert(views(out@) + lines_of(text@) =~= lines_of(text@));
    }
    while i < n
        invariant
            cs@ == text@,
            n == cs@.len(),
            start <= i <= n,
            forall|j: int| start <= j < i ==> cs@[j] != '\n',
            lines_of(text@) == views(out@) + lines_of(text@.skip(start as int)),
        decreases n - i,
    {
        if cs[i] == '\n' {
            let end = if i > start && cs[i - 1] == '\r' {
                i - 1
            } else {
                i
            };
            let line = string_of(&cs, start, end);
            proof {
                let t = text@.skip(start as int);
                let k = i - start;
                lemma_first_newline_at(t, k);
                assert(t.skip(k + 1) =~= text@.skip(i + 1));
                assert(strip_cr(t.take(k)) =~= cs@.subrange(start as int, end as int));
                assert(lines_of(t) == seq![strip_cr(t.take(k))] + lines_of(t.skip(k + 1)));
            }
            let ghost before = out@;
            out.push(line);
            proof {
                assert(views(out@) =~= views(before) + seq![line@]);
                assert(lines_of(text@) =~= views(out@) + lines_of(text@.skip(i + 1)));
            }
            start = i + 1;
        }
        i = i + 1;
    }
    if start < n {
        let line = string_of(&cs, start, n);
        proof {
            let t = text@.skip(start as int);
            lemma_first_newline_at(t, t.len() as int);
            assert(t =~= line@);
        }
        let ghost before = out@;
        out.push(line);
        proof {
            assert(views(out@) =~= views(before) + seq![line@]);
            assert(lines_of(text@) =~= views(out@));
        }
    } else {
        proof {
            assert(text@.skip(start as int) =~= Seq::<char>::empty());
            assert(lines_of(text@) =~= views(out@));
        }
    }
    out
}

/// The tag of a pending task's line.
pub open spec fn todo_tag() -> Seq<char> {
    seq!['T', 'O', 'D', 'O', ':', ' ']
}

/// The tag of a completed task's line.
pub open spec fn done_tag() -> Seq<char> {
    seq!['D', 'O', 'N', 'E', ':', ' ']
}

/// Whether `l` begins with `tag`.
pub open spec fn has_tag(l: Seq<char>, tag: Seq<char>) -> bool {
    tag.len() <= l.len() && l.take(tag.len() as int) == tag
}

/// What one line of the file says: a status and a title, or nothing.
pub open spec fn parse_line(l: Seq<char>) -> Option<(Status, Seq<char>)> {
    if has_tag(l, todo_tag()) {
        Some((Status::Todo, l.skip(todo_tag().len() as int)))
    } else if has_tag(l, done_tag()) {
        Some((Status::Done, l.skip(done_tag().len() as int)))
    } else {
        None
    }
}

/// The pending and the completed titles that the lines `ls` give, each in
/// the order of the lines; other lines give nothing.
pub open spec fn decode_lines(ls: Seq<Seq<char>>) -> (Seq<Seq<char>>, Seq<Seq<char>>)
    decreases ls.len(),
{
    if ls.len() == 0 {
        (Seq::empty(), Seq::empty())
    } else {
        let (t, d) = decode_lines(ls.drop_last());
        match parse_line(ls.last()) {
            Some((Status::Todo, x)) => (t.push(x), d),
            Some((Status::Done, x)) => (t, d.push(x)),
            None => (t, d),
        }
    }
}

/// The pending and the completed titles that a file's text gives.
pub open spec fn decode_text(text: Seq<char>) -> (Seq<Seq<char>>, Seq<Seq<char>>) {
    decode_lines(lines_of(text))
}

/// One line `tag + title + newline` for each title, in order.
pub open spec fn tagged(tag: Seq<char>, items: Seq<Seq<char>>) -> Seq<char>
    decreases items.len(),
{
    if items.len() == 0 {
        Seq::empty()
    } else {
        tagged(tag, items.drop_last()) + tag + items.last() + seq!['\n']
    }
}

/// The file's text for the two lists: all pending tasks first, then all
/// completed ones.
pub open spec fn encode_text(todos: Seq<Seq<char>>, dones: Seq<Seq<char>>) -> Seq<char> {
    tagged(todo_tag(), todos) + tagged(done_tag(), dones)
}

/// Whether `line` begins with `tag`.
fn starts_with(line: &str, tag: &str) -> (r: bool)
    ensures
        r == has_tag(line@, tag@),
{
    let n = line.unicode_len();
    let m = tag.unicode_len();
    if m > n {
        return false;
    }
    let mut i: usize = 0;
    while i < m
        invariant
            m == tag@.len(),
            n == line@.len(),
            m <= n,
            i <= m,
            line@.take(i as int) == tag@.take(i as int),
        decreases m - i,
    {
        if line.get_char(i) != tag.get_char(i) {
            assert(line@.take(m as int)[i as int] != tag@[i as int]);
            return false;
        }
        i = i + 1;
        assert(line@.take(i as int) =~= tag@.take(i as int));
    }
    assert(tag@.take(m as int) =~= tag@);
    true
}

/// Reads one line of the file: `TODO: ` before a pending title, `DONE: `
/// before a completed one; any other line holds no task.
pub fn parse_item(line: &str) -> (r: Option<(Status, &str)>)
    ensures
        r matches Some((st, x)) ==> parse_line(line@) == Some((st, x@)),
        r is None ==> parse_line(line@) is None,
{
    let todo_pre = "TODO: ";
    let done_pre = "DONE: ";
    proof {
        reveal_strlit("TODO: ");
        reveal_strlit("DONE: ");
        assert(todo_pre@ =~= todo_tag());
        assert(done_pre@ =~= done_tag());
    }
    let n = line.unicode_len();
    if starts_with(line, todo_pre) {
        let rest = line.substring_char(6, n);
        assert(rest@ =~= line@.skip(6));
        return Some((Status::Todo, rest));
    }
    if starts_with(line, done_pre) {
        let rest = line.substring_char(6, n);
        assert(rest@ =~= line@.skip(6));
        return Some((Status::Done, rest));
    }
    None
}

/// Reads a file's text into its pending and its completed titles.
pub fn decode(text: &str) -> (r: (Vec<String>, Vec<String>))
    ensures
        (views(r.0@), views(r.1@)) == decode_text(text@),
{
    let lines = split_lines(text);
    let mut todos: Vec<String> = Vec::new();
    let mut dones: Vec<String> = Vec::new();
    let mut i: usize = 0;
    while i < lines.len()
        invariant
            i <= lines@.len(),
            views(lines@) == lines_of(text@),
            (views(todos@), views(dones@)) == decode_lines(lines_of(text@).take(i as int)),
        decreases lines@.len() - i,
    {
        let ghost ls = lines_of(text@).take(i as int + 1);
        proof {
            assert(ls.drop_last() =~= lines_of(text@).take(i as int));
            assert(ls.last() == lines@[i as int]@);
        }
        let ghost t0 = todos@;
        let ghost d0 = dones@;
        match parse_item(lines[i].as_str()) {
            Some((Status::Todo, title)) => {
                todos.push(title.to_owned());
                assert(views(todos@) =~= views(t0).push(title@));
            },
            Some((Status::Done, title)) => {
                dones.push(title.to_owned());
                assert(views(dones@) =~= views(d0).push(title@));
            },
            None => {},
        }
        i = i + 1;
    }
    assert(lines_of(text@).take(i as int) =~= lines_of(text@));
    (todos, dones)
}

/// Appends a line `tag + title + newline` for each title to `out`.
fn write_tagged(out: &mut String, tag: &str, items: &Vec<String>)
    ensures
        final(out)@ == old(out)@ + tagged(tag@, views(items@)),
{
    let ghost start = out@;
    let mut i: usize = 0;
    proof {
        assert(views(items@).take(0) =~= Seq::<Seq<char>>::empty());
        assert(start =~= start + tagged(tag@, Seq::empty()));
    }
    while i < items.len()
        invariant
            i <= items@.len(),
            out@ == start + tagged(tag@, views(items@).take(i as int)),
        decreases items@.len() - i,
    {
        let ghost before = out@;
        out.append(tag);
        out.append(items[i].as_str());
        out.append("\n");
        proof {
            reveal_strlit("\n");
            let ts = views(items@).take(i as int + 1);
            assert(ts.drop_last() =~= views(items@).take(i as int));
            assert(ts.last() == items@[i as int]@);
            assert(out@ =~= start + tagged(tag@, ts));
        }
        i = i + 1;
    }
    assert(views(items@).take(i as int) =~= views(items@));
}

/// The file's text for the two lists: a `TODO: ` line for each pending
/// title, then a `DONE: ` line for each completed one, each in list order.
pub fn encode(todos: &Vec<String>, dones: &Vec<String>) -> (r: String)
    ensures
        r@ == encode_text(views(todos@), views(dones@)),
{
    let todo_pre = "TODO: ";
    let done_pre = "DONE: ";
    proof {
        reveal_strlit("TODO: ");
        reveal_strlit("DONE: ");
        assert(todo_pre@ =~= todo_tag());
        assert(done_pre@ =~= done_tag());
    }
    let mut out = String::new();
    write_tagged(&mut out, todo_pre, todos);
    write_tagged(&mut out, done_pre, dones);
    assert(out@ =~= encode_text(views(todos@), views(dones@)));
    out
}

/// A title that a line can carry unchanged: no newline in it, and no
/// carriage return at its end.
pub open spec fn line_safe(x: Seq<char>) -> bool {
    &&& forall|j: int| 0 <= j < x.len() ==> x[j] != '\n'
    &&& !(x.len() > 0 && x.last() == '\r')
}

/// The lines `tag + title`, one for each title.
pub open spec fn tag_lines(tag: Seq<char>, items: Seq<Seq<char>>) -> Seq<Seq<char>> {
    items.map_values(|x: Seq<char>| tag + x)
}

proof fn lemma_lines_of_one_line(tag: Seq<char>, x: Seq<char>, rest: Seq<char>)
    requires
        tag.len() > 0,
        tag.last() != '\r',
        line_safe(tag),
        line_safe(x),
    ensures
        lines_of(tag + x + seq!['\n'] + rest) == seq![tag + x] + lines_of(rest),
{
    let l = tag + x;
    let s = l + seq!['\n'] + rest;
    let k = l.len() as int;
    assert forall|j: int| 0 <= j < k implies s[j] != '\n' by {
        if j < tag.len() {
            assert(s[j] == tag[j]);
        } else {
            assert(s[j] == x[j - tag.len()]);
        }
    }
    lemma_first_newline_at(s, k);
    assert(s.take(k) =~= l);
    assert(s.skip(k + 1) =~= rest);
    assert(l.last() != '\r');
}

proof fn lemma_lines_of_tagged(tag: Seq<char>, items: Seq<Seq<char>>, rest: Seq<char>)
    requires
        tag.len() > 0,
        tag.last() != '\r',
        line_safe(tag),
        forall|i: int| 0 <= i < items.len() ==> line_safe(#[trigger] items[i]),
    ensures
        lines_of(tagged(tag, items) + rest) == tag_lines(tag, items) + lines_of(rest),
    decreases items.len(),
{
    if items.len() == 0 {
        assert(tagged(tag, items) + rest =~= rest);
        assert(tag_lines(tag, items) + lines_of(rest) =~= lines_of(rest));
    } else {
        let init = items.drop_last();
        let x = items.last();
        let r2 = tag + x + seq!['\n'] + rest;
        assert(tagged(tag, items) + rest =~= tagged(tag, init) + r2);
        lemma_lines_of_tagged(tag, init, r2);
        lemma_lines_of_one_line(tag, x, rest);
        assert(tag_lines(tag, items) =~= tag_lines(tag, init) + seq![tag + x]);
        assert(tag_lines(tag, items) + lines_of(rest) =~= tag_lines(tag, init) + (seq![tag + x]
            + lines_of(rest)));
    }
}

proof fn lemma_decode_lines_concat(a: Seq<Seq<char>>, b: Seq<Seq<char>>)
    ensures
        decode_lines(a + b).0 == decode_lines(a).0 + decode_lines(b).0,
        decode_lines(a + b).1 == decode_lines(a).1 + decode_lines(b).1,
    decreases b.len(),
{
    if b.len() == 0 {
        assert(a + b =~= a);
        assert(decode_lines(a).0 + decode_lines(b).0 =~= decode_lines(a).0);
        assert(decode_lines(a).1 + decode_lines(b).1 =~= decode_lines(a).1);
    } else {
        lemma_decode_lines_concat(a, b.drop_last());
        assert((a + b).drop_last() =~= a + b.drop_last());
        assert((a + b).last() == b.last());
        let (ta, da) = decode_lines(a);
        let (tb, db) = decode_lines(b.drop_last());
        assert((ta + tb).push(b.last().skip(6)) =~= ta + tb.push(b.last().skip(6)));
        assert((da + db).push(b.last().skip(6)) =~= da + db.push(b.last().skip(6)));
    }
}

proof fn lemma_decode_tag_lines(items: Seq<Seq<char>>)
    ensures
        decode_lines(tag_lines(todo_tag(), items)) == (items, Seq::<Seq<char>>::empty()),
        decode_lines(tag_lines(done_tag(), items)) == (Seq::<Seq<char>>::empty(), items),
    decreases items.len(),
{
    if items.len() > 0 {
        let init = items.drop_last();
        let x = items.last();
        lemma_decode_tag_lines(init);
        assert(tag_lines(todo_tag(), items).drop_last() =~= tag_lines(todo_tag(), init));
        assert(tag_lines(done_tag(), items).drop_last() =~= tag_lines(done_tag(), init));
        assert((todo_tag() + x).take(6) =~= todo_tag());
        assert((todo_tag() + x).skip(6) =~= x);
        assert((done_tag() + x).take(6) =~= done_tag());
        assert((done_tag() + x).take(6) != todo_tag()) by {
            assert((done_tag() + x).take(6)[0] != todo_tag()[0]);
        }
        assert((done_tag() + x).skip(6) =~= x);
        assert(init.push(x) =~= items);
    } else {
        assert(tag_lines(todo_tag(), items) =~= Seq::<Seq<char>>::empty());
        assert(tag_lines(done_tag(), items) =~= Seq::<Seq<char>>::empty());
        assert(items =~= Seq::<Seq<char>>::empty());
    }
}

/// Writing two lists of titles that lines can carry and reading the text
/// back gives the same two lists; so a file of such `TODO: ` lines followed
/// by such `DONE: ` lines, each ended by a newline, is written back byte for
/// byte after it is read.
pub proof fn lemma_decode_encode_round_trip(todos: Seq<Seq<char>>, dones: Seq<Seq<char>>)
    requires
        forall|i: int| 0 <= i < todos.len() ==> line_safe(#[trigger] todos[i]),
        forall|i: int| 0 <= i < dones.len() ==> line_safe(#[trigger] dones[i]),
    ensures
        decode_text(encode_text(todos, dones)) == (todos, dones),
        encode_text(decode_text(encode_text(todos, dones)).0, decode_text(encode_text(todos, dones)).1)
            == encode_text(todos, dones),
{
    let tt = todo_tag();
    let dt = done_tag();
    assert(line_safe(tt));
    assert(line_safe(dt));
    lemma_lines_of_tagged(tt, todos, tagged(dt, dones));
    lemma_lines_of_tagged(dt, dones, Seq::empty());
    assert(tagged(dt, dones) + Seq::<char>::empty() =~= tagged(dt, dones));
    assert(lines_of(Seq::<char>::empty()) =~= Seq::<Seq<char>>::empty());
    let a = tag_lines(tt, todos);
    let b = tag_lines(dt, dones);
    assert(lines_of(encode_text(todos, dones)) =~= a + b);
    lemma_decode_lines_concat(a, b);
    lemma_decode_tag_lines(todos);
    lemma_decode_tag_lines(dones);
    assert(todos + Seq::<Seq<char>>::empty() =~= todos);
    assert(Seq::<Seq<char>>::empty() + dones =~= dones);
}

/// A line that carries neither tag adds no task to either list.
pub proof fn lemma_untagged_line_ignored(ls: Seq<Seq<char>>, l: Seq<char>)
    requires
        !has_tag(l, todo_tag()),
        !has_tag(l, done_tag()),
    ensures
        decode_lines(ls.push(l)) == decode_lines(ls),
{
    assert(ls.push(l).drop_last() =~= ls);
}

} // verus!
