//! The list file: one entry per line, each line ended by `'\n'`; a `'\r'`
//! just before the `'\n'` belongs to the line end.
use vstd::prelude::*;

verus! {

/// The character that ends each line of the list file.
pub open spec fn is_line_end(c: char) -> bool {
    c == '\n'
}

/// The character that, just before a line end, belongs to it.
pub open spec fn is_return(c: char) -> bool {
    c == '\r'
}

/// A text that can stand as one entry of the list and be read back as it is:
/// non-empty, on one line, and not ending in a carriage return.
pub open spec fn is_entry(e: Seq<char>) -> bool {
    &&& e.len() > 0
    &&& forall|k: int| 0 <= k < e.len() ==> !is_line_end(#[trigger] e[k])
    &&& !is_return(e.last())
}

/// A line's text without the carriage return that ends it, if any.
pub open spec fn strip_return(l: Seq<char>) -> Seq<char> {
    if l.len() > 0 && is_return(l.last()) {
        l.drop_last()
    } else {
        l
    }
}

/// Every element of the sequence can stand as an entry.
pub open spec fn all_entries(es: Seq<Seq<char>>) -> bool {
    forall|k: int| 0 <= k < es.len() ==> is_entry(#[trigger] es[k])
}

/// The texts held by a vector of strings.
pub open spec fn texts(v: Seq<String>) -> Seq<Seq<char>> {
    v.map_values(|s: String| s@)
}

/// The file that holds the given entries: each one followed by a line end.
pub open spec fn file_of(entries: Seq<Seq<char>>) -> Seq<char>
    decreases entries.len(),
{
    if entries.len() == 0 {
        Seq::empty()
    } else {
        file_of(entries.drop_last()) + entries.last() + seq!['\n']
    }
}

/// Reading a text from the left: the non-empty lines completed so far (each
/// without a carriage return before its line end), and the characters of the
/// line not yet ended.
pub open spec fn scan(c: Seq<char>) -> (Seq<Seq<char>>, Seq<char>)
    decreases c.len(),
{
    if c.len() == 0 {
        (Seq::empty(), Seq::empty())
    } else {
        let (done, cur) = scan(c.drop_last());
        if is_line_end(c.last()) {
            let line = strip_return(cur);
            (if line.len() > 0 { done.push(line) } else { done }, Seq::empty())
        } else {
            (done, cur.push(c.last()))
        }
    }
}

/// The entries that a text holds: its non-empty lines, in order, where a line
/// ends at `"\n"` or `"\r\n"`; a last line without a line end counts too, as
/// it stands.
pub open spec fn lines_of(c: Seq<char>) -> Seq<Seq<char>> {
    let (done, cur) = scan(c);
    if cur.len() > 0 {
        done.push(cur)
    } else {
        done
    }
}

/// The text that appending one entry adds to the file: the entry and a line end.
pub fn entry_line(entry: &str) -> (r: String)
    ensures
        r@ == entry@ + seq!['\n'],
{
    let mut r = String::from_str(entry);
    proof {
        reveal_strlit("\n");
    }
    r.append("\n");
    r
}

/// The whole text of a list file that holds `dirs`.
pub fn list_file_content(dirs: &Vec<String>) -> (r: String)
    ensures
        r@ == file_of(texts(dirs@)),
{
    let mut r = String::new();
    let mut i: usize = 0;
    while i < dirs.len()
        invariant
            i <= dirs.len(),
            r@ == file_of(texts(dirs@).take(i as int)),
        decreases dirs.len() - i,
    {
        let ghost before = r@;
        r.append(dirs[i].as_str());
        proof {
            reveal_strlit("\n");
            assert("\n"@ =~= seq!['\n']);
        }
        r.append("\n");
        proof {
            let t = texts(dirs@);
            assert(t.take(i + 1).drop_last() =~= t.take(i as int));
            assert(t.take(i + 1).last() == dirs@[i as int]@);
            assert(r@ =~= before + dirs@[i as int]@ + seq!['\n']);
        }
        i = i + 1;
    }
    assert(texts(dirs@).take(dirs.len() as int) =~= texts(dirs@));
    r
}

/// Whether a text can stand as one entry of the list: non-empty, without a
/// line end, and not ending in a carriage return.
pub fn is_entry_text(s: &str) -> (r: bool)
    ensures
        r == is_entry(s@),
{
    let n = s.unicode_len();
    if n == 0 {
        return false;
    }
    if s.get_char(n - 1) == '\r' {
        return false;
    }
    let mut i: usize = 0;
    while i < n
        invariant
            n == s@.len(),
            i <= n,
            forall|k: int| 0 <= k < i ==> !is_line_end(#[trigger] s@[k]),
        decreases n - i,
    {
        if s.get_char(i) == '\n' {
            return false;
        }
        i = i + 1;
    }
    true
}

/// Reads the entries of a list file's text, in file order.
pub fn parse_list(content: &str) -> (r: Vec<String>)
    ensures
        texts(r@) == lines_of(content@),
{
    let n = content.unicode_len();
    let mut r: Vec<String> = Vec::new();
    let mut start: usize = 0;
    let mut i: usize = 0;
    while i < n
        invariant
            n == content@.len(),
            start <= i <= n,
            scan(content@.take(i as int)) == (texts(r@), content@.subrange(start as int, i as int)),
        decreases n - i,
    {
        let c = content.get_char(i);
        proof {
            assert(content@.take(i + 1).drop_last() =~= content@.take(i as int));
        }
        if c == '\n' {
            let mut end = i;
            if start < i && content.get_char(i - 1) == '\r' {
                end = i - 1;
            }
            assert(content@.subrange(start as int, end as int) =~= strip_return(
                content@.subrange(start as int, i as int),
            ));
            if start < end {
                let line = String::from_str(content.substring_char(start, end));
                let ghost before = r@;
                r.push(line);
                assert(texts(r@) =~= texts(before).push(line@));
            }
            start = i + 1;
        } else {
            assert(content@.subrange(start as int, i + 1) =~= content@.subrange(start as int, i as int).push(c));
        }
        i = i + 1;
    }
    if start < n {
        let line = String::from_str(content.substring_char(start, n));
        let ghost before = r@;
        r.push(line);
        assert(texts(r@) =~= texts(before).push(line@));
    }
    assert(content@.take(n as int) =~= content@);
    r
}

} // verus!

verus! {

/// Removes the entry at `index` and gives the text that the list file must be
/// rewritten with; the other entries keep their relative order.
pub fn remove_dir(index: usize, dirs: &mut Vec<String>) -> (content: String)
    requires
        index < old(dirs).len(),
    ensures
        final(dirs)@ == old(dirs)@.remove(index as int),
        final(dirs).len() == old(dirs).len() - 1,
        forall|j: int| 0 <= j < index ==> #[trigger] final(dirs)@[j] == old(dirs)@[j],
        forall|j: int| index <= j < final(dirs).len() ==> #[trigger] final(dirs)@[j] == old(dirs)@[j + 1],
        content@ == file_of(texts(final(dirs)@)),
{
    dirs.remove(index);
    list_file_content(dirs)
}

/// Reading a text made of `p` and then a run of characters without a line end
/// keeps the lines of `p` and holds the run as the unfinished line.
proof fn lemma_scan_run(p: Seq<char>, w: Seq<char>)
    requires
        scan(p).1.len() == 0,
        forall|k: int| 0 <= k < w.len() ==> !is_line_end(#[trigger] w[k]),
    ensures
        scan(p + w) == (scan(p).0, w),
    decreases w.len(),
{
    if w.len() == 0 {
        assert(p + w =~= p);
    } else {
        let w0 = w.drop_last();
        lemma_scan_run(p, w0);
        assert((p + w).drop_last() =~= p + w0);
        assert(w0.push(w.last()) =~= w);
    }
}

/// Reading back the file of well-formed entries yields exactly those entries.
proof fn lemma_scan_file(entries: Seq<Seq<char>>)
    requires
        all_entries(entries),
    ensures
        scan(file_of(entries)) == (entries, Seq::<char>::empty()),
    decreases entries.len(),
{
    if entries.len() > 0 {
        let rest = entries.drop_last();
        let e = entries.last();
        assert(all_entries(rest));
        assert(is_entry(entries[entries.len() - 1]));
        lemma_scan_file(rest);
        lemma_scan_run(file_of(rest), e);
        let f = file_of(entries);
        assert(f.drop_last() =~= file_of(rest) + e);
        assert(rest.push(e) =~= entries);
    }
}

/// Appending entries one by one and then loading the file gives back the
/// appended entries in the order they were appended: each append adds the
/// entry's line at the end of the file, and loading a file built that way
/// reconstructs the whole sequence.
pub proof fn lemma_load_after_appends(entries: Seq<Seq<char>>, e: Seq<char>)
    requires
        all_entries(entries),
        is_entry(e),
    ensures
        file_of(entries) + (e + seq!['\n']) == file_of(entries.push(e)),
        lines_of(file_of(entries)) == entries,
        lines_of(file_of(entries.push(e))) == entries.push(e),
{
    assert(entries.push(e).drop_last() =~= entries);
    assert(file_of(entries) + (e + seq!['\n']) =~= file_of(entries) + e + seq!['\n']);
    lemma_scan_file(entries);
    assert(all_entries(entries.push(e)));
    lemma_scan_file(entries.push(e));
}

/// Removing the only entry of a list leaves an empty list, whose file is
/// empty and loads as an empty list.
pub proof fn lemma_remove_only_entry(dirs: Seq<Seq<char>>)
    requires
        dirs.len() == 1,
    ensures
        dirs.remove(0).len() == 0,
        file_of(dirs.remove(0)).len() == 0,
        lines_of(file_of(dirs.remove(0))).len() == 0,
{
    assert(dirs.remove(0) =~= Seq::<Seq<char>>::empty());
    assert(file_of(Seq::<Seq<char>>::empty()) =~= Seq::<char>::empty());
}

} // verus!
