use vstd::prelude::*;

verus! {

/// Whether two strings hold the same characters.
pub fn same_text(a: &str, b: &str) -> (r: bool)
    ensures
        r == (a@ == b@),
{
    let n = a.unicode_len();
    if n != b.unicode_len() {
        return false;
    }
    let mut i: usize = 0;
    while i < n
        invariant
            n == a@.len(),
            n == b@.len(),
            i <= n,
            a@.take(i as int) == b@.take(i as int),
        decreases n - i,
    {
        if a.get_char(i) != b.get_char(i) {
            return false;
        }
        assert(a@.take(i + 1) == a@.take(i as int).push(a@[i as int]));
        assert(b@.take(i + 1) == b@.take(i as int).push(b@[i as int]));
        i = i + 1;
    }
    assert(a@ == a@.take(n as int));
    assert(b@ == b@.take(n as int));
    true
}


/// The characters that carry Unicode's White_Space property.
pub open spec fn is_space(c: char) -> bool {
    let u = c as u32;
    (0x09 <= u && u <= 0x0d) || u == 0x20 || u == 0x85 || u == 0xa0 || u == 0x1680
        || (0x2000 <= u && u <= 0x200a) || u == 0x2028 || u == 0x2029 || u == 0x202f
        || u == 0x205f || u == 0x3000
}

/// Tests a character for Unicode's White_Space property, as `char::is_whitespace` does.
pub fn is_space_char(c: char) -> (r: bool)
    ensures
        r == is_space(c),
{
    let u = c as u32;
    (0x09 <= u && u <= 0x0d) || u == 0x20 || u == 0x85 || u == 0xa0 || u == 0x1680
        || (0x2000 <= u && u <= 0x200a) || u == 0x2028 || u == 0x2029 || u == 0x202f
        || u == 0x205f || u == 0x3000
}

/// The maximal runs of non-space characters of `s`, in order.
pub open spec fn words(s: Seq<char>) -> Seq<Seq<char>>
    decreases s.len(),
{
    if s.len() == 0 {
        seq![]
    } else {
        let w = words(s.drop_last());
        let c = s.last();
        if is_space(c) {
            w
        } else if s.len() >= 2 && !is_space(s[s.len() - 2]) {
            w.update(w.len() - 1, w.last().push(c))
        } else {
            w.push(seq![c])
        }
    }
}

/// The character content of each string of a sequence.
pub open spec fn texts(v: Seq<String>) -> Seq<Seq<char>> {
    v.map_values(|t: String| t@)
}

pub proof fn lemma_texts_push(v: Seq<String>, t: String)
    ensures
        texts(v.push(t)) == texts(v).push(t@),
{
    assert(texts(v.push(t)) =~= texts(v).push(t@));
}

/// Splits a line into its whitespace-separated words.
pub fn tokenize(line: &str) -> (r: Vec<String>)
    ensures
        texts(r@) == words(line@),
{
    let n = line.unicode_len();
    let mut out: Vec<String> = Vec::new();
    let mut start: usize = 0;
    let mut i: usize = 0;
    while i < n
        invariant
            n == line@.len(),
            start <= i <= n,
            start < i ==> !is_space(line@[i - 1]),
            start < i ==> (start == 0 || is_space(line@[start - 1])),
            start == i ==> (i == 0 || is_space(line@[i - 1])),
            start < i ==> words(line@.take(i as int)) == texts(out@).push(line@.subrange(start as int, i as int)),
            start == i ==> words(line@.take(i as int)) == texts(out@),
        decreases n - i,
    {
        let c = line.get_char(i);
        let ghost s = line@.take(i + 1);
        assert(s.drop_last() == line@.take(i as int));
        assert(s.last() == c);
        if is_space_char(c) {
            if start < i {
                let piece = line.substring_char(start, i);
                let t = piece.to_string();
                proof { lemma_texts_push(out@, t); }
                out.push(t);
            }
            i = i + 1;
            start = i;
        } else {
            if start < i {
                assert(line@.subrange(start as int, i + 1) == line@.subrange(start as int, i as int).push(c));
            } else {
                assert(line@.subrange(start as int, i + 1) == seq![c]);
            }
            i = i + 1;
        }
    }
    if start < n {
        let piece = line.substring_char(start, n);
        let t = piece.to_string();
        proof { lemma_texts_push(out@, t); }
        out.push(t);
    }
    assert(line@.take(n as int) == line@);
    out
}


/// The words of `w` joined by single spaces.
pub open spec fn join_spaces(w: Seq<Seq<char>>) -> Seq<char>
    decreases w.len(),
{
    if w.len() == 0 {
        seq![]
    } else if w.len() == 1 {
        w[0]
    } else {
        join_spaces(w.drop_last()) + seq![' '] + w.last()
    }
}

/// Joins strings with a single space between each two.
pub fn join_with_spaces(v: &Vec<String>) -> (r: String)
    ensures
        r@ == join_spaces(texts(v@)),
{
    let mut out = String::new();
    let mut i: usize = 0;
    while i < v.len()
        invariant
            i <= v@.len(),
            out@ == join_spaces(texts(v@).take(i as int)),
        decreases v@.len() - i,
    {
        proof {
            let t = texts(v@);
            assert(t.take(i + 1).drop_last() == t.take(i as int));
            reveal_strlit(" ");
        }
        if i > 0 {
            out.append(" ");
        }
        out.append(v[i].as_str());
        i = i + 1;
    }
    assert(texts(v@).take(v@.len() as int) == texts(v@));
    out
}

/// The pieces of `s` between the colons, in order: `str::split(':')` on `s`.
pub open spec fn split_colons(s: Seq<char>) -> Seq<Seq<char>>
    decreases s.len(),
{
    if s.len() == 0 {
        seq![seq![]]
    } else {
        let p = split_colons(s.drop_last());
        if s.last() == ':' {
            p.push(seq![])
        } else {
            p.update(p.len() - 1, p.last().push(s.last()))
        }
    }
}

proof fn lemma_split_colons_nonempty(s: Seq<char>)
    ensures
        split_colons(s).len() >= 1,
    decreases s.len(),
{
    if s.len() > 0 {
        lemma_split_colons_nonempty(s.drop_last());
    }
}

/// Splits a `PATH`-style list at each colon.
pub fn split_at_colons(s: &str) -> (r: Vec<String>)
    ensures
        texts(r@) == split_colons(s@),
{
    let n = s.unicode_len();
    let mut out: Vec<String> = Vec::new();
    let mut start: usize = 0;
    let mut i: usize = 0;
    assert(s@.take(0) == Seq::<char>::empty());
    assert(texts(out@) == Seq::<Seq<char>>::empty());
    assert(split_colons(s@.take(0)) == seq![Seq::<char>::empty()]);
    assert(s@.subrange(0, 0) == Seq::<char>::empty());
    while i < n
        invariant
            n == s@.len(),
            start <= i <= n,
            split_colons(s@.take(i as int)) == texts(out@).push(s@.subrange(start as int, i as int)),
        decreases n - i,
    {
        let c = s.get_char(i);
        proof {
            let q = s@.take(i + 1);
            assert(q.drop_last() == s@.take(i as int));
            assert(q.last() == c);
            lemma_split_colons_nonempty(s@.take(i as int));
        }
        if c == ':' {
            let piece = s.substring_char(start, i);
            let t = piece.to_string();
            proof { lemma_texts_push(out@, t); }
            out.push(t);
            i = i + 1;
            start = i;
            assert(s@.subrange(start as int, i as int) == Seq::<char>::empty());
        } else {
            assert(s@.subrange(start as int, i + 1) == s@.subrange(start as int, i as int).push(c));
            i = i + 1;
        }
    }
    let piece = s.substring_char(start, n);
    let t = piece.to_string();
    proof { lemma_texts_push(out@, t); }
    out.push(t);
    assert(s@.take(n as int) == s@);
    out
}

/// `dir` joined with `name` as `Path::join` does on Unix: an absolute `name`
/// replaces `dir`, and a `/` is put between them unless `dir` is empty or ends in one.
pub open spec fn join_path(dir: Seq<char>, name: Seq<char>) -> Seq<char> {
    if name.len() > 0 && name[0] == '/' {
        name
    } else if dir.len() == 0 || dir.last() == '/' {
        dir + name
    } else {
        dir + seq!['/'] + name
    }
}

/// Joins a directory and a name into a path.
pub fn join_dir(dir: &str, name: &str) -> (r: String)
    ensures
        r@ == join_path(dir@, name@),
{
    proof { reveal_strlit("/"); }
    let dn = dir.unicode_len();
    if name.unicode_len() > 0 && name.get_char(0) == '/' {
        return name.to_string();
    }
    let mut out = dir.to_string();
    if dn > 0 && dir.get_char(dn - 1) != '/' {
        out.append("/");
    }
    out.append(name);
    out
}

/// Whether `s` holds the character `c`.
pub fn has_char(s: &str, c: char) -> (r: bool)
    ensures
        r == s@.contains(c),
{
    let n = s.unicode_len();
    let mut i: usize = 0;
    while i < n
        invariant
            n == s@.len(),
            i <= n,
            forall|j: int| 0 <= j < i ==> s@[j] != c,
        decreases n - i,
    {
        if s.get_char(i) == c {
            return true;
        }
        i = i + 1;
    }
    false
}


/// A copy of the first `n` strings of `v`.
pub fn copy_prefix(v: &Vec<String>, n: usize) -> (r: Vec<String>)
    requires
        n <= v@.len(),
    ensures
        texts(r@) == texts(v@).take(n as int),
{
    let mut out: Vec<String> = Vec::new();
    let mut k: usize = 0;
    while k < n
        invariant
            n <= v@.len(),
            k <= n,
            texts(out@) == texts(v@).take(k as int),
        decreases n - k,
    {
        let t = v[k].clone();
        proof { lemma_texts_push(out@, t); }
        out.push(t);
        assert(texts(out@) =~= texts(v@).take(k + 1));
        k = k + 1;
    }
    out
}

} // verus!
