use vstd::prelude::*;

verus! {

/// The given sequence with every leading `/` removed.
pub open spec fn spec_trim_start_slash(s: Seq<char>) -> Seq<char>
    decreases s.len(),
{
    if s.len() > 0 && s[0] == '/' {
        spec_trim_start_slash(s.drop_first())
    } else {
        s
    }
}

/// The given sequence with every trailing `/` removed.
pub open spec fn spec_trim_end_slash(s: Seq<char>) -> Seq<char>
    decreases s.len(),
{
    if s.len() > 0 && s.last() == '/' {
        spec_trim_end_slash(s.drop_last())
    } else {
        s
    }
}

/// The part of `s` after the last occurrence of `c` (all of `s` when `c`
/// does not occur).
pub open spec fn after_last(s: Seq<char>, c: char) -> Seq<char>
    decreases s.len(),
{
    if s.len() == 0 {
        s
    } else if s.last() == c {
        Seq::empty()
    } else {
        after_last(s.drop_last(), c).push(s.last())
    }
}

/// The extension of a file name: the part after the last `.`, provided that
/// dot is not the file name's first character. A name with no dot, or whose
/// only dot leads it, has no extension.
pub open spec fn dot_split(f: Seq<char>) -> Option<Seq<char>>
    decreases f.len(),
{
    if f.len() <= 1 {
        None
    } else if f.last() == '.' {
        Some(Seq::empty())
    } else {
        match dot_split(f.drop_last()) {
            Some(e) => Some(e.push(f.last())),
            None => None,
        }
    }
}

/// The extension of the last component of a path.
pub open spec fn spec_extension_of(path: Seq<char>) -> Option<Seq<char>> {
    dot_split(after_last(path, '/'))
}

proof fn lemma_after_last_found(s: Seq<char>, c: char, k: int)
    requires
        0 <= k < s.len(),
        s[k] == c,
        forall|j: int| k < j < s.len() ==> s[j] != c,
    ensures
        after_last(s, c) == s.subrange(k + 1, s.len() as int),
    decreases s.len(),
{
    if k == s.len() - 1 {
        assert(after_last(s, c) =~= s.subrange(k + 1, s.len() as int));
    } else {
        let d = s.drop_last();
        assert(s.last() != c);
        lemma_after_last_found(d, c, k);
        assert(after_last(s, c) =~= s.subrange(k + 1, s.len() as int)) by {
            assert(d.subrange(k + 1, d.len() as int) =~= s.subrange(k + 1, s.len() - 1));
        }
    }
}

proof fn lemma_after_last_absent(s: Seq<char>, c: char)
    requires
        forall|j: int| 0 <= j < s.len() ==> s[j] != c,
    ensures
        after_last(s, c) == s,
    decreases s.len(),
{
    if s.len() > 0 {
        lemma_after_last_absent(s.drop_last(), c);
        assert(after_last(s, c) =~= s);
    }
}

proof fn lemma_dot_split_found(f: Seq<char>, k: int)
    requires
        1 <= k < f.len(),
        f[k] == '.',
        forall|j: int| k < j < f.len() ==> f[j] != '.',
    ensures
        dot_split(f) == Some(f.subrange(k + 1, f.len() as int)),
    decreases f.len(),
{
    if k == f.len() - 1 {
        assert(dot_split(f) =~= Some(f.subrange(k + 1, f.len() as int)));
        assert(Seq::<char>::empty() =~= f.subrange(k + 1, f.len() as int));
    } else {
        let d = f.drop_last();
        assert(f.last() != '.');
        lemma_dot_split_found(d, k);
        assert(d.subrange(k + 1, d.len() as int) =~= f.subrange(k + 1, f.len() - 1));
        assert(f.subrange(k + 1, f.len() - 1).push(f.last()) =~= f.subrange(
            k + 1,
            f.len() as int,
        ));
    }
}

proof fn lemma_dot_split_absent(f: Seq<char>)
    requires
        forall|j: int| 1 <= j < f.len() ==> f[j] != '.',
    ensures
        dot_split(f) is None,
    decreases f.len(),
{
    if f.len() > 1 {
        assert(f.last() != '.');
        lemma_dot_split_absent(f.drop_last());
    }
}

/// Whether a request path names the served root itself.
pub fn is_root_path(url: &str) -> (r: bool)
    ensures
        r <==> url@ == seq!['/'],
{
    let len = url.unicode_len();
    if len != 1 {
        proof {
            assert(url@ =~= seq!['/'] ==> url@.len() == 1);
        }
        false
    } else {
        let c = url.get_char(0);
        proof {
            assert(c == '/' ==> url@ =~= seq!['/']);
        }
        c == '/'
    }
}

/// Removes every leading `/` from a request path, so that joining it onto the
/// served root cannot name the filesystem root.
pub fn trim_start_slashes<'a>(s: &'a str) -> (r: &'a str)
    ensures
        r@ == spec_trim_start_slash(s@),
{
    let len = s.unicode_len();
    let mut i: usize = 0;
    proof {
        assert(s@.skip(0) =~= s@);
    }
    loop
        invariant
            i <= len,
            len == s@.len(),
            spec_trim_start_slash(s@) == spec_trim_start_slash(s@.skip(i as int)),
        ensures
            i <= len,
            spec_trim_start_slash(s@) == s@.skip(i as int),
        decreases len - i,
    {
        if i == len {
            assert(s@.skip(i as int).len() == 0);
            break;
        }
        if s.get_char(i) != '/' {
            assert(s@.skip(i as int)[0] == s@[i as int]);
            break;
        }
        assert(s@.skip(i as int)[0] == s@[i as int]);
        assert(s@.skip(i as int).drop_first() =~= s@.skip(i as int + 1));
        i = i + 1;
    }
    let r = s.substring_char(i, len);
    proof {
        assert(r@ =~= s@.skip(i as int));
    }
    r
}

/// Removes every trailing `/` from a request path, as the display form of the
/// current directory and the base of the raw link.
pub fn trim_end_slashes<'a>(s: &'a str) -> (r: &'a str)
    ensures
        r@ == spec_trim_end_slash(s@),
{
    let len = s.unicode_len();
    let mut j: usize = len;
    proof {
        assert(s@.take(len as int) =~= s@);
    }
    loop
        invariant
            j <= len,
            len == s@.len(),
            spec_trim_end_slash(s@) == spec_trim_end_slash(s@.take(j as int)),
        ensures
            j <= len,
            spec_trim_end_slash(s@) == s@.take(j as int),
        decreases j,
    {
        if j == 0 {
            assert(s@.take(0).len() == 0);
            break;
        }
        if s.get_char(j - 1) != '/' {
            assert(s@.take(j as int).last() == s@[j - 1]);
            break;
        }
        assert(s@.take(j as int).last() == s@[j - 1]);
        assert(s@.take(j as int).drop_last() =~= s@.take(j as int - 1));
        j = j - 1;
    }
    let r = s.substring_char(0, j);
    proof {
        assert(r@ =~= s@.take(j as int));
    }
    r
}

/// The extension of the last path component, used as the key for choosing a
/// rendering path and as the language token for highlighting.
pub fn extension_of(path: &str) -> (r: Option<String>)
    ensures
        r is Some <==> spec_extension_of(path@) is Some,
        r matches Some(e) ==> spec_extension_of(path@) == Some(e@),
{
    let len = path.unicode_len();
    let mut start: usize = len;
    loop
        invariant
            start <= len,
            len == path@.len(),
            forall|j: int| start <= j < len ==> path@[j] != '/',
        ensures
            start <= len,
            after_last(path@, '/') == path@.skip(start as int),
        decreases start,
    {
        if start == 0 {
            proof {
                lemma_after_last_absent(path@, '/');
                assert(path@.skip(0) =~= path@);
            }
            break;
        }
        if path.get_char(start - 1) == '/' {
            proof {
                lemma_after_last_found(path@, '/', start - 1);
                assert(path@.subrange(start as int, len as int) =~= path@.skip(start as int));
            }
            break;
        }
        start = start - 1;
    }
    let ghost f = path@.skip(start as int);
    assert(forall|j: int| 0 <= j < f.len() ==> f[j] == path@[start + j]);
    if start == len {
        proof {
            lemma_dot_split_absent(f);
        }
        return None;
    }
    let mut j: usize = len;
    loop
        invariant
            start < len,
            start < j <= len,
            len == path@.len(),
            f == path@.skip(start as int),
            forall|i: int| j <= i < len ==> path@[i] != '.',
        ensures
            start < j <= len,
            j > start + 1 ==> path@[j - 1] == '.' && forall|i: int|
                j <= i < len ==> path@[i] != '.',
            j <= start + 1 ==> forall|i: int| start + 1 <= i < len ==> path@[i] != '.',
        decreases j,
    {
        if j <= start + 1 {
            break;
        }
        if path.get_char(j - 1) == '.' {
            break;
        }
        j = j - 1;
    }
    if j > start + 1 {
        let dot = j - 1;
        proof {
            let k = dot - start;
            assert(f[k as int] == path@[dot as int]);
            assert(forall|i: int| k < i < f.len() ==> f[i] == path@[start + i] && f[i] != '.');
            lemma_dot_split_found(f, k as int);
            assert(f.subrange(k as int + 1, f.len() as int) =~= path@.subrange(
                dot + 1,
                len as int,
            ));
        }
        let sub = path.substring_char(dot + 1, len);
        Some(sub.to_owned())
    } else {
        proof {
            assert(forall|i: int| 1 <= i < f.len() ==> f[i] == path@[start + i] && f[i] != '.');
            lemma_dot_split_absent(f);
        }
        None
    }
}

/// The URL of the raw view of a file: the request URL with the raw query
/// indicator appended.
pub fn raw_url_of(url: &str) -> (r: String)
    ensures
        r@ == url@ + "?raw=true"@,
{
    url.to_owned().concat("?raw=true")
}

} // verus!
