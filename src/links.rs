//! Collapsing Markdown links whose text is their own URL, `[u](u)`, into the
//! bare URL `u`: the chat service does not render such links sensibly.
use crate::text::starts_with;
use vstd::prelude::*;

verus! {

/// The characters of `t` before its first `]`, or all of `t` if it has none.
pub open spec fn until_close(t: Seq<char>) -> Seq<char>
    decreases t.len(),
{
    if t.len() == 0 || t[0] == ']' {
        Seq::empty()
    } else {
        seq![t[0]] + until_close(t.drop_first())
    }
}

/// Whether `u` begins with `http://` or `https://`.
pub open spec fn is_web_url(u: Seq<char>) -> bool {
    (7 <= u.len() && u.subrange(0, 7) == "http://"@) || (8 <= u.len() && u.subrange(0, 8)
        == "https://"@)
}

/// The URL `u` when `s` begins with the link `[u](u)`, `u` a web URL free of `]`.
pub open spec fn url_link_at(s: Seq<char>) -> Option<Seq<char>> {
    if s.len() == 0 || s[0] != '[' {
        None
    } else {
        let u = until_close(s.drop_first());
        let n = u.len() as int;
        if is_web_url(u) && 2 * n + 4 <= s.len() && s[n + 1] == ']' && s[n + 2] == '('
            && s.subrange(n + 3, 2 * n + 3) == u && s[2 * n + 3] == ')' {
            Some(u)
        } else {
            None
        }
    }
}

/// `s` with each link `[u](u)` replaced by `u`, scanning from the left; every
/// other character, including links whose text differs from their target,
/// stays as it is.
pub open spec fn collapsed(s: Seq<char>) -> Seq<char>
    decreases s.len(),
{
    if s.len() == 0 {
        s
    } else {
        match url_link_at(s) {
            Some(u) => u + collapsed(s.skip(2 * u.len() as int + 4)),
            None => seq![s[0]] + collapsed(s.drop_first()),
        }
    }
}

proof fn lemma_until_close(t: Seq<char>, j: int)
    requires
        0 <= j <= t.len(),
        forall|k: int| 0 <= k < j ==> t[k] != ']',
        j == t.len() || t[j] == ']',
    ensures
        until_close(t) == t.subrange(0, j),
    decreases j,
{
    if j > 0 {
        lemma_until_close(t.drop_first(), j - 1);
        assert(t.subrange(0, j) =~= seq![t[0]] + t.drop_first().subrange(0, j - 1));
    } else {
        assert(t.subrange(0, 0) =~= Seq::<char>::empty());
    }
}

/// Whether `s@[from..from + n]` and `s@[at..at + n]` are equal.
fn same_chars(s: &str, len: usize, from: usize, at: usize, n: usize) -> (r: bool)
    requires
        len == s@.len(),
        from + n <= s@.len(),
        at + n <= s@.len(),
    ensures
        r == (s@.subrange(from as int, from + n) == s@.subrange(at as int, at + n)),
{
    let mut k: usize = 0;
    assert(s@.subrange(from as int, from as int) =~= s@.subrange(at as int, at as int));
    while k < n
        invariant
            k <= n,
            len == s@.len(),
            from + n <= s@.len(),
            at + n <= s@.len(),
            s@.subrange(from as int, from + k) == s@.subrange(at as int, at + k),
        decreases n - k,
    {
        if s.get_char(from + k) != s.get_char(at + k) {
            assert(s@.subrange(from as int, from + n)[k as int] != s@.subrange(at as int, at + n)[k as int]);
            return false;
        }
        assert(s@.subrange(from as int, from + k + 1) =~= s@.subrange(from as int, from + k).push(
            s@[from + k],
        ));
        assert(s@.subrange(at as int, at + k + 1) =~= s@.subrange(at as int, at + k).push(
            s@[at + k],
        ));
        k = k + 1;
    }
    true
}

/// The length of the URL of the link `[u](u)` that starts at `i`, if one does.
fn url_link_len(s: &str, i: usize, len: usize) -> (r: Option<usize>)
    requires
        len == s@.len(),
        i < len,
    ensures
        match r {
            Some(n) => i + 2 * n + 4 <= len && url_link_at(s@.skip(i as int)) == Some(
                s@.subrange(i + 1, i + 1 + n),
            ),
            None => url_link_at(s@.skip(i as int)) is None,
        },
{
    let ghost t = s@.skip(i as int);
    if s.get_char(i) != '[' {
        return None;
    }
    let mut j: usize = i + 1;
    while j < len && s.get_char(j) != ']'
        invariant
            i < j <= len,
            len == s@.len(),
            forall|k: int| i < k < j ==> s@[k] != ']',
        decreases len - j,
    {
        j = j + 1;
    }
    let n = j - i - 1;
    proof {
        let rest = t.drop_first();
        assert forall|k: int| 0 <= k < n implies rest[k] != ']' by {
            assert(rest[k] == s@[i + 1 + k]);
        }
        lemma_until_close(rest, n as int);
        assert(rest.subrange(0, n as int) =~= s@.subrange(i + 1, j as int));
    }
    let text = s.substring_char(i + 1, j);
    proof {
        reveal_strlit("http://");
        reveal_strlit("https://");
    }
    let web = starts_with(text, "http://") || starts_with(text, "https://");
    if !web || len - i < 4 || (len - i - 4) / 2 < n {
        return None;
    }
    assert(2 * n + 4 <= len - i) by (nonlinear_arith)
        requires
            len - i >= 4,
            (len - i - 4) / 2 >= n,
    ;
    if s.get_char(j + 1) != '(' || s.get_char(j + 2 + n) != ')' {
        return None;
    }
    if !same_chars(s, len, i + 1, j + 2, n) {
        assert(t.subrange(n + 3, 2 * n + 3) =~= s@.subrange(j + 2, j + 2 + n));
        return None;
    }
    assert(t.subrange(n + 3, 2 * n + 3) =~= s@.subrange(j + 2, j + 2 + n));
    Some(n)
}

/// Replaces each link `[u](u)`, `u` beginning with `http://` or `https://`,
/// by `u`; everything else, including links whose text differs from their
/// target, is kept.
pub fn collapse_url_links(markdown: &str) -> (r: String)
    ensures
        r@ == collapsed(markdown@),
{
    let len = markdown.unicode_len();
    let mut out = String::new();
    let mut i: usize = 0;
    assert(markdown@.skip(0) =~= markdown@);
    assert(out@ + collapsed(markdown@) =~= collapsed(markdown@));
    while i < len
        invariant
            len == markdown@.len(),
            i <= len,
            out@ + collapsed(markdown@.skip(i as int)) == collapsed(markdown@),
        decreases len - i,
    {
        let ghost t = markdown@.skip(i as int);
        match url_link_len(markdown, i, len) {
            Some(n) => {
                out.append(markdown.substring_char(i + 1, i + 1 + n));
                proof {
                    assert(t.skip(2 * n + 4) =~= markdown@.skip(i + 2 * n + 4));
                    assert(out@ + collapsed(markdown@.skip(i + 2 * n + 4)) =~= collapsed(
                        markdown@,
                    ));
                }
                i = i + 2 * n + 4;
            },
            None => {
                out.append(markdown.substring_char(i, i + 1));
                proof {
                    assert(markdown@.subrange(i as int, i + 1) =~= seq![t[0]]);
                    assert(t.drop_first() =~= markdown@.skip(i + 1));
                    assert(out@ + collapsed(markdown@.skip(i + 1)) =~= collapsed(markdown@));
                }
                i = i + 1;
            },
        }
    }
    assert(markdown@.skip(len as int) =~= Seq::<char>::empty());
    assert(out@ =~= out@ + collapsed(markdown@.skip(len as int)));
    out
}

} // verus!
