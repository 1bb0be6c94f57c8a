//! The URL shapes the scraper works with: the permalink grammar
//! `https://www.tumblr.com/<blog>/<id>[/...]`, the file name derived from a
//! media URL's final path segment, and the names used by the atomic commit
//! of downloaded files.

use vstd::prelude::*;

use crate::digits::all_digits;
use crate::digits::digits_val;
use crate::digits::format_u64;
use crate::digits::lemma_format_digits;
use crate::digits::parse_u64;
use crate::digits::spec_format_u64;
use crate::Error;

verus! {

/// The fixed scheme-and-host prefix of a post permalink.
pub open spec fn permalink_prefix() -> Seq<char> {
    "https://www.tumblr.com/"@
}

/// The index of the first `'/'` in `s`, or `s.len()` when there is none.
pub open spec fn slash_index(s: Seq<char>) -> int
    decreases s.len(),
{
    if s.len() == 0 {
        0
    } else if s[0] == '/' {
        0
    } else {
        1 + slash_index(s.skip(1))
    }
}

/// The index of the last `'/'` in `s`, or `-1` when there is none.
pub open spec fn last_slash(s: Seq<char>) -> int
    decreases s.len(),
{
    if s.len() == 0 {
        -1
    } else if s.last() == '/' {
        s.len() - 1
    } else {
        last_slash(s.drop_last())
    }
}

/// `slash_index` lies in the string, no slash stands before it, and it
/// carries a slash unless it is the length.
pub proof fn lemma_slash_index_bounds(s: Seq<char>)
    ensures
        0 <= slash_index(s) <= s.len(),
        forall|j: int| 0 <= j < slash_index(s) ==> s[j] != '/',
        slash_index(s) < s.len() ==> s[slash_index(s)] == '/',
    decreases s.len(),
{
    if s.len() > 0 && s[0] != '/' {
        lemma_slash_index_bounds(s.skip(1));
        assert forall|j: int| 0 <= j < slash_index(s) implies s[j] != '/' by {
            if j > 0 {
                assert(s.skip(1)[j - 1] == s[j]);
            }
        }
        if slash_index(s) < s.len() {
            assert(s.skip(1)[slash_index(s) - 1] == s[slash_index(s)]);
        }
    }
}

/// `slash_index` is the one position with no slash before it that either
/// ends the string or carries a slash.
pub proof fn lemma_slash_index_is(s: Seq<char>, k: int)
    requires
        0 <= k <= s.len(),
        forall|j: int| 0 <= j < k ==> s[j] != '/',
        k < s.len() ==> s[k] == '/',
    ensures
        slash_index(s) == k,
    decreases k,
{
    if k > 0 {
        assert(s[0] != '/');
        assert forall|j: int| 0 <= j < k - 1 implies s.skip(1)[j] != '/' by {
            assert(s.skip(1)[j] == s[j + 1]);
        }
        lemma_slash_index_is(s.skip(1), k - 1);
    }
}

/// `last_slash` is the position of a slash with none after it.
pub proof fn lemma_last_slash_is(s: Seq<char>, k: int)
    requires
        0 <= k < s.len(),
        s[k] == '/',
        forall|j: int| k < j < s.len() ==> s[j] != '/',
    ensures
        last_slash(s) == k,
    decreases s.len(),
{
    if k < s.len() - 1 {
        assert(s.drop_last()[k] == s[k]);
        assert forall|j: int| k < j < s.drop_last().len() implies s.drop_last()[j] != '/' by {
            assert(s.drop_last()[j] == s[j]);
        }
        lemma_last_slash_is(s.drop_last(), k);
    }
}

/// A string without slashes has no last slash.
pub proof fn lemma_last_slash_none(s: Seq<char>)
    requires
        forall|j: int| 0 <= j < s.len() ==> s[j] != '/',
    ensures
        last_slash(s) == -1,
    decreases s.len(),
{
    if s.len() > 0 {
        assert forall|j: int| 0 <= j < s.drop_last().len() implies s.drop_last()[j] != '/' by {
            assert(s.drop_last()[j] == s[j]);
        }
        lemma_last_slash_none(s.drop_last());
    }
}

/// What `parse_url` returns: the blog identifier and post id of a permalink,
/// or the error naming the first part of the grammar that the string breaks.
/// Path segments after the id (a permalink slug) are ignored.
pub open spec fn spec_parse_url(s: Seq<char>) -> Result<(Seq<char>, u64), Error> {
    if !(s.len() >= permalink_prefix().len() && s.take(permalink_prefix().len() as int)
        == permalink_prefix()) {
        Err(Error::UnexpectedHost)
    } else {
        let rest = s.skip(permalink_prefix().len() as int);
        let b = slash_index(rest);
        if b == 0 {
            Err(Error::MissingBlogIdentifier)
        } else if b == rest.len() {
            Err(Error::MissingPostId)
        } else {
            let idpart = rest.skip(b + 1);
            let idseg = idpart.take(slash_index(idpart));
            if idseg.len() == 0 || !all_digits(idseg) || digits_val(idseg) > u64::MAX {
                Err(Error::InvalidPostId)
            } else {
                Ok((rest.take(b), digits_val(idseg) as u64))
            }
        }
    }
}

/// Does `s` start with `p`?
fn has_prefix(s: &str, p: &str) -> (b: bool)
    ensures
        b == (s@.len() >= p@.len() && s@.take(p@.len() as int) == p@),
{
    let plen = p.unicode_len();
    let n = s.unicode_len();
    if n < plen {
        return false;
    }
    let mut i: usize = 0;
    while i < plen
        invariant
            0 <= i <= plen,
            plen == p@.len(),
            n == s@.len(),
            n >= plen,
            forall|j: int| 0 <= j < i ==> s@[j] == p@[j],
        decreases plen - i,
    {
        if s.get_char(i) != p.get_char(i) {
            proof {
                assert(s@.take(plen as int)[i as int] != p@[i as int]);
            }
            return false;
        }
        i = i + 1;
    }
    proof {
        assert(s@.take(plen as int) =~= p@);
    }
    true
}

/// Split a post permalink into its blog identifier and post id.
///
/// Succeeds exactly on `https://www.tumblr.com/<blog>/<id>`, where `<blog>`
/// is nonempty and slash-free and `<id>` is a decimal 64-bit unsigned
/// integer; anything after a further slash is ignored. Each deviation is
/// reported as the error for the first segment that breaks the grammar.
pub fn parse_url(url: &str) -> (r: Result<(String, u64), Error>)
    ensures
        match r {
            Ok((blog, id)) => spec_parse_url(url@) == Ok::<(Seq<char>, u64), Error>((blog@, id)),
            Err(e) => spec_parse_url(url@) == Err::<(Seq<char>, u64), Error>(e),
        },
{
    proof {
        reveal_strlit("https://www.tumblr.com/");
    }
    if !has_prefix(url, "https://www.tumblr.com/") {
        return Err(Error::UnexpectedHost);
    }
    let plen: usize = 23;
    proof {
        assert(permalink_prefix().len() == 23);
    }
    let n = url.unicode_len();
    let ghost rest = url@.skip(plen as int);
    let mut b: usize = plen;
    while b < n && url.get_char(b) != '/'
        invariant
            plen <= b <= n,
            n == url@.len(),
            forall|j: int| plen <= j < b ==> url@[j] != '/',
        decreases n - b,
    {
        b = b + 1;
    }
    proof {
        assert forall|j: int| 0 <= j < b - plen implies rest[j] != '/' by {
            assert(rest[j] == url@[plen + j]);
        }
        lemma_slash_index_is(rest, b as int - plen as int);
    }
    if b == plen {
        return Err(Error::MissingBlogIdentifier);
    }
    if b == n {
        return Err(Error::MissingPostId);
    }
    let ghost idpart = rest.skip(b as int - plen as int + 1);
    proof {
        assert(idpart =~= url@.skip(b as int + 1));
    }
    let mut e: usize = b + 1;
    while e < n && url.get_char(e) != '/'
        invariant
            b + 1 <= e <= n,
            n == url@.len(),
            forall|j: int| b + 1 <= j < e ==> url@[j] != '/',
        decreases n - e,
    {
        e = e + 1;
    }
    proof {
        assert forall|j: int| 0 <= j < e - b - 1 implies idpart[j] != '/' by {
            assert(idpart[j] == url@[b + 1 + j]);
        }
        lemma_slash_index_is(idpart, e as int - b as int - 1);
        assert(idpart.take(e as int - b as int - 1) =~= url@.subrange(b as int + 1, e as int));
    }
    let idseg = url.substring_char(b + 1, e);
    match parse_u64(idseg) {
        Some(v) => {
            let blog = url.substring_char(plen, b).to_owned();
            proof {
                assert(rest.take(b as int - plen as int) =~= url@.subrange(plen as int, b as int));
            }
            Ok((blog, v))
        },
        None => Err(Error::InvalidPostId),
    }
}

/// The permalink for a blog identifier and post id.
pub open spec fn spec_permalink_url(blog: Seq<char>, post_id: u64) -> Seq<char> {
    permalink_prefix() + blog + seq!['/'] + spec_format_u64(post_id as nat)
}

/// Build the permalink page URL for a post.
pub fn permalink_url(blog_identifier: &str, post_id: u64) -> (r: String)
    ensures
        r@ == spec_permalink_url(blog_identifier@, post_id),
{
    let mut s = "https://www.tumblr.com/".to_owned();
    s.append(blog_identifier);
    s.append("/");
    let id = format_u64(post_id);
    s.append(id.as_str());
    proof {
        reveal_strlit("/");
        assert("/"@ =~= seq!['/']);
    }
    s
}

/// Parsing inverts building: the permalink of any slash-free, nonempty blog
/// identifier and any post id parses back to exactly that pair.
pub proof fn lemma_parse_permalink_url(blog: Seq<char>, post_id: u64)
    requires
        blog.len() > 0,
        forall|i: int| 0 <= i < blog.len() ==> blog[i] != '/',
    ensures
        spec_parse_url(spec_permalink_url(blog, post_id)) == Ok::<(Seq<char>, u64), Error>(
            (blog, post_id),
        ),
{
    let s = spec_permalink_url(blog, post_id);
    let p = permalink_prefix();
    lemma_format_digits(post_id as nat);
    let digits = spec_format_u64(post_id as nat);
    assert(s.take(p.len() as int) =~= p);
    let rest = s.skip(p.len() as int);
    assert(rest =~= blog + seq!['/'] + digits);
    assert forall|j: int| 0 <= j < blog.len() implies rest[j] != '/' by {
        assert(rest[j] == blog[j]);
    }
    assert(rest[blog.len() as int] == '/');
    lemma_slash_index_is(rest, blog.len() as int);
    let idpart = rest.skip(blog.len() as int + 1);
    assert(idpart =~= digits);
    assert forall|j: int| 0 <= j < digits.len() implies idpart[j] != '/' by {
        assert(crate::digits::is_digit(digits[j]));
    }
    lemma_slash_index_is(idpart, digits.len() as int);
    assert(idpart.take(digits.len() as int) =~= digits);
    assert(rest.take(blog.len() as int) =~= blog);
}

/// Parsing is sound: a successful parse only ever comes from a URL that
/// starts with the fixed prefix, a nonempty slash-free blog identifier and
/// a slash before the id.
pub proof fn lemma_parse_url_sound(s: Seq<char>, blog: Seq<char>, post_id: u64)
    requires
        spec_parse_url(s) == Ok::<(Seq<char>, u64), Error>((blog, post_id)),
    ensures
        blog.len() > 0,
        forall|i: int| 0 <= i < blog.len() ==> blog[i] != '/',
        s.len() > permalink_prefix().len() + blog.len(),
        s.take(permalink_prefix().len() as int) == permalink_prefix(),
        s.subrange(
            permalink_prefix().len() as int,
            permalink_prefix().len() + blog.len() as int,
        ) == blog,
        s[permalink_prefix().len() + blog.len() as int] == '/',
{
    let p = permalink_prefix();
    let rest = s.skip(p.len() as int);
    lemma_slash_index_bounds(rest);
    let b = slash_index(rest);
    assert(blog =~= rest.take(b));
    assert forall|i: int| 0 <= i < blog.len() implies blog[i] != '/' by {
        assert(blog[i] == rest[i]);
    }
    assert(s.subrange(p.len() as int, p.len() + b as int) =~= rest.take(b));
    assert(s[p.len() + b as int] == rest[b]);
}

/// The file name a media URL implies: the final path segment after the
/// `https://` or `http://` scheme and the host, if there is one and it is
/// nonempty.
pub open spec fn spec_media_file_name(u: Seq<char>) -> Option<Seq<char>> {
    if u.len() >= "https://"@.len() && u.take("https://"@.len() as int) == "https://"@ {
        spec_file_name_after(u.skip("https://"@.len() as int))
    } else if u.len() >= "http://"@.len() && u.take("http://"@.len() as int) == "http://"@ {
        spec_file_name_after(u.skip("http://"@.len() as int))
    } else {
        None
    }
}

/// The nonempty text after the last slash of a URL body, if any.
pub open spec fn spec_file_name_after(body: Seq<char>) -> Option<Seq<char>> {
    let k = last_slash(body);
    if k < 0 {
        None
    } else if body.skip(k + 1).len() == 0 {
        None
    } else {
        Some(body.skip(k + 1))
    }
}

/// Derive the destination file name from a media URL: its final path
/// segment. A URL without scheme, path, or a nonempty final segment yields
/// no usable name.
pub fn media_file_name(url: &str) -> (r: Result<String, Error>)
    ensures
        match r {
            Ok(f) => spec_media_file_name(url@) == Some(f@),
            Err(e) => e == Error::MissingFileName && spec_media_file_name(url@) is None,
        },
{
    proof {
        reveal_strlit("https://");
        reveal_strlit("http://");
    }
    let start: usize;
    if has_prefix(url, "https://") {
        start = 8;
    } else if has_prefix(url, "http://") {
        start = 7;
    } else {
        return Err(Error::MissingFileName);
    }
    let ghost body = url@.skip(start as int);
    let n = url.unicode_len();
    let mut j: usize = start;
    let mut last: usize = 0;
    let mut found = false;
    while j < n
        invariant
            start <= j <= n,
            n == url@.len(),
            n >= start,
            found ==> start <= last < j && url@[last as int] == '/' && (forall|t: int|
                last < t < j ==> url@[t] != '/'),
            !found ==> forall|t: int| start <= t < j ==> url@[t] != '/',
        decreases n - j,
    {
        if url.get_char(j) == '/' {
            last = j;
            found = true;
        }
        j = j + 1;
    }
    if !found {
        proof {
            assert forall|t: int| 0 <= t < body.len() implies body[t] != '/' by {
                assert(body[t] == url@[start + t]);
            }
            lemma_last_slash_none(body);
        }
        return Err(Error::MissingFileName);
    }
    proof {
        assert(body[last - start as int] == url@[last as int]);
        assert forall|t: int| last - start < t < body.len() implies body[t] != '/' by {
            assert(body[t] == url@[start + t]);
        }
        lemma_last_slash_is(body, last - start as int);
        assert(body.skip(last + 1 - start as int) =~= url@.subrange(last as int + 1, n as int));
    }
    if last + 1 == n {
        return Err(Error::MissingFileName);
    }
    let f = url.substring_char(last + 1, n).to_owned();
    Ok(f)
}

/// The metadata document's file name inside a post's directory.
pub fn metadata_file_name() -> (r: String)
    ensures
        r@ == "metadata.json"@,
{
    "metadata.json".to_owned()
}

/// The temporary name a file is written under before it is renamed over its
/// final name; it always differs from the final name.
pub fn tmp_file_name(name: &str) -> (r: String)
    ensures
        r@ == name@ + ".tmp"@,
        r@ != name@,
{
    let mut s = name.to_owned();
    s.append(".tmp");
    proof {
        reveal_strlit(".tmp");
        assert(s@.len() == name@.len() + 4);
    }
    s
}

/// The relative directory a post's files are committed under:
/// `<blog identifier>/<post id>`.
pub fn post_directory(blog_identifier: &str, post_id: u64) -> (r: String)
    ensures
        r@ == blog_identifier@ + seq!['/'] + spec_format_u64(post_id as nat),
{
    let mut s = blog_identifier.to_owned();
    s.append("/");
    let id = format_u64(post_id);
    s.append(id.as_str());
    proof {
        reveal_strlit("/");
        assert("/"@ =~= seq!['/']);
    }
    s
}

} // verus!
