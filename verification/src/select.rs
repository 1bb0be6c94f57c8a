//! Selection of the original media object of a content block. A media
//! sequence is consistent only when exactly one of its elements is flagged
//! as having the original dimensions; zero candidates and several candidates
//! are distinct data-consistency errors, never a silent guess.

use vstd::prelude::*;

use crate::model::Media;
use crate::Error;

verus! {

/// Is this rendition flagged as the original one?
pub open spec fn is_original(m: Media) -> bool {
    m.has_original_dimensions == Some(true)
}

/// How many renditions of the sequence are flagged as original.
pub open spec fn count_originals(s: Seq<Media>) -> nat
    decreases s.len(),
{
    if s.len() == 0 {
        0
    } else {
        count_originals(s.drop_last()) + if is_original(s.last()) {
            1nat
        } else {
            0nat
        }
    }
}

/// The index of the first original rendition, or `s.len()` when none is.
pub open spec fn first_original(s: Seq<Media>) -> int
    decreases s.len(),
{
    if s.len() == 0 {
        0
    } else if is_original(s[0]) {
        0
    } else {
        1 + first_original(s.skip(1))
    }
}

/// What selection returns: the index of the sole original rendition, or the
/// data-consistency error for zero or for several candidates.
pub open spec fn spec_select_original(s: Seq<Media>) -> Result<int, Error> {
    if count_originals(s) == 0 {
        Err(Error::MissingOriginalMedia)
    } else if count_originals(s) >= 2 {
        Err(Error::MultipleOriginalMedia)
    } else {
        Ok(first_original(s))
    }
}

/// A sequence counts zero originals exactly when no element is original.
pub proof fn lemma_count_zero(s: Seq<Media>)
    ensures
        (count_originals(s) == 0) <==> (forall|i: int| 0 <= i < s.len() ==> !is_original(s[i])),
    decreases s.len(),
{
    if s.len() > 0 {
        lemma_count_zero(s.drop_last());
        if count_originals(s) == 0 {
            assert forall|i: int| 0 <= i < s.len() implies !is_original(s[i]) by {
                if i < s.len() - 1 {
                    assert(s.drop_last()[i] == s[i]);
                }
            }
        } else {
            if forall|i: int| 0 <= i < s.len() ==> !is_original(s[i]) {
                assert forall|i: int| 0 <= i < s.drop_last().len() implies !is_original(
                    s.drop_last()[i],
                ) by {
                    assert(s.drop_last()[i] == s[i]);
                }
                assert(!is_original(s.last()));
                assert(count_originals(s) == 0);
            }
        }
    }
}

/// A sequence with an original element counts at least one.
pub proof fn lemma_count_pos(s: Seq<Media>, i: int)
    requires
        0 <= i < s.len(),
        is_original(s[i]),
    ensures
        count_originals(s) >= 1,
    decreases s.len(),
{
    if i == s.len() - 1 {
    } else {
        assert(s.drop_last()[i] == s[i]);
        lemma_count_pos(s.drop_last(), i);
    }
}

/// A sequence with two original elements counts at least two.
pub proof fn lemma_count_two(s: Seq<Media>, i: int, j: int)
    requires
        0 <= i < j < s.len(),
        is_original(s[i]),
        is_original(s[j]),
    ensures
        count_originals(s) >= 2,
    decreases s.len(),
{
    if j == s.len() - 1 {
        assert(s.drop_last()[i] == s[i]);
        lemma_count_pos(s.drop_last(), i);
    } else {
        assert(s.drop_last()[i] == s[i]);
        assert(s.drop_last()[j] == s[j]);
        lemma_count_two(s.drop_last(), i, j);
    }
}

/// `first_original` is the position of an original element with no original
/// one before it.
pub proof fn lemma_first_original_is(s: Seq<Media>, k: int)
    requires
        0 <= k < s.len(),
        is_original(s[k]),
        forall|j: int| 0 <= j < k ==> !is_original(s[j]),
    ensures
        first_original(s) == k,
    decreases k,
{
    if k > 0 {
        assert(!is_original(s[0]));
        assert forall|j: int| 0 <= j < k - 1 implies !is_original(s.skip(1)[j]) by {
            assert(s.skip(1)[j] == s[j + 1]);
        }
        lemma_first_original_is(s.skip(1), k - 1);
    }
}

/// A sequence whose sole original element stands at `i` counts exactly one,
/// first at `i`: selection returns exactly that element.
pub proof fn lemma_select_unique(s: Seq<Media>, i: int)
    requires
        0 <= i < s.len(),
        is_original(s[i]),
        forall|j: int| 0 <= j < s.len() && j != i ==> !is_original(s[j]),
    ensures
        count_originals(s) == 1,
        first_original(s) == i,
        spec_select_original(s) == Ok::<int, Error>(i),
    decreases s.len(),
{
    lemma_first_original_is(s, i);
    if i == s.len() - 1 {
        assert forall|j: int| 0 <= j < s.drop_last().len() implies !is_original(
            s.drop_last()[j],
        ) by {
            assert(s.drop_last()[j] == s[j]);
        }
        lemma_count_zero(s.drop_last());
    } else {
        assert(s.drop_last()[i] == s[i]);
        assert forall|j: int| 0 <= j < s.drop_last().len() && j != i implies !is_original(
            s.drop_last()[j],
        ) by {
            assert(s.drop_last()[j] == s[j]);
        }
        lemma_select_unique(s.drop_last(), i);
        assert(!is_original(s.last()));
    }
}

/// Pick the one rendition flagged as original out of a media sequence.
///
/// Returns its index; with no flagged rendition or with several, the
/// matching data-consistency error.
pub fn select_original_media(media: &Vec<Media>) -> (r: Result<usize, Error>)
    ensures
        match r {
            Ok(i) => spec_select_original(media@) == Ok::<int, Error>(i as int) && i
                < media@.len() && is_original(media@[i as int]) && (forall|j: int|
                0 <= j < media@.len() && j != i ==> !is_original(media@[j])),
            Err(e) => spec_select_original(media@) == Err::<int, Error>(e) && (e
                == Error::MissingOriginalMedia ==> (forall|j: int|
                0 <= j < media@.len() ==> !is_original(media@[j]))) && (e
                == Error::MultipleOriginalMedia ==> (exists|i: int, j: int|
                0 <= i < j < media@.len() && is_original(media@[i]) && is_original(media@[j]))),
        },
{
    let n = media.len();
    let mut i: usize = 0;
    let mut found = false;
    let mut first: usize = 0;
    while i < n
        invariant
            0 <= i <= n,
            n == media@.len(),
            found ==> first < i && is_original(media@[first as int]) && (forall|j: int|
                0 <= j < i && j != first ==> !is_original(media@[j])),
            !found ==> forall|j: int| 0 <= j < i ==> !is_original(media@[j]),
        decreases n - i,
    {
        let orig = match media[i].has_original_dimensions {
            Some(true) => true,
            _ => false,
        };
        if orig {
            if found {
                proof {
                    lemma_count_two(media@, first as int, i as int);
                }
                return Err(Error::MultipleOriginalMedia);
            }
            first = i;
            found = true;
        }
        i = i + 1;
    }
    if found {
        proof {
            lemma_select_unique(media@, first as int);
        }
        Ok(first)
    } else {
        proof {
            lemma_count_zero(media@);
        }
        Err(Error::MissingOriginalMedia)
    }
}

/// The canonical URL of a video block: the media object's URL when a media
/// object is present, else the block's own URL, else a data-consistency
/// error. The media object wins because it is the more specific source.
pub open spec fn spec_video_url(media: Option<Media>, url: Option<String>) -> Result<
    Seq<char>,
    Error,
> {
    match media {
        Some(m) => Ok(m.url@),
        None => match url {
            Some(u) => Ok(u@),
            None => Err(Error::MissingVideoUrl),
        },
    }
}

/// Resolve the canonical URL of a video block from its media object and its
/// own URL field.
pub fn video_url(media: &Option<Media>, url: &Option<String>) -> (r: Result<String, Error>)
    ensures
        match r {
            Ok(u) => spec_video_url(*media, *url) == Ok::<Seq<char>, Error>(u@),
            Err(e) => spec_video_url(*media, *url) == Err::<Seq<char>, Error>(e),
        },
{
    match media {
        Some(m) => Ok(m.url.clone()),
        None => match url {
            Some(u) => Ok(u.clone()),
            None => Err(Error::MissingVideoUrl),
        },
    }
}

} // verus!
