//! Resolution of the requested post out of a decoded embedded state: the
//! permalink page's route payload is required, its timeline is filtered to
//! the entries whose blog name and id equal the request, and the first match
//! in original order is returned. No match is a missing-post error.

use vstd::prelude::*;

use crate::model::InitialState;
use crate::model::Post;
use crate::model::TimelineObject;
use crate::Error;

verus! {

/// Does this timeline entry carry the requested post?
pub open spec fn object_matches(obj: TimelineObject, blog: Seq<char>, post_id: u64) -> bool {
    match obj {
        TimelineObject::Post(p) => p.blog_name@ == blog && p.id == post_id,
    }
}

/// The payload of a timeline entry.
pub open spec fn timeline_post(obj: TimelineObject) -> Post {
    match obj {
        TimelineObject::Post(p) => p,
    }
}

/// The first entry matching the request, in original order, if any.
pub open spec fn spec_find_post(objs: Seq<TimelineObject>, blog: Seq<char>, post_id: u64) -> Option<
    Post,
> decreases objs.len(),
{
    if objs.len() == 0 {
        None
    } else if object_matches(objs[0], blog, post_id) {
        Some(timeline_post(objs[0]))
    } else {
        spec_find_post(objs.skip(1), blog, post_id)
    }
}

/// What resolution returns: the first matching entry of the route payload's
/// timeline, or a missing-post error when the payload is absent or nothing
/// matches.
pub open spec fn spec_resolve_post(state: InitialState, blog: Seq<char>, post_id: u64) -> Result<
    Post,
    Error,
> {
    match state.peepr_route {
        Some(pr) => match spec_find_post(pr.initial_timeline.objects@, blog, post_id) {
            Some(p) => Ok(p),
            None => Err(Error::MissingScrapedPost),
        },
        None => Err(Error::MissingScrapedPost),
    }
}

/// When exactly one entry matches, the first match is that entry.
pub proof fn lemma_find_post_unique(
    objs: Seq<TimelineObject>,
    blog: Seq<char>,
    post_id: u64,
    i: int,
)
    requires
        0 <= i < objs.len(),
        object_matches(objs[i], blog, post_id),
        forall|j: int| 0 <= j < objs.len() && j != i ==> !object_matches(objs[j], blog, post_id),
    ensures
        spec_find_post(objs, blog, post_id) == Some(timeline_post(objs[i])),
    decreases i,
{
    if i > 0 {
        assert(!object_matches(objs[0], blog, post_id));
        assert forall|j: int| 0 <= j < objs.skip(1).len() && j != i - 1 implies !object_matches(
            objs.skip(1)[j],
            blog,
            post_id,
        ) by {
            assert(objs.skip(1)[j] == objs[j + 1]);
        }
        assert(objs.skip(1)[i - 1] == objs[i]);
        lemma_find_post_unique(objs.skip(1), blog, post_id, i - 1);
    }
}

/// When nothing matches, resolution finds nothing.
pub proof fn lemma_find_post_none(objs: Seq<TimelineObject>, blog: Seq<char>, post_id: u64)
    requires
        forall|j: int| 0 <= j < objs.len() ==> !object_matches(objs[j], blog, post_id),
    ensures
        spec_find_post(objs, blog, post_id) is None,
    decreases objs.len(),
{
    if objs.len() > 0 {
        assert forall|j: int| 0 <= j < objs.skip(1).len() implies !object_matches(
            objs.skip(1)[j],
            blog,
            post_id,
        ) by {
            assert(objs.skip(1)[j] == objs[j + 1]);
        }
        lemma_find_post_none(objs.skip(1), blog, post_id);
    }
}

/// Take the first matching post out of a timeline, in original order.
pub fn find_post(objects: Vec<TimelineObject>, blog_identifier: &String, post_id: u64) -> (r:
    Result<Post, Error>)
    ensures
        match r {
            Ok(p) => spec_find_post(objects@, blog_identifier@, post_id) == Some(p),
            Err(e) => e == Error::MissingScrapedPost && spec_find_post(
                objects@,
                blog_identifier@,
                post_id,
            ) is None,
        },
{
    let n = objects.len();
    let mut objs = objects;
    let mut i: usize = 0;
    proof {
        assert(objects@.skip(0) =~= objects@);
    }
    while i < n
        invariant
            0 <= i <= n,
            n == objs@.len(),
            objs@ == objects@,
            spec_find_post(objects@, blog_identifier@, post_id) == spec_find_post(
                objects@.skip(i as int),
                blog_identifier@,
                post_id,
            ),
        decreases n - i,
    {
        let matched = match &objs[i] {
            TimelineObject::Post(p) => p.blog_name == *blog_identifier && p.id == post_id,
        };
        proof {
            assert(objects@.skip(i as int)[0] == objects@[i as int]);
            assert(objects@.skip(i as int).skip(1) =~= objects@.skip(i as int + 1));
        }
        if matched {
            let obj = objs.remove(i);
            match obj {
                TimelineObject::Post(p) => {
                    return Ok(p);
                },
            }
        }
        i = i + 1;
    }
    proof {
        assert(objects@.skip(n as int) =~= Seq::<TimelineObject>::empty());
    }
    Err(Error::MissingScrapedPost)
}

/// Resolve the requested post out of a decoded embedded state.
///
/// Requires the permalink route payload to be present; returns the first
/// timeline entry whose blog name equals `blog_identifier` and whose id
/// equals `post_id`, and a missing-post error otherwise.
pub fn resolve_post(state: InitialState, blog_identifier: &String, post_id: u64) -> (r: Result<
    Post,
    Error,
>)
    ensures
        r == spec_resolve_post(state, blog_identifier@, post_id),
{
    match state.peepr_route {
        Some(pr) => find_post(pr.initial_timeline.objects, blog_identifier, post_id),
        None => Err(Error::MissingScrapedPost),
    }
}

} // verus!
