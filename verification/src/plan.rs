//! Planning of a post's downloads: walk the content blocks in display
//! order, resolve each image block's original rendition and each video
//! block's canonical URL, and derive the destination file name from each
//! URL's final path segment. The first inconsistent block aborts the plan,
//! so a caller commits either every file of the post or none.

use vstd::prelude::*;

use crate::model::ContentBlock;
use crate::select::select_original_media;
use crate::select::spec_select_original;
use crate::select::spec_video_url;
use crate::select::video_url;
use crate::urls::media_file_name;
use crate::urls::spec_media_file_name;
use crate::Error;

verus! {

/// One file a downloader has to fetch and commit: the URL to fetch and the
/// file name to commit it under, inside the post's directory.
#[derive(Debug, Clone, PartialEq, Eq)]
pub struct MediaDownload {
    /// The URL of the original rendition.
    pub url: String,
    /// The destination file name derived from that URL.
    pub file_name: String,
}

/// The URL and file name pairs of a download list.
pub open spec fn download_views(v: Seq<MediaDownload>) -> Seq<(Seq<char>, Seq<char>)> {
    v.map_values(|d: MediaDownload| (d.url@, d.file_name@))
}

/// What one content block contributes to the plan: nothing for text, the
/// original rendition's URL and file name for an image, the canonical URL
/// and its file name for a video, or the first error the block raises.
pub open spec fn spec_block_download(b: ContentBlock) -> Result<
    Option<(Seq<char>, Seq<char>)>,
    Error,
> {
    match b {
        ContentBlock::Text { .. } => Ok(None),
        ContentBlock::Image { media, .. } => match spec_select_original(media@) {
            Err(e) => Err(e),
            Ok(i) => match spec_media_file_name(media@[i].url@) {
                Some(f) => Ok(Some((media@[i].url@, f))),
                None => Err(Error::MissingFileName),
            },
        },
        ContentBlock::Video { url, media, .. } => match spec_video_url(media, url) {
            Err(e) => Err(e),
            Ok(u) => match spec_media_file_name(u) {
                Some(f) => Ok(Some((u, f))),
                None => Err(Error::MissingFileName),
            },
        },
    }
}

/// The whole plan, in display order, failing fast on the first bad block.
pub open spec fn spec_plan(blocks: Seq<ContentBlock>) -> Result<
    Seq<(Seq<char>, Seq<char>)>,
    Error,
>
    decreases blocks.len(),
{
    if blocks.len() == 0 {
        Ok(Seq::empty())
    } else {
        match spec_block_download(blocks[0]) {
            Err(e) => Err(e),
            Ok(opt) => match spec_plan(blocks.skip(1)) {
                Err(e) => Err(e),
                Ok(rest) => match opt {
                    Some(d) => Ok(seq![d] + rest),
                    None => Ok(rest),
                },
            },
        }
    }
}

/// Plan every download a post's content asks for, in display order.
///
/// Returns one entry per image and video block; text blocks contribute
/// nothing. The first block whose media selection, video URL or file name
/// fails aborts the whole plan with that block's error.
pub fn plan_downloads(content: &Vec<ContentBlock>) -> (r: Result<Vec<MediaDownload>, Error>)
    ensures
        match r {
            Ok(v) => spec_plan(content@) == Ok::<Seq<(Seq<char>, Seq<char>)>, Error>(
                download_views(v@),
            ),
            Err(e) => spec_plan(content@) == Err::<Seq<(Seq<char>, Seq<char>)>, Error>(e),
        },
{
    let n = content.len();
    let mut result: Vec<MediaDownload> = Vec::new();
    let mut i: usize = 0;
    proof {
        assert(content@.skip(0) =~= content@);
        assert(download_views(result@) =~= Seq::<(Seq<char>, Seq<char>)>::empty());
        if spec_plan(content@) is Ok {
            assert(download_views(result@) + spec_plan(content@)->Ok_0 =~= spec_plan(
                content@,
            )->Ok_0);
        }
    }
    while i < n
        invariant
            0 <= i <= n,
            n == content@.len(),
            ({
                let rest = spec_plan(content@.skip(i as int));
                match rest {
                    Ok(r) => spec_plan(content@) == Ok::<Seq<(Seq<char>, Seq<char>)>, Error>(
                        download_views(result@) + r,
                    ),
                    Err(e) => spec_plan(content@) == Err::<Seq<(Seq<char>, Seq<char>)>, Error>(e),
                }
            }),
        decreases n - i,
    {
        proof {
            assert(content@.skip(i as int)[0] == content@[i as int]);
            assert(content@.skip(i as int).skip(1) =~= content@.skip(i as int + 1));
        }
        let item: Option<MediaDownload> = match &content[i] {
            ContentBlock::Text { .. } => None,
            ContentBlock::Image { media, .. } => {
                let idx = match select_original_media(media) {
                    Ok(idx) => idx,
                    Err(e) => {
                        return Err(e);
                    },
                };
                let f = match media_file_name(media[idx].url.as_str()) {
                    Ok(f) => f,
                    Err(e) => {
                        return Err(e);
                    },
                };
                Some(MediaDownload { url: media[idx].url.clone(), file_name: f })
            },
            ContentBlock::Video { url, media, .. } => {
                let u = match video_url(media, url) {
                    Ok(u) => u,
                    Err(e) => {
                        return Err(e);
                    },
                };
                let f = match media_file_name(u.as_str()) {
                    Ok(f) => f,
                    Err(e) => {
                        return Err(e);
                    },
                };
                Some(MediaDownload { url: u, file_name: f })
            },
        };
        if let Some(d) = item {
            let ghost old_result = result@;
            result.push(d);
            proof {
                assert(download_views(result@) =~= download_views(old_result).push(
                    (d.url@, d.file_name@),
                ));
                let rest = spec_plan(content@.skip(i as int + 1));
                if rest is Ok {
                    assert(download_views(old_result) + (seq![(d.url@, d.file_name@)]
                        + rest->Ok_0) =~= download_views(result@) + rest->Ok_0);
                }
            }
        }
        i = i + 1;
    }
    proof {
        assert(content@.skip(n as int) =~= Seq::<ContentBlock>::empty());
        assert(download_views(result@) + Seq::<(Seq<char>, Seq<char>)>::empty() =~= download_views(
            result@,
        ));
    }
    Ok(result)
}

} // verus!
