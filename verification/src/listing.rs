//! Listing records and the rules that turn the raw parts of a posting
//! container into a record.

use vstd::prelude::*;
use vstd::string::*;
use crate::text::{
    first_segment, first_segment_of, first_word, first_word_of, is_tight, last_segment,
    last_segment_of, lemma_segments, lemma_trimmed, starts_with, to_chars, trim, trimmed,
};

verus! {

/// Origin that relative posting links are resolved against.
pub const SITE_ORIGIN: &'static str = "https://www.kleinanzeigen.de";

/// Path prefix that the link of a real posting begins with.
pub const POSTING_PATH_PREFIX: &'static str = "/s-anzeige/";

/// Query directive that asks the image host for the high-resolution rendition.
pub const HIGH_RES_QUERY: &'static str = "?rule=$_59.AUTO";

/// One discovered posting.
#[derive(Debug)]
pub struct ListingRecord {
    /// Stable identifier of the posting.
    pub id: String,
    /// Human-readable title, free of surrounding white space.
    pub title: String,
    /// Absolute address of the posting.
    pub link: String,
    /// Address of the posting's picture in high resolution, if it has one.
    pub image_url: Option<String>,
}

/// Mathematical content of a [`ListingRecord`].
pub struct ListingView {
    pub id: Seq<char>,
    pub title: Seq<char>,
    pub link: Seq<char>,
    pub image_url: Option<Seq<char>>,
}

/// The characters of an optional string.
pub open spec fn opt_text(o: Option<String>) -> Option<Seq<char>> {
    match o {
        Some(s) => Some(s@),
        None => None,
    }
}

impl View for ListingRecord {
    type V = ListingView;

    open spec fn view(&self) -> ListingView {
        ListingView {
            id: self.id@,
            title: self.title@,
            link: self.link@,
            image_url: opt_text(self.image_url),
        }
    }
}

/// The title link of a posting container, as found in the page.
#[derive(Debug)]
pub struct RawLink {
    /// Link target, where the element has one.
    pub href: Option<String>,
    /// Concatenated text content of the element.
    pub text: String,
}

/// The picture element of a posting container, as found in the page.
#[derive(Debug)]
pub struct RawImage {
    /// Responsive-image candidate list, where the element has one.
    pub srcset: Option<String>,
    /// Single-image address, where the element has one.
    pub src: Option<String>,
}

/// What a posting container holds, before any rule is applied.
#[derive(Debug)]
pub struct RawPosting {
    /// Identifier attribute of the container.
    pub ad_id: Option<String>,
    /// First title link inside the container.
    pub link: Option<RawLink>,
    /// First picture inside the container.
    pub image: Option<RawImage>,
}

/// Mathematical content of a [`RawLink`].
pub struct RawLinkView {
    pub href: Option<Seq<char>>,
    pub text: Seq<char>,
}

/// Mathematical content of a [`RawImage`].
pub struct RawImageView {
    pub srcset: Option<Seq<char>>,
    pub src: Option<Seq<char>>,
}

/// Mathematical content of a [`RawPosting`].
pub struct RawPostingView {
    pub ad_id: Option<Seq<char>>,
    pub link: Option<RawLinkView>,
    pub image: Option<RawImageView>,
}

impl View for RawLink {
    type V = RawLinkView;

    open spec fn view(&self) -> RawLinkView {
        RawLinkView { href: opt_text(self.href), text: self.text@ }
    }
}

impl View for RawImage {
    type V = RawImageView;

    open spec fn view(&self) -> RawImageView {
        RawImageView { srcset: opt_text(self.srcset), src: opt_text(self.src) }
    }
}

impl View for RawPosting {
    type V = RawPostingView;

    open spec fn view(&self) -> RawPostingView {
        RawPostingView {
            ad_id: opt_text(self.ad_id),
            link: match self.link {
                Some(l) => Some(l@),
                None => None,
            },
            image: match self.image {
                Some(i) => Some(i@),
                None => None,
            },
        }
    }
}

/// Whether `href` is the path of a real posting.
pub open spec fn is_posting_path(href: Seq<char>) -> bool {
    POSTING_PATH_PREFIX@.is_prefix_of(href)
}

/// The picture address that a picture element offers: the first word of the
/// last entry of its candidate list where it has such a list, else its
/// single-image address.
pub open spec fn image_candidate(image: RawImageView) -> Option<Seq<char>> {
    match image.srcset {
        Some(set) => first_word(last_segment(set, ',')),
        None => image.src,
    }
}

/// `address` with its query string replaced by the high-resolution directive.
pub open spec fn high_res(address: Seq<char>) -> Seq<char> {
    first_segment(address, '?') + HIGH_RES_QUERY@
}

/// The picture address of a record made from `image`.
pub open spec fn image_address(image: Option<RawImageView>) -> Option<Seq<char>> {
    match image {
        Some(img) => match image_candidate(img) {
            Some(address) => Some(high_res(address)),
            None => None,
        },
        None => None,
    }
}

/// The record that a posting container yields: none unless the container has
/// an identifier and a title link whose target is a posting path.
pub open spec fn record_of(raw: RawPostingView) -> Option<ListingView> {
    if raw.ad_id is Some && raw.link is Some && raw.link->0.href is Some && is_posting_path(
        raw.link->0.href->0,
    ) {
        Some(
            ListingView {
                id: raw.ad_id->0,
                title: trimmed(raw.link->0.text),
                link: SITE_ORIGIN@ + raw.link->0.href->0,
                image_url: image_address(raw.image),
            },
        )
    } else {
        None
    }
}

/// What holds of every record that the extraction rules yield: the link is
/// an absolute address of a posting, the title has no surrounding white
/// space, and a picture address is an address without query string followed by
/// the high-resolution directive.
pub open spec fn is_extracted(record: ListingView) -> bool {
    &&& (SITE_ORIGIN@ + POSTING_PATH_PREFIX@).is_prefix_of(record.link)
    &&& is_tight(record.title)
    &&& record.image_url matches Some(url) ==> exists|base: Seq<char>|
        url == base + HIGH_RES_QUERY@ && !base.contains('?')
}

/// Every record that a posting container yields carries the container's
/// identifier and has the shape of an extracted record.
pub proof fn lemma_record_of(raw: RawPostingView)
    ensures
        record_of(raw) matches Some(record) ==> raw.ad_id == Some(record.id) && is_extracted(
            record,
        ),
{
    if let Some(record) = record_of(raw) {
        let href = raw.link->0.href->0;
        lemma_trimmed(raw.link->0.text);
        assert((SITE_ORIGIN@ + POSTING_PATH_PREFIX@) =~= (SITE_ORIGIN@ + href).subrange(
            0,
            (SITE_ORIGIN@ + POSTING_PATH_PREFIX@).len() as int,
        )) by {
            assert(POSTING_PATH_PREFIX@ =~= href.subrange(0, POSTING_PATH_PREFIX@.len() as int));
        }
        if let Some(url) = record.image_url {
            let address = image_candidate(raw.image->0)->0;
            lemma_segments(address, '?');
            assert(url == first_segment(address, '?') + HIGH_RES_QUERY@);
        }
    }
}

/// Every record of a page has the shape of an extracted record.
pub proof fn lemma_records_of(raws: Seq<RawPostingView>)
    ensures
        forall|i: int| 0 <= i < records_of(raws).len() ==> is_extracted(#[trigger] records_of(raws)[i]),
        records_of(raws).len() <= raws.len(),
    decreases raws.len(),
{
    if raws.len() > 0 {
        lemma_records_of(raws.drop_last());
        lemma_record_of(raws.last());
    }
}

/// The records that a page's posting containers yield, in page order.
pub open spec fn records_of(raws: Seq<RawPostingView>) -> Seq<ListingView>
    decreases raws.len(),
{
    if raws.len() == 0 {
        Seq::empty()
    } else {
        let before = records_of(raws.drop_last());
        match record_of(raws.last()) {
            Some(record) => before.push(record),
            None => before,
        }
    }
}

/// Mathematical content of a sequence of records.
pub open spec fn record_views(records: Seq<ListingRecord>) -> Seq<ListingView> {
    records.map_values(|r: ListingRecord| r@)
}

/// Mathematical content of a sequence of raw postings.
pub open spec fn posting_views(raws: Seq<RawPosting>) -> Seq<RawPostingView> {
    raws.map_values(|r: RawPosting| r@)
}

/// Mathematical content of an optional record.
pub open spec fn opt_record(o: Option<ListingRecord>) -> Option<ListingView> {
    match o {
        Some(r) => Some(r@),
        None => None,
    }
}

/// Resolves the picture address of a posting.
pub fn resolve_image(image: &Option<RawImage>) -> (r: Option<String>)
    ensures
        opt_text(r) == image_address(
            match *image {
                Some(i) => Some(i@),
                None => None,
            },
        ),
{
    let candidate = match image {
        None => None,
        Some(img) => match &img.srcset {
            Some(set) => {
                let last = last_segment_of(set.as_str(), ',');
                first_word_of(last.as_str())
            },
            None => match &img.src {
                Some(src) => Some(src.clone()),
                None => None,
            },
        },
    };
    match candidate {
        Some(address) => {
            let mut url = first_segment_of(address.as_str(), '?');
            url.append(HIGH_RES_QUERY);
            Some(url)
        },
        None => None,
    }
}

/// Applies the extraction rules to one posting container.
pub fn record_from(raw: &RawPosting) -> (r: Option<ListingRecord>)
    ensures
        opt_record(r) == record_of(raw@),
{
    let id = match &raw.ad_id {
        Some(id) => id,
        None => return None,
    };
    let link = match &raw.link {
        Some(link) => link,
        None => return None,
    };
    let href = match &link.href {
        Some(href) => href,
        None => return None,
    };
    let path = to_chars(href.as_str());
    let prefix = to_chars(POSTING_PATH_PREFIX);
    if !starts_with(&path, &prefix) {
        return None;
    }
    let mut address = String::from_str(SITE_ORIGIN);
    address.append(href.as_str());
    Some(
        ListingRecord {
            id: id.clone(),
            title: trim(link.text.as_str()),
            link: address,
            image_url: resolve_image(&raw.image),
        },
    )
}

/// Applies the extraction rules to the posting containers of a page, keeping
/// page order.
pub fn records_from(raws: &Vec<RawPosting>) -> (records: Vec<ListingRecord>)
    ensures
        record_views(records@) == records_of(posting_views(raws@)),
{
    let mut records: Vec<ListingRecord> = Vec::new();
    let mut i: usize = 0;
    while i < raws.len()
        invariant
            i <= raws.len(),
            record_views(records@) == records_of(posting_views(raws@).take(i as int)),
        decreases raws.len() - i,
    {
        let ghost before = record_views(records@);
        let found = record_from(&raws[i]);
        proof {
            let all = posting_views(raws@);
            assert(all.take(i + 1).drop_last() =~= all.take(i as int));
            assert(all.take(i + 1).last() == raws@[i as int]@);
        }
        match found {
            Some(record) => {
                records.push(record);
                assert(record_views(records@) =~= before.push(record@));
            },
            None => {},
        }
        i = i + 1;
    }
    assert(posting_views(raws@).take(raws.len() as int) =~= posting_views(raws@));
    records
}

} // verus!
