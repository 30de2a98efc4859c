//! Reading the posting containers out of a result page.
//!
//! The markup is parsed and queried by the `scraper` crate. Its values are
//! opaque here: each call stands behind a small function whose body is not
//! verified. What a call returns is named rather than computed: the parsed
//! document, the compiled selector, the elements that a selector finds, and
//! what an element holds. What the library decides about a posting is decided
//! on plain values, in [`crate::listing`].

use vstd::prelude::*;
use vstd::string::*;
use vstd::utf8::encode_utf8;
use scraper::error::SelectorErrorKind;
use scraper::{ElementRef, Html, Selector};
use crate::listing::{
    is_extracted, lemma_records_of, posting_views, record_views, records_from, records_of,
    ListingRecord, ListingView, RawImage, RawImageView, RawLink, RawLinkView, RawPosting,
    RawPostingView,
};

verus! {

/// Selector of the posting containers.
pub const CONTAINER_SELECTOR: &'static str = "article.aditem";

/// Selector of the title link inside a container.
pub const TITLE_LINK_SELECTOR: &'static str = "a.ellipsis";

/// Selector of the picture inside a container.
pub const IMAGE_SELECTOR: &'static str = ".aditem-image img";

/// Most bytes of a page that are handed to the parser. The parser keeps text
/// in buffers that hold no more than 2^31 bytes once they grow, and it writes
/// up to three bytes for one byte of the page, so a page within this limit
/// stays within the parser's.
pub const MAX_PAGE_BYTES: usize = 0x2AAA_AAAA;

/// Attribute that carries a posting's identifier.
pub const ID_ATTRIBUTE: &'static str = "data-adid";

/// Attribute that carries the target of a link.
pub const TARGET_ATTRIBUTE: &'static str = "href";

/// Attribute that carries the candidate list of a picture.
pub const CANDIDATES_ATTRIBUTE: &'static str = "srcset";

/// Attribute that carries the single address of a picture.
pub const SOURCE_ATTRIBUTE: &'static str = "src";

/// A parsed document of `scraper`.
#[verifier::external_type_specification]
#[verifier::external_body]
pub struct ExHtml(Html);

/// A compiled selector group of `scraper`.
#[verifier::external_type_specification]
#[verifier::external_body]
pub struct ExSelector(Selector);

/// A reference to an element of a parsed document.
#[verifier::external_type_specification]
#[verifier::external_body]
pub struct ExElementRef<'a>(ElementRef<'a>);

/// The reason why `scraper` refused a selector.
#[verifier::external_type_specification]
#[verifier::external_body]
pub struct ExSelectorErrorKind(SelectorErrorKind);

/// Whether a page is short enough to be handed to the parser: its UTF-8
/// encoding has no more than [`MAX_PAGE_BYTES`] bytes.
pub open spec fn fits_parser(page: Seq<char>) -> bool {
    encode_utf8(page).len() <= MAX_PAGE_BYTES
}

/// The document that `scraper::Html::parse_document` builds from `page`.
pub uninterp spec fn parsed_document(page: Seq<char>) -> Html;

/// Whether `scraper::Selector::parse` accepts `css` as a selector group.
pub uninterp spec fn selector_accepted(css: Seq<char>) -> bool;

/// The selector group that `scraper::Selector::parse` compiles `css` to,
/// where it accepts `css`.
pub uninterp spec fn compiled_selector(css: Seq<char>) -> Selector;

/// The elements of `document` that `scraper::Html::select` yields for
/// `selector`, in the order in which it yields them.
pub uninterp spec fn document_matches(document: Html, selector: Selector) -> Seq<
    ElementRef<'static>,
>;

/// The first element inside `element` that `scraper::ElementRef::select`
/// yields for `selector`, if it yields one.
pub uninterp spec fn first_match(element: ElementRef, selector: Selector) -> Option<ElementRef>;

/// The attributes that an element holds: the values of those of its
/// attributes that have neither prefix nor namespace, by their names. These
/// are the attributes that `scraper::ElementRef::attr` looks up.
pub uninterp spec fn element_attributes(element: ElementRef) -> Map<Seq<char>, Seq<char>>;

/// The text that an element holds: its descendant text nodes in the order in
/// which `scraper::ElementRef::text` yields them, concatenated.
pub uninterp spec fn element_text(element: ElementRef) -> Seq<char>;

/// Calls `scraper::Html::parse_document`, which builds a document tree from
/// any text within the parser's limits. The parser panics where one of its
/// text buffers would outgrow its 32-bit length, so longer pages are left
/// out. The tree depends on the text alone; it is named by
/// [`parsed_document`]. Nothing is claimed of what the tree holds.
#[verifier::external_body]
fn parse_document(page: &str) -> (r: Html)
    requires
        fits_parser(page@),
    ensures
        r == parsed_document(page@),
{
    Html::parse_document(page)
}

/// Calls `scraper::Selector::parse`. Whether it accepts a text, and what it
/// compiles the text to, depends on the text alone; the two are named by
/// [`selector_accepted`] and [`compiled_selector`]. Nothing is claimed of
/// which texts it accepts, nor of what the selector matches.
#[verifier::external_body]
fn compile_selector(css: &str) -> (r: Result<Selector, SelectorErrorKind>)
    ensures
        r is Ok == selector_accepted(css@),
        r matches Ok(selector) ==> selector == compiled_selector(css@),
{
    Selector::parse(css)
}

/// Calls `scraper::Html::select` and collects the elements in the order in
/// which the iterator yields them. They depend on document and selector
/// alone; they are named by [`document_matches`]. Nothing is claimed of which
/// elements match.
#[verifier::external_body]
fn select_all<'a>(document: &'a Html, selector: &Selector) -> (r: Vec<ElementRef<'a>>)
    ensures
        r@ == document_matches(*document, *selector),
{
    document.select(selector).collect()
}

/// Calls `scraper::ElementRef::select` and takes the first element that the
/// iterator yields. It depends on element and selector alone; it is named by
/// [`first_match`]. Nothing is claimed of which element that is.
#[verifier::external_body]
fn select_first<'a>(element: &ElementRef<'a>, selector: &Selector) -> (r: Option<ElementRef<'a>>)
    ensures
        r == first_match(*element, *selector),
{
    element.select(selector).next()
}

/// Calls `scraper::ElementRef::attr` and copies the value: the value that the
/// element holds under `name`, or nothing where it holds none.
#[verifier::external_body]
fn attribute(element: &ElementRef, name: &str) -> (r: Option<String>)
    ensures
        r is Some == element_attributes(*element).dom().contains(name@),
        r matches Some(value) ==> value@ == element_attributes(*element)[name@],
{
    element.attr(name).map(String::from)
}

/// The value that an element holds under an attribute name.
pub open spec fn attribute_of(element: ElementRef, name: Seq<char>) -> Option<Seq<char>> {
    if element_attributes(element).dom().contains(name) {
        Some(element_attributes(element)[name])
    } else {
        None
    }
}

/// Calls `scraper::ElementRef::text` and concatenates the text nodes in the
/// order in which the iterator yields them: the text that the element holds.
#[verifier::external_body]
fn text_content(element: &ElementRef) -> (r: String)
    ensures
        r@ == element_text(*element),
{
    element.text().collect()
}

/// The parts of a title link that the extraction rules look at.
pub open spec fn link_of(element: ElementRef) -> RawLinkView {
    RawLinkView {
        href: attribute_of(element, TARGET_ATTRIBUTE@),
        text: element_text(element),
    }
}

/// The parts of a picture that the extraction rules look at.
pub open spec fn image_of(element: ElementRef) -> RawImageView {
    RawImageView {
        srcset: attribute_of(element, CANDIDATES_ATTRIBUTE@),
        src: attribute_of(element, SOURCE_ATTRIBUTE@),
    }
}

/// The raw posting that a container yields with the given title link and
/// picture: the container's identifier attribute, and the parts of the two
/// elements where there are such elements.
pub open spec fn posting_of(
    article: ElementRef,
    link: Option<ElementRef>,
    image: Option<ElementRef>,
) -> RawPostingView {
    RawPostingView {
        ad_id: attribute_of(article, ID_ATTRIBUTE@),
        link: match link {
            Some(element) => Some(link_of(element)),
            None => None,
        },
        image: match image {
            Some(element) => Some(image_of(element)),
            None => None,
        },
    }
}

/// The raw posting that a container yields: its identifier attribute, and
/// the parts of the first title link and of the first picture inside it.
pub open spec fn container_posting(article: ElementRef) -> RawPostingView {
    posting_of(
        article,
        first_match(article, compiled_selector(TITLE_LINK_SELECTOR@)),
        first_match(article, compiled_selector(IMAGE_SELECTOR@)),
    )
}

/// The raw postings of a page: what each posting container of the parsed
/// page yields, in the order in which the selector engine yields the
/// containers.
pub open spec fn page_postings(page: Seq<char>) -> Seq<RawPostingView> {
    document_matches(
        parsed_document(page),
        compiled_selector(CONTAINER_SELECTOR@),
    ).map_values(|article: ElementRef<'static>| container_posting(article))
}

/// The records of a page: what the extraction rules make of its raw
/// postings, or nothing where the page is too long for the parser or the
/// selector engine refuses a selector.
pub open spec fn page_records(page: Seq<char>) -> Seq<ListingView> {
    if fits_parser(page) && selectors_accepted() {
        records_of(page_postings(page))
    } else {
        Seq::empty()
    }
}

/// Whether the selector engine accepts the three selectors that locate a
/// posting and its parts.
pub open spec fn selectors_accepted() -> bool {
    &&& selector_accepted(CONTAINER_SELECTOR@)
    &&& selector_accepted(TITLE_LINK_SELECTOR@)
    &&& selector_accepted(IMAGE_SELECTOR@)
}

/// The three selectors that locate a posting and its parts.
struct PageSelectors {
    container: Selector,
    title_link: Selector,
    image: Selector,
}

impl PageSelectors {
    /// Whether these are the selectors that the three selector texts compile to.
    spec fn compiled(self) -> bool {
        &&& self.container == compiled_selector(CONTAINER_SELECTOR@)
        &&& self.title_link == compiled_selector(TITLE_LINK_SELECTOR@)
        &&& self.image == compiled_selector(IMAGE_SELECTOR@)
    }
}

/// Compiles the selectors; `None` where the selector engine refuses one.
fn compile_selectors() -> (r: Option<PageSelectors>)
    ensures
        r is Some == selectors_accepted(),
        r matches Some(selectors) ==> selectors.compiled(),
{
    let container = match compile_selector(CONTAINER_SELECTOR) {
        Ok(s) => s,
        Err(_) => return None,
    };
    let title_link = match compile_selector(TITLE_LINK_SELECTOR) {
        Ok(s) => s,
        Err(_) => return None,
    };
    let image = match compile_selector(IMAGE_SELECTOR) {
        Ok(s) => s,
        Err(_) => return None,
    };
    Some(PageSelectors { container, title_link, image })
}

/// Reads the parts of one posting container that the extraction rules look
/// at: its identifier attribute, and target and text of the first title link
/// and candidate list and single address of the first picture inside it.
fn read_posting(article: &ElementRef, selectors: &PageSelectors) -> (raw: RawPosting)
    ensures
        raw@ == posting_of(
            *article,
            first_match(*article, selectors.title_link),
            first_match(*article, selectors.image),
        ),
{
    let ad_id = attribute(article, ID_ATTRIBUTE);
    let link = match select_first(article, &selectors.title_link) {
        Some(element) => Some(
            RawLink { href: attribute(&element, TARGET_ATTRIBUTE), text: text_content(&element) },
        ),
        None => None,
    };
    let image = match select_first(article, &selectors.image) {
        Some(element) => Some(
            RawImage {
                srcset: attribute(&element, CANDIDATES_ATTRIBUTE),
                src: attribute(&element, SOURCE_ATTRIBUTE),
            },
        ),
        None => None,
    };
    RawPosting { ad_id, link, image }
}

/// Reads every posting container of a page, in the order in which the
/// selector engine yields them. Nothing is read where the page is too long
/// for the parser or the selector engine refuses a selector.
fn read_postings(page: &str) -> (raws: Vec<RawPosting>)
    ensures
        fits_parser(page@) && selectors_accepted() ==> posting_views(raws@) == page_postings(
            page@,
        ),
        !(fits_parser(page@) && selectors_accepted()) ==> raws.len() == 0,
{
    let mut raws: Vec<RawPosting> = Vec::new();
    if page.as_bytes().len() > MAX_PAGE_BYTES {
        return raws;
    }
    let selectors = match compile_selectors() {
        Some(s) => s,
        None => return raws,
    };
    let document = parse_document(page);
    let articles = select_all(&document, &selectors.container);
    let mut i: usize = 0;
    while i < articles.len()
        invariant
            i <= articles.len(),
            raws.len() == i,
            selectors.compiled(),
            forall|j: int| 0 <= j < i ==> (#[trigger] raws[j])@ == container_posting(articles[j]),
        decreases articles.len() - i,
    {
        raws.push(read_posting(&articles[i], &selectors));
        i = i + 1;
    }
    assert(posting_views(raws@) =~= page_postings(page@));
    raws
}

/// Extracts the listing records of a result page, in page order.
///
/// Never fails: markup without the expected structure yields fewer records or
/// none, and so does a page of more than [`MAX_PAGE_BYTES`] bytes, which is
/// not parsed. The result depends on the page alone: it is what the
/// extraction rules make of the raw postings of the page, and so every record
/// has the shape of an extracted record.
pub fn extract(page: &str) -> (records: Vec<ListingRecord>)
    ensures
        record_views(records@) == page_records(page@),
        records.len() == page_records(page@).len(),
        forall|i: int| 0 <= i < records.len() ==> is_extracted(#[trigger] records[i]@),
{
    let raws = read_postings(page);
    let records = records_from(&raws);
    proof {
        lemma_records_of(posting_views(raws@));
        assert forall|i: int| 0 <= i < records.len() implies is_extracted(
            #[trigger] records[i]@,
        ) by {
            assert(record_views(records@)[i] == records[i]@);
        }
    }
    records
}

} // verus!
