//! Job boards, job offers and the extraction of offers from a board's page.

use crate::markup::attribute;
use crate::markup::element_attr;
use crate::markup::element_text;
use crate::markup::first_inside;
use crate::markup::inner_text;
use crate::markup::parse_document;
use crate::markup::parse_selector;
use crate::markup::parsed_document;
use crate::markup::parsed_selector;
use crate::markup::select_all;
use crate::markup::select_first;
use crate::markup::selected;
use scraper::ElementRef;
use scraper::Selector;
use vstd::pervasive::unreached;
use vstd::prelude::*;
use vstd::string::StringExecFns;
use vstd::utf8::encode_utf8;
use vstd::utf8::encode_utf8_decode_utf8;

verus! {

/// The job board an offer comes from.
#[non_exhaustive]
#[derive(Clone, Copy, Debug, PartialEq, Eq, Structural)]
pub enum Source {
    NotProvided,
    JustJoinIt,
    NoFluffJobs,
    PracujPl,
}

impl Source {
    /// Whether this is one of the three boards, and not the placeholder.
    pub open spec fn is_board(self) -> bool {
        self != Source::NotProvided
    }

    /// The name a board is shown under.
    pub open spec fn display_name(self) -> Seq<char> {
        match self {
            Source::JustJoinIt => "justjoin.it"@,
            Source::NoFluffJobs => "nofluffjobs.com"@,
            Source::PracujPl => "pracuj.pl"@,
            Source::NotProvided => "-"@,
        }
    }

    /// What stands before a link read from a board's page to make it a full
    /// address; `None` where the page already gives full addresses.
    pub open spec fn origin(self) -> Option<Seq<char>> {
        match self {
            Source::JustJoinIt => Some("https://justjoin.it"@),
            Source::NoFluffJobs => Some("https://nofluffjobs.com"@),
            Source::PracujPl => None,
            Source::NotProvided => None,
        }
    }

    /// The name this board is shown under.
    pub fn value(&self) -> (name: &'static str)
        ensures
            name@ == self.display_name(),
    {
        match *self {
            Source::JustJoinIt => "justjoin.it",
            Source::NoFluffJobs => "nofluffjobs.com",
            Source::PracujPl => "pracuj.pl",
            Source::NotProvided => "-",
        }
    }

    /// The prefix that completes this board's links, if they need one.
    pub fn link_prefix(&self) -> (prefix: Option<&'static str>)
        ensures
            text_of(prefix) == self.origin(),
    {
        match *self {
            Source::JustJoinIt => Some("https://justjoin.it"),
            Source::NoFluffJobs => Some("https://nofluffjobs.com"),
            Source::PracujPl => None,
            Source::NotProvided => None,
        }
    }
}

/// The characters of an optional string slice.
pub open spec fn text_of(s: Option<&str>) -> Option<Seq<char>> {
    match s {
        Some(s) => Some(s@),
        None => None,
    }
}

/// The characters of an optional string.
pub open spec fn string_of(s: Option<String>) -> Option<Seq<char>> {
    match s {
        Some(s) => Some(s@),
        None => None,
    }
}

/// What a board's page says about one offer, as read.
#[derive(Debug, PartialEq, Eq)]
pub struct Listing {
    pub title: Option<String>,
    pub company: Option<String>,
    pub location: Option<String>,
    /// The link as the page gives it: a path on some boards, a full address on others.
    pub href: Option<String>,
}

/// A listing as plain text.
pub struct ListingView {
    pub title: Option<Seq<char>>,
    pub company: Option<Seq<char>>,
    pub location: Option<Seq<char>>,
    pub href: Option<Seq<char>>,
}

impl View for Listing {
    type V = ListingView;

    open spec fn view(&self) -> ListingView {
        ListingView {
            title: string_of(self.title),
            company: string_of(self.company),
            location: string_of(self.location),
            href: string_of(self.href),
        }
    }
}

/// One job offer.
#[derive(Clone, Debug, PartialEq, Eq)]
pub struct JobOffer {
    pub title: Option<String>,
    pub company: Option<String>,
    pub location: Option<String>,
    /// The full address of the offer.
    pub link: Option<String>,
    pub source: Option<Source>,
}

/// A job offer as plain text.
pub struct JobOfferView {
    pub title: Option<Seq<char>>,
    pub company: Option<Seq<char>>,
    pub location: Option<Seq<char>>,
    pub link: Option<Seq<char>>,
    pub source: Option<Source>,
}

impl View for JobOffer {
    type V = JobOfferView;

    open spec fn view(&self) -> JobOfferView {
        JobOfferView {
            title: string_of(self.title),
            company: string_of(self.company),
            location: string_of(self.location),
            link: string_of(self.link),
            source: self.source,
        }
    }
}

/// The full address for a link read from a board's page.
pub open spec fn full_link(source: Source, href: Seq<char>) -> Seq<char> {
    match source.origin() {
        Some(origin) => origin + href,
        None => href,
    }
}

/// The offer that a listing on a board's page stands for: the fields as read,
/// the link made a full address, and the board as the source.
pub open spec fn offer_of(source: Source, listing: ListingView) -> JobOfferView {
    JobOfferView {
        title: listing.title,
        company: listing.company,
        location: listing.location,
        link: match listing.href {
            Some(href) => Some(full_link(source, href)),
            None => None,
        },
        source: Some(source),
    }
}

/// A link read from the page of JustJoinIt or NoFluffJobs becomes a full address
/// by putting the board's origin before it; a link read from the page of
/// PracujPl is a full address already and stays as it is.
pub proof fn lemma_full_link(href: Seq<char>)
    ensures
        full_link(Source::JustJoinIt, href) == "https://justjoin.it"@ + href,
        full_link(Source::NoFluffJobs, href) == "https://nofluffjobs.com"@ + href,
        full_link(Source::PracujPl, href) == href,
{
}

/// Puts `prefix` before `href`.
pub fn create_link_with_prefix(prefix: &str, href: String) -> (link: String)
    ensures
        link@ == prefix@ + href@,
{
    let mut link = String::from_str(prefix);
    link.append(href.as_str());
    link
}

impl JobOffer {
    /// Builds the offer of the board `source` that `listing` stands for. Fields
    /// that the page did not give stay absent.
    pub fn from_listing(source: Source, listing: Listing) -> (offer: JobOffer)
        requires
            source.is_board(),
        ensures
            offer@ == offer_of(source, listing@),
    {
        let link = match listing.href {
            Some(href) => match source.link_prefix() {
                Some(prefix) => Some(create_link_with_prefix(prefix, href)),
                None => Some(href),
            },
            None => None,
        };
        JobOffer {
            title: listing.title,
            company: listing.company,
            location: listing.location,
            link,
            source: Some(source),
        }
    }

    /// What `describe` returns for an offer with this title and source.
    pub open spec fn description(title: Seq<char>, source: Source) -> Seq<char> {
        "Job offer with title: "@ + title + ", from: "@ + source.display_name()
    }

    /// A one-line description of the offer.
    pub fn describe(&self) -> (line: String)
        requires
            self.title is Some,
            self.source is Some,
        ensures
            line@ == Self::description(self.title->0@, self.source->0),
    {
        let mut line = String::from_str("Job offer with title: ");
        match &self.title {
            Some(title) => line.append(title.as_str()),
            None => {},
        }
        line.append(", from: ");
        match &self.source {
            Some(source) => line.append(source.value()),
            None => {},
        }
        line
    }
}

/// Whether two string slices hold the same text.
pub fn same_text(a: &str, b: &str) -> (same: bool)
    ensures
        same == (a@ == b@),
{
    let left = a.as_bytes();
    let right = b.as_bytes();
    proof {
        encode_utf8_decode_utf8(a@);
        encode_utf8_decode_utf8(b@);
    }
    if left.len() != right.len() {
        return false;
    }
    let mut i: usize = 0;
    while i < left.len()
        invariant
            i <= left.len(),
            left.len() == right.len(),
            left@ == encode_utf8(a@),
            right@ == encode_utf8(b@),
            forall|k: int| 0 <= k < i ==> left[k] == right[k],
        decreases left.len() - i,
    {
        if left[i] != right[i] {
            return false;
        }
        i += 1;
    }
    assert(left@ =~= right@);
    true
}

/// Whether offers can be asked for by this technology.
pub open spec fn tech_available(tech: Seq<char>) -> bool {
    tech == "java"@ || tech == "python"@
}

/// The technology that a page is asked for: `tech` where it is available,
/// else Java.
pub open spec fn asked_tech(tech: Seq<char>) -> Seq<char> {
    if tech_available(tech) {
        tech
    } else {
        "java"@
    }
}

/// The address of the page that lists a board's junior offers for a technology.
pub open spec fn page_address(source: Source, tech: Seq<char>) -> Seq<char>
    recommends
        source.is_board(),
{
    match source {
        Source::JustJoinIt => "https://justjoin.it/job-offers/all-locations/"@ + asked_tech(tech)
            + "?experience-level=junior"@,
        Source::NoFluffJobs => "https://nofluffjobs.com/pl/"@ + asked_tech(tech)
            + "?criteria=seniority%3Dtrainee%2Cjunior"@,
        Source::PracujPl => if tech == "python"@ {
            "https://it.pracuj.pl/praca?et=1%2C3%2C17&itth=37"@
        } else {
            "https://it.pracuj.pl/praca?et=1%2C3%2C17&itth=38"@
        },
        Source::NotProvided => arbitrary(),
    }
}

/// Whether `tech` is one of the technologies that offers can be asked for by.
pub fn is_available_tech(tech: &str) -> (available: bool)
    ensures
        available == tech_available(tech@),
{
    same_text(tech, "java") || same_text(tech, "python")
}

/// The address to fetch a board's page from. A technology that is not
/// available is asked for as Java.
pub fn request_url(source: Source, tech: &str) -> (url: String)
    requires
        source.is_board(),
    ensures
        url@ == page_address(source, tech@),
{
    let asked = if is_available_tech(tech) {
        tech
    } else {
        "java"
    };
    match source {
        Source::JustJoinIt => {
            let mut url = String::from_str("https://justjoin.it/job-offers/all-locations/");
            url.append(asked);
            url.append("?experience-level=junior");
            url
        },
        Source::NoFluffJobs => {
            let mut url = String::from_str("https://nofluffjobs.com/pl/");
            url.append(asked);
            url.append("?criteria=seniority%3Dtrainee%2Cjunior");
            url
        },
        Source::PracujPl => {
            if same_text(tech, "python") {
                String::from_str("https://it.pracuj.pl/praca?et=1%2C3%2C17&itth=37")
            } else {
                String::from_str("https://it.pracuj.pl/praca?et=1%2C3%2C17&itth=38")
            }
        },
        Source::NotProvided => unreached(),
    }
}

/// The parts of a board's page that a selector finds.
#[derive(Clone, Copy, Debug, PartialEq, Eq, Structural)]
pub enum Part {
    /// The element that holds one offer.
    Container,
    Title,
    Company,
    Location,
    /// The anchor that holds an offer's link.
    Anchor,
}

/// The selector patterns of one board: how an offer's container is found on its
/// page, and each field inside a container.
#[derive(Clone, Copy, Debug, PartialEq, Eq)]
pub struct SiteConfig {
    pub container: &'static str,
    pub title: &'static str,
    pub company: &'static str,
    pub location: &'static str,
    /// The anchor whose `href` is the offer's link; `None` where the container
    /// itself carries the `href`.
    pub anchor: Option<&'static str>,
}

impl SiteConfig {
    /// The first pattern, in the order of the fields, that is not a selector;
    /// `None` where all of them are.
    pub open spec fn refused(self) -> Option<Part> {
        if parsed_selector(self.container@) is None {
            Some(Part::Container)
        } else if parsed_selector(self.title@) is None {
            Some(Part::Title)
        } else if parsed_selector(self.company@) is None {
            Some(Part::Company)
        } else if parsed_selector(self.location@) is None {
            Some(Part::Location)
        } else if self.anchor is Some && parsed_selector(self.anchor->0@) is None {
            Some(Part::Anchor)
        } else {
            None
        }
    }

    /// The text of the first element inside `container` that `pattern` finds;
    /// `None` where it finds none.
    pub open spec fn nested_text(container: ElementRef<'static>, pattern: Seq<char>) -> Option<
        Seq<char>,
    > {
        match first_inside(container, parsed_selector(pattern)->0) {
            Some(element) => Some(inner_text(element)),
            None => None,
        }
    }

    /// The `href` of an offer: that of the container where the board has no
    /// anchor pattern, else that of the first anchor inside the container;
    /// `None` where there is no such anchor or it has no `href`.
    pub open spec fn href(self, container: ElementRef<'static>) -> Option<Seq<char>> {
        match self.anchor {
            None => attribute(container, "href"@),
            Some(pattern) => match first_inside(container, parsed_selector(pattern@)->0) {
                Some(anchor) => attribute(anchor, "href"@),
                None => None,
            },
        }
    }

    /// What a container says about its offer: each field is the text of the
    /// first element inside the container that the field's pattern finds.
    pub open spec fn listing(self, container: ElementRef<'static>) -> ListingView {
        ListingView {
            title: Self::nested_text(container, self.title@),
            company: Self::nested_text(container, self.company@),
            location: Self::nested_text(container, self.location@),
            href: self.href(container),
        }
    }

    /// The containers of a page, in the order in which the page is searched.
    pub open spec fn containers(self, html: Seq<char>) -> Seq<ElementRef<'static>> {
        selected(parsed_document(html), parsed_selector(self.container@)->0)
    }

    /// The offers that a page gives for `source`, as plain text: one for each
    /// container, in the order of the containers.
    pub open spec fn offers(self, source: Source, html: Seq<char>) -> Seq<JobOfferView>
        recommends
            self.refused() is None,
    {
        let containers = self.containers(html);
        Seq::new(containers.len(), |i: int| offer_of(source, self.listing(containers[i])))
    }
}

impl Source {
    /// The selector patterns of a board.
    pub open spec fn site_config(self) -> SiteConfig
        recommends
            self.is_board(),
    {
        match self {
            Source::JustJoinIt => SiteConfig {
                container: "div.MuiBox-root.css-8xzgzu",
                title: "h3.css-3hs82j",
                company: "span",
                location: "span.css-1o4wo1x",
                anchor: Some("a"),
            },
            Source::NoFluffJobs => SiteConfig {
                container: "a.posting-list-item",
                title: "h3.posting-title__position",
                company: "h4.company-name",
                location: "span.tw-text-right",
                anchor: None,
            },
            Source::PracujPl => SiteConfig {
                container: "div.tiles_cobg3mp",
                title: "h2.tiles_h1p4o5k6",
                company: "h3.tiles_chl8gsf.size-caption.core_t1rst47b",
                location: "h4.size-caption.core_t1rst47b",
                anchor: Some("a.core_n194fgoq"),
            },
            Source::NotProvided => arbitrary(),
        }
    }

    /// The selector patterns of this board.
    pub fn config(&self) -> (config: SiteConfig)
        requires
            self.is_board(),
        ensures
            config == self.site_config(),
    {
        match *self {
            Source::JustJoinIt => SiteConfig {
                container: "div.MuiBox-root.css-8xzgzu",
                title: "h3.css-3hs82j",
                company: "span",
                location: "span.css-1o4wo1x",
                anchor: Some("a"),
            },
            Source::NoFluffJobs => SiteConfig {
                container: "a.posting-list-item",
                title: "h3.posting-title__position",
                company: "h4.company-name",
                location: "span.tw-text-right",
                anchor: None,
            },
            Source::PracujPl => SiteConfig {
                container: "div.tiles_cobg3mp",
                title: "h2.tiles_h1p4o5k6",
                company: "h3.tiles_chl8gsf.size-caption.core_t1rst47b",
                location: "h4.size-caption.core_t1rst47b",
                anchor: Some("a.core_n194fgoq"),
            },
            Source::NotProvided => unreached(),
        }
    }
}

/// The offers of a board's page, as plain text.
pub open spec fn page_offers(source: Source, html: Seq<char>) -> Seq<JobOfferView>
    recommends
        source.is_board(),
{
    source.site_config().offers(source, html)
}

/// A sequence of offers as plain text.
pub open spec fn offer_views(offers: Seq<JobOffer>) -> Seq<JobOfferView> {
    Seq::new(offers.len(), |i: int| offers[i]@)
}

/// Why a page could not be searched.
#[derive(Clone, Copy, Debug, PartialEq, Eq, Structural)]
pub enum ScrapError {
    /// The pattern for this part of the page is not a selector.
    InvalidSelector { part: Part },
}

/// The compiled selectors of one board.
struct SiteSelectors {
    container: Selector,
    title: Selector,
    company: Selector,
    location: Selector,
    anchor: Option<Selector>,
}

impl SiteSelectors {
    /// Whether these are the selectors that `config`'s patterns compile to.
    spec fn compiled_from(self, config: SiteConfig) -> bool {
        &&& parsed_selector(config.container@) == Some(self.container)
        &&& parsed_selector(config.title@) == Some(self.title)
        &&& parsed_selector(config.company@) == Some(self.company)
        &&& parsed_selector(config.location@) == Some(self.location)
        &&& match config.anchor {
            Some(pattern) => parsed_selector(pattern@) == self.anchor && self.anchor is Some,
            None => self.anchor is None,
        }
    }

    /// Compiles one pattern, naming the part it finds where it is refused.
    fn compile_part(pattern: &str, part: Part) -> (outcome: Result<Selector, ScrapError>)
        ensures
            match outcome {
                Ok(selector) => parsed_selector(pattern@) == Some(selector),
                Err(error) => parsed_selector(pattern@) is None && error == (
                ScrapError::InvalidSelector { part }),
            },
    {
        match parse_selector(pattern) {
            Ok(selector) => Ok(selector),
            Err(_) => Err(ScrapError::InvalidSelector { part }),
        }
    }

    /// Compiles the patterns of a board, in the order of the fields.
    fn compile(config: &SiteConfig) -> (outcome: Result<SiteSelectors, ScrapError>)
        ensures
            match outcome {
                Ok(selectors) => config.refused() is None && selectors.compiled_from(*config),
                Err(error) => config.refused() is Some && error == (ScrapError::InvalidSelector {
                    part: config.refused()->0,
                }),
            },
    {
        let container = Self::compile_part(config.container, Part::Container)?;
        let title = Self::compile_part(config.title, Part::Title)?;
        let company = Self::compile_part(config.company, Part::Company)?;
        let location = Self::compile_part(config.location, Part::Location)?;
        let anchor = match config.anchor {
            Some(pattern) => Some(Self::compile_part(pattern, Part::Anchor)?),
            None => None,
        };
        Ok(SiteSelectors { container, title, company, location, anchor })
    }

    /// Reads the text of the first element inside `container` that `selector`
    /// finds.
    fn read_text(container: ElementRef<'_>, selector: &Selector) -> (text: Option<String>)
        ensures
            string_of(text) == (match first_inside(container, *selector) {
                Some(element) => Some(inner_text(element)),
                None => None,
            }),
    {
        match select_first(container, selector) {
            Some(element) => Some(element_text(element)),
            None => None,
        }
    }

    /// Reads what `container` says about its offer.
    fn read_listing(&self, container: ElementRef<'_>, Ghost(config): Ghost<SiteConfig>) -> (listing:
        Listing)
        requires
            self.compiled_from(config),
        ensures
            listing@ == config.listing(container),
    {
        let title = Self::read_text(container, &self.title);
        let company = Self::read_text(container, &self.company);
        let location = Self::read_text(container, &self.location);
        let href = match &self.anchor {
            None => element_attr(container, "href"),
            Some(selector) => match select_first(container, selector) {
                Some(anchor) => element_attr(anchor, "href"),
                None => None,
            },
        };
        Listing { title, company, location, href }
    }
}

/// Extracts the offers of the board `source` from the text of a page, by the
/// patterns of `config`: one offer for each container on the page, in the order
/// of the containers. A field whose element is not found in a container is
/// absent in that offer; the offer is kept. Fails only where one of the patterns
/// is not a selector, naming the first such part.
pub fn extract_offers(source: Source, config: &SiteConfig, html: &str) -> (outcome: Result<
    Vec<JobOffer>,
    ScrapError,
>)
    requires
        source.is_board(),
    ensures
        match outcome {
            Ok(offers) => config.refused() is None && offer_views(offers@) == config.offers(
                source,
                html@,
            ),
            Err(error) => config.refused() is Some && error == (ScrapError::InvalidSelector {
                part: config.refused()->0,
            }),
        },
{
    let selectors = SiteSelectors::compile(config)?;
    let page = parse_document(html);
    let containers = select_all(&page, &selectors.container);
    let mut offers: Vec<JobOffer> = Vec::new();
    let mut i: usize = 0;
    while i < containers.len()
        invariant
            i <= containers.len(),
            source.is_board(),
            selectors.compiled_from(*config),
            containers@ == config.containers(html@),
            offers.len() == i,
            forall|k: int|
                0 <= k < i ==> (#[trigger] offers[k])@ == offer_of(
                    source,
                    config.listing(containers[k]),
                ),
        decreases containers.len() - i,
    {
        let listing = selectors.read_listing(containers[i], Ghost(*config));
        offers.push(JobOffer::from_listing(source, listing));
        i += 1;
    }
    assert(offer_views(offers@) =~= config.offers(source, html@));
    Ok(offers)
}

/// Extracts the offers from the text of a board's page, by the board's own
/// patterns: one offer for each container on the page, in the order of the
/// containers, each with the board as its source.
pub fn scrap_job_offers(source: Source, html: &str) -> (outcome: Result<Vec<JobOffer>, ScrapError>)
    requires
        source.is_board(),
    ensures
        match outcome {
            Ok(offers) => source.site_config().refused() is None && offer_views(offers@)
                == page_offers(source, html@),
            Err(error) => source.site_config().refused() is Some && error == (
            ScrapError::InvalidSelector { part: source.site_config().refused()->0 }),
        },
{
    let config = source.config();
    extract_offers(source, &config, html)
}

/// A page gives exactly one offer for each of its containers, and the offer at
/// each position is read from the container at that position.
pub proof fn lemma_one_offer_per_container(config: SiteConfig, source: Source, html: Seq<char>)
    ensures
        config.offers(source, html).len() == config.containers(html).len(),
        forall|i: int|
            0 <= i < config.offers(source, html).len() ==> #[trigger] config.offers(source, html)[i]
                == offer_of(source, config.listing(config.containers(html)[i])),
{
}

/// Every offer read from a page for a board carries that board as its source,
/// and so never the placeholder.
pub proof fn lemma_offers_carry_source(config: SiteConfig, source: Source, html: Seq<char>)
    requires
        source.is_board(),
    ensures
        forall|i: int|
            0 <= i < config.offers(source, html).len() ==> (#[trigger] config.offers(
                source,
                html,
            )[i]).source == Some(source),
        forall|i: int|
            0 <= i < config.offers(source, html).len() ==> (#[trigger] config.offers(
                source,
                html,
            )[i]).source != Some(Source::NotProvided),
{
}

/// A container in which no element is found for the title still gives its
/// offer, at its own position, with the title absent; so for the company, the
/// location and the link.
pub proof fn lemma_missing_field_keeps_offer(
    config: SiteConfig,
    source: Source,
    html: Seq<char>,
    i: int,
)
    requires
        0 <= i < config.containers(html).len(),
    ensures
        i < config.offers(source, html).len(),
        first_inside(config.containers(html)[i], parsed_selector(config.title@)->0) is None
            ==> config.offers(source, html)[i].title is None,
        first_inside(config.containers(html)[i], parsed_selector(config.company@)->0) is None
            ==> config.offers(source, html)[i].company is None,
        first_inside(config.containers(html)[i], parsed_selector(config.location@)->0) is None
            ==> config.offers(source, html)[i].location is None,
        config.href(config.containers(html)[i]) is None ==> config.offers(
            source,
            html,
        )[i].link is None,
{
}

/// The three boards, in the order in which their pages are fetched and their
/// offers joined.
pub open spec fn board_order() -> Seq<Source> {
    seq![Source::JustJoinIt, Source::NoFluffJobs, Source::PracujPl]
}

/// The three boards, in the order in which their offers are gathered.
pub fn boards() -> (all: Vec<Source>)
    ensures
        all@ == board_order(),
{
    let mut all: Vec<Source> = Vec::new();
    all.push(Source::JustJoinIt);
    all.push(Source::NoFluffJobs);
    all.push(Source::PracujPl);
    all
}

/// The offers of all sites in one sequence: those of the first site in their
/// order, then those of the second, and so on.
pub open spec fn concatenated(per_site: Seq<Vec<JobOffer>>) -> Seq<JobOffer>
    decreases per_site.len(),
{
    if per_site.len() == 0 {
        Seq::empty()
    } else {
        concatenated(per_site.drop_last()) + per_site.last()@
    }
}

/// Joins the offers of the sites into one sequence, site after site, without
/// reordering or dropping any.
pub fn aggregate(per_site: Vec<Vec<JobOffer>>) -> (all: Vec<JobOffer>)
    ensures
        all@ == concatenated(per_site@),
{
    let ghost sites = per_site@;
    let mut all: Vec<JobOffer> = Vec::new();
    for site in iter: per_site
        invariant
            iter.seq() == sites,
            all@ == concatenated(sites.take(iter.index() as int)),
    {
        let mut site = site;
        proof {
            let done = iter.index() as int;
            assert(sites.take(done + 1).drop_last() =~= sites.take(done));
            assert(sites.take(done + 1).last() == sites[done]);
        }
        all.append(&mut site);
    }
    proof {
        assert(sites.take(sites.len() as int) =~= sites);
    }
    all
}

/// In the joined sequence the offers of site `k` stand together, in their own
/// order, right after all the offers of the sites before it.
pub proof fn lemma_aggregation_keeps_order(per_site: Seq<Vec<JobOffer>>, k: int, j: int)
    requires
        0 <= k < per_site.len(),
        0 <= j < per_site[k]@.len(),
    ensures
        concatenated(per_site.take(k)).len() + j < concatenated(per_site).len(),
        concatenated(per_site)[concatenated(per_site.take(k)).len() + j] == per_site[k]@[j],
    decreases per_site.len(),
{
    if k == per_site.len() - 1 {
        assert(per_site.take(k) =~= per_site.drop_last());
    } else {
        lemma_aggregation_keeps_order(per_site.drop_last(), k, j);
        assert(per_site.drop_last().take(k) =~= per_site.take(k));
    }
}

} // verus!
