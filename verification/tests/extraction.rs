use pracus::job_offers_scraper::extract_offers;
use pracus::job_offers_scraper::scrap_job_offers;
use pracus::job_offers_scraper::JobOffer;
use pracus::job_offers_scraper::Part;
use pracus::job_offers_scraper::ScrapError;
use pracus::job_offers_scraper::SiteConfig;
use pracus::job_offers_scraper::Source;

const JUST_JOIN_IT_PAGE: &str = r#"<!DOCTYPE html>
<html><head><title>offers</title></head><body>
<div class="MuiBox-root css-8xzgzu">
  <a href="/jobs/123"><h3 class="css-3hs82j">Junior Java Developer</h3></a>
  <span>Acme</span>
  <span class="css-1o4wo1x">Warszawa</span>
</div>
<div class="MuiBox-root css-other"><h3 class="css-3hs82j">Not an offer</h3></div>
<div class="MuiBox-root css-8xzgzu">
  <a href="/jobs/456"><h3 class="css-3hs82j">Python Intern</h3></a>
  <a href="/jobs/second">more</a>
  <span>Beta <b>Labs</b></span>
  <span class="css-1o4wo1x">Remote</span>
</div>
<div class="MuiBox-root css-8xzgzu">
  <a href="/jobs/789"><h3 class="css-3hs82j">Rust Trainee</h3></a>
  <span>Gamma</span>
  <span class="css-1o4wo1x">Gdansk</span>
</div>
</body></html>"#;

const NO_FLUFF_JOBS_PAGE: &str = r#"<html><body><main>
<a class="posting-list-item" href="/pl/job/first"><h3 class="posting-title__position"> Backend Dev </h3><h4 class="company-name">NFJ One</h4><span class="tw-text-right">Krakow</span></a>
<a class="other" href="/pl/job/skipped"><h3 class="posting-title__position">Skipped</h3></a>
<a class="posting-list-item" href="/pl/job/second"><h3 class="posting-title__position">Data Engineer</h3><h4 class="company-name">NFJ Two</h4><span class="tw-text-right">Remote</span></a>
</main></body></html>"#;

const PRACUJ_PL_PAGE: &str = r#"<html><body>
<div class="tiles_cobg3mp">
  <h2 class="tiles_h1p4o5k6">Mlodszy Programista</h2>
  <h3 class="tiles_chl8gsf size-caption core_t1rst47b">Firma</h3>
  <h4 class="size-caption core_t1rst47b">Poznan</h4>
  <a class="core_n194fgoq" href="https://www.pracuj.pl/praca/mlodszy,oferta,1">zobacz</a>
</div>
<div class="tiles_cobg3mp">
  <h2 class="tiles_h1p4o5k6">Tester</h2>
  <h3 class="tiles_chl8gsf size-caption core_t1rst47b">Inna Firma</h3>
  <h4 class="size-caption core_t1rst47b">Lodz</h4>
  <a class="plain" href="https://www.pracuj.pl/praca/not-this-one">x</a>
  <a class="core_n194fgoq" href="https://www.pracuj.pl/praca/tester,oferta,2">zobacz</a>
</div>
</body></html>"#;

fn text(value: &str) -> Option<String> {
    Some(value.to_string())
}

fn offers(source: Source, html: &str) -> Vec<JobOffer> {
    scrap_job_offers(source, html).expect("the board's patterns are selectors")
}

#[test]
fn just_join_it_gives_one_offer_per_container_in_page_order() {
    let found = offers(Source::JustJoinIt, JUST_JOIN_IT_PAGE);
    assert_eq!(found.len(), 3);
    assert_eq!(
        found[0],
        JobOffer {
            title: text("Junior Java Developer"),
            company: text("Acme"),
            location: text("Warszawa"),
            link: text("https://justjoin.it/jobs/123"),
            source: Some(Source::JustJoinIt),
        }
    );
    assert_eq!(found[1].title, text("Python Intern"));
    assert_eq!(found[2].title, text("Rust Trainee"));
}

#[test]
fn no_fluff_jobs_gives_one_offer_per_container_in_page_order() {
    let found = offers(Source::NoFluffJobs, NO_FLUFF_JOBS_PAGE);
    assert_eq!(found.len(), 2);
    assert_eq!(
        found[0],
        JobOffer {
            title: text(" Backend Dev "),
            company: text("NFJ One"),
            location: text("Krakow"),
            link: text("https://nofluffjobs.com/pl/job/first"),
            source: Some(Source::NoFluffJobs),
        }
    );
    assert_eq!(
        found[1],
        JobOffer {
            title: text("Data Engineer"),
            company: text("NFJ Two"),
            location: text("Remote"),
            link: text("https://nofluffjobs.com/pl/job/second"),
            source: Some(Source::NoFluffJobs),
        }
    );
}

#[test]
fn pracuj_pl_gives_one_offer_per_container_in_page_order() {
    let found = offers(Source::PracujPl, PRACUJ_PL_PAGE);
    assert_eq!(found.len(), 2);
    assert_eq!(
        found[0],
        JobOffer {
            title: text("Mlodszy Programista"),
            company: text("Firma"),
            location: text("Poznan"),
            link: text("https://www.pracuj.pl/praca/mlodszy,oferta,1"),
            source: Some(Source::PracujPl),
        }
    );
    assert_eq!(found[1].title, text("Tester"));
    assert_eq!(found[1].company, text("Inna Firma"));
    assert_eq!(found[1].location, text("Lodz"));
}

#[test]
fn every_offer_carries_the_board_it_was_read_for() {
    for offer in offers(Source::JustJoinIt, JUST_JOIN_IT_PAGE) {
        assert_eq!(offer.source, Some(Source::JustJoinIt));
    }
    for offer in offers(Source::NoFluffJobs, NO_FLUFF_JOBS_PAGE) {
        assert_eq!(offer.source, Some(Source::NoFluffJobs));
    }
    for offer in offers(Source::PracujPl, PRACUJ_PL_PAGE) {
        assert_eq!(offer.source, Some(Source::PracujPl));
    }
}

#[test]
fn container_without_title_gives_offer_with_absent_title() {
    let page = r#"<div class="tiles_cobg3mp">
        <h3 class="tiles_chl8gsf size-caption core_t1rst47b">Firma</h3>
        <h4 class="size-caption core_t1rst47b">Poznan</h4>
        <a class="core_n194fgoq" href="https://www.pracuj.pl/praca/1">zobacz</a>
    </div>
    <div class="tiles_cobg3mp">
        <h2 class="tiles_h1p4o5k6">Tester</h2>
    </div>"#;
    let found = offers(Source::PracujPl, page);
    assert_eq!(found.len(), 2);
    assert_eq!(
        found[0],
        JobOffer {
            title: None,
            company: text("Firma"),
            location: text("Poznan"),
            link: text("https://www.pracuj.pl/praca/1"),
            source: Some(Source::PracujPl),
        }
    );
    assert_eq!(
        found[1],
        JobOffer {
            title: text("Tester"),
            company: None,
            location: None,
            link: None,
            source: Some(Source::PracujPl),
        }
    );
}

#[test]
fn container_without_any_field_is_still_an_offer() {
    let found = offers(Source::JustJoinIt, r#"<div class="MuiBox-root css-8xzgzu"></div>"#);
    assert_eq!(
        found,
        vec![JobOffer {
            title: None,
            company: None,
            location: None,
            link: None,
            source: Some(Source::JustJoinIt),
        }]
    );
}

#[test]
fn anchor_without_href_gives_absent_link() {
    let page = r#"<div class="MuiBox-root css-8xzgzu"><a name="x"><h3 class="css-3hs82j">T</h3></a></div>"#;
    let found = offers(Source::JustJoinIt, page);
    assert_eq!(found.len(), 1);
    assert_eq!(found[0].title, text("T"));
    assert_eq!(found[0].link, None);
    let page = r#"<a class="posting-list-item"><h4 class="company-name">C</h4></a>"#;
    let found = offers(Source::NoFluffJobs, page);
    assert_eq!(found.len(), 1);
    assert_eq!(found[0].company, text("C"));
    assert_eq!(found[0].link, None);
}

#[test]
fn relative_link_gets_the_origin_and_absolute_link_stays() {
    let found = offers(Source::JustJoinIt, JUST_JOIN_IT_PAGE);
    assert_eq!(found[0].link, text("https://justjoin.it/jobs/123"));
    let found = offers(Source::PracujPl, PRACUJ_PL_PAGE);
    assert_eq!(found[0].link, text("https://www.pracuj.pl/praca/mlodszy,oferta,1"));
}

#[test]
fn link_is_read_from_the_first_matching_anchor() {
    let found = offers(Source::JustJoinIt, JUST_JOIN_IT_PAGE);
    assert_eq!(found[1].link, text("https://justjoin.it/jobs/456"));
    let found = offers(Source::PracujPl, PRACUJ_PL_PAGE);
    assert_eq!(found[1].link, text("https://www.pracuj.pl/praca/tester,oferta,2"));
}

#[test]
fn field_text_joins_the_text_of_nested_elements() {
    let found = offers(Source::JustJoinIt, JUST_JOIN_IT_PAGE);
    assert_eq!(found[1].company, text("Beta Labs"));
}

#[test]
fn field_is_found_at_any_depth_inside_the_container() {
    let page = r#"<div class="tiles_cobg3mp"><section><div><h2 class="tiles_h1p4o5k6">Deep</h2></div></section></div>"#;
    let found = offers(Source::PracujPl, page);
    assert_eq!(found.len(), 1);
    assert_eq!(found[0].title, text("Deep"));
}

#[test]
fn field_outside_a_container_is_not_read() {
    let page = r#"<h2 class="tiles_h1p4o5k6">Outside</h2><div class="tiles_cobg3mp"><p>nothing</p></div>"#;
    let found = offers(Source::PracujPl, page);
    assert_eq!(found.len(), 1);
    assert_eq!(found[0].title, None);
}

#[test]
fn page_without_containers_gives_no_offers() {
    assert_eq!(offers(Source::JustJoinIt, ""), Vec::new());
    assert_eq!(offers(Source::NoFluffJobs, "<html><body><p>none</p></body></html>"), Vec::new());
    assert_eq!(offers(Source::PracujPl, JUST_JOIN_IT_PAGE), Vec::new());
}

#[test]
fn extraction_follows_the_given_patterns() {
    let config = SiteConfig {
        container: "li.offer",
        title: "b",
        company: "i",
        location: "u",
        anchor: None,
    };
    let page = r#"<ul><li class="offer" href="/a"><b>T1</b><i>C1</i><u>L1</u></li><li>skip</li><li class="offer"><i>C2</i></li></ul>"#;
    let found = extract_offers(Source::NoFluffJobs, &config, page).unwrap();
    assert_eq!(
        found,
        vec![
            JobOffer {
                title: text("T1"),
                company: text("C1"),
                location: text("L1"),
                link: text("https://nofluffjobs.com/a"),
                source: Some(Source::NoFluffJobs),
            },
            JobOffer {
                title: None,
                company: text("C2"),
                location: None,
                link: None,
                source: Some(Source::NoFluffJobs),
            },
        ]
    );
}

#[test]
fn refused_pattern_is_reported_by_its_part() {
    let good = SiteConfig {
        container: "p",
        title: "b",
        company: "i",
        location: "u",
        anchor: Some("a"),
    };
    let cases = [
        (SiteConfig { container: "p[", ..good }, Part::Container),
        (SiteConfig { title: "", ..good }, Part::Title),
        (SiteConfig { company: "i >", ..good }, Part::Company),
        (SiteConfig { location: "..u", ..good }, Part::Location),
        (SiteConfig { anchor: Some("a:"), ..good }, Part::Anchor),
    ];
    for (config, part) in cases {
        assert_eq!(
            extract_offers(Source::JustJoinIt, &config, "<p></p>"),
            Err(ScrapError::InvalidSelector { part })
        );
    }
}

#[test]
fn first_refused_pattern_is_the_one_reported() {
    let config = SiteConfig {
        container: "p",
        title: "[",
        company: "[",
        location: "u",
        anchor: Some("["),
    };
    assert_eq!(
        extract_offers(Source::JustJoinIt, &config, "<p></p>"),
        Err(ScrapError::InvalidSelector { part: Part::Title })
    );
}

#[test]
fn board_patterns_are_the_fixed_ones() {
    assert_eq!(
        Source::JustJoinIt.config(),
        SiteConfig {
            container: "div.MuiBox-root.css-8xzgzu",
            title: "h3.css-3hs82j",
            company: "span",
            location: "span.css-1o4wo1x",
            anchor: Some("a"),
        }
    );
    assert_eq!(
        Source::NoFluffJobs.config(),
        SiteConfig {
            container: "a.posting-list-item",
            title: "h3.posting-title__position",
            company: "h4.company-name",
            location: "span.tw-text-right",
            anchor: None,
        }
    );
    assert_eq!(
        Source::PracujPl.config(),
        SiteConfig {
            container: "div.tiles_cobg3mp",
            title: "h2.tiles_h1p4o5k6",
            company: "h3.tiles_chl8gsf.size-caption.core_t1rst47b",
            location: "h4.size-caption.core_t1rst47b",
            anchor: Some("a.core_n194fgoq"),
        }
    );
}
