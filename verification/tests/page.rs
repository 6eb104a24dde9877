use metascraper::MetaScraper;

const PAGE: &str = r#"<!DOCTYPE html>
<html lang="en">
<head>
<meta charset="utf-8">
<title>Title</title>
<meta name="description" content="Description">
<link rel="canonical" href="https://mehmetcan.sahin.dev">
<link rel="alternate" type="application/rss+xml" href="rss.xml">
</head>
<body>
<h1>Hello</h1>
</body>
</html>
"#;

#[test]
fn lib_test_page() {
    let input = PAGE;
    let metascraper = MetaScraper::parse(input).unwrap();
    let metadata = metascraper.metadata();
    assert_eq!(metadata.title, Some("Title".to_string()));
    assert_eq!(metadata.language, Some("en".to_string()));
    assert_eq!(metadata.description, Some("Description".to_string()));
    assert_eq!(
        metadata.canonical,
        Some("https://mehmetcan.sahin.dev".to_string())
    );
    assert_eq!(metadata.rss, Some("rss.xml".to_string()));
}

#[test]
fn basic_test_page() {
    let page_info = MetaScraper::parse(PAGE).unwrap().metadata();
    assert_eq!(page_info.title, Some("Title".to_string()));
    assert_eq!(page_info.language, Some("en".to_string()));
    assert_eq!(page_info.description, Some("Description".to_string()));
    assert_eq!(
        page_info.canonical,
        Some("https://mehmetcan.sahin.dev".to_string())
    );
    assert_eq!(page_info.rss, Some("rss.xml".to_string()));
}

#[test]
fn test_from_website() {
    let resp = r#"<!DOCTYPE html>
<html lang="en">
<head>
<meta charset="utf-8">
<title>Mehmetcan Şahin</title>
<meta name="description" content="Personal Page">
</head>
<body><h1>Mehmetcan Şahin</h1></body>
</html>"#
        .to_string();
    let page_info = MetaScraper::parse(&resp).unwrap().metadata();
    assert_eq!(page_info.title, Some("Mehmetcan Şahin".to_string()));
    assert_eq!(page_info.language, Some("en".to_string()));
    assert_eq!(page_info.description, Some("Personal Page".to_string()));
}

#[test]
fn metadata_of_a_complete_page() {
    let html = r#"<html lang="en"><head><title>Title</title>
<meta name="description" content="Description">
<link rel="canonical" href="https://example.test">
<link rel="alternate" type="application/rss+xml" href="rss.xml">
</head><body></body></html>"#;
    let data = MetaScraper::parse(html).unwrap().metadata();
    assert_eq!(data.title, Some("Title".to_string()));
    assert_eq!(data.language, Some("en".to_string()));
    assert_eq!(data.description, Some("Description".to_string()));
    assert_eq!(data.canonical, Some("https://example.test".to_string()));
    assert_eq!(data.rss, Some("rss.xml".to_string()));
    assert_eq!(data.image, None);
    assert_eq!(data.amp, None);
    assert_eq!(data.author, None);
    assert_eq!(data.date, None);
    let tags = data.metatags.unwrap();
    assert_eq!(tags.len(), 1);
    assert_eq!(tags[0].name, "description");
    assert_eq!(tags[0].content, "Description");
}

#[test]
fn title_falls_back_to_the_meta_property() {
    let html = r#"<html><head><meta property="og:title" content="Fallback Title"></head></html>"#;
    let page = MetaScraper::parse(html).unwrap();
    assert_eq!(page.title(), Some("Fallback Title".to_string()));
}

#[test]
fn title_is_absent_where_no_rule_applies() {
    let html = r#"<html><body><p>Nothing to see</p></body></html>"#;
    let page = MetaScraper::parse(html).unwrap();
    assert_eq!(page.title(), None);
}

#[test]
fn title_element_wins_over_later_rules() {
    let html = r#"<html><head><meta property="og:title" content="Second"><title>First</title></head>
<body><h2 class="post-title">Third</h2></body></html>"#;
    let page = MetaScraper::parse(html).unwrap();
    assert_eq!(page.title(), Some("First".to_string()));
}

#[test]
fn title_walks_down_to_a_class_rule() {
    let html = r#"<html><body><h2 class="entry-title">Entry</h2><h1 class="main-title">Heading</h1></body></html>"#;
    let page = MetaScraper::parse(html).unwrap();
    assert_eq!(page.title(), Some("Entry".to_string()));
    let html = r#"<html><body><h1 class="main-title">Heading</h1></body></html>"#;
    let page = MetaScraper::parse(html).unwrap();
    assert_eq!(page.title(), Some("Heading".to_string()));
}

#[test]
fn blank_title_lets_the_chain_go_on() {
    let html = "<html><head><title> \n\t </title><meta property=\"og:title\" content=\"Real\"></head></html>";
    let page = MetaScraper::parse(html).unwrap();
    assert_eq!(page.inner_text("title"), Some(" \n\t ".to_string()));
    assert_eq!(page.title(), Some("Real".to_string()));
}

#[test]
fn value_is_returned_as_it_stands() {
    let html = "<html><head><title>  Spaced  </title></head></html>";
    let page = MetaScraper::parse(html).unwrap();
    assert_eq!(page.title(), Some("  Spaced  ".to_string()));
}

#[test]
fn empty_attribute_is_a_miss() {
    let html = r#"<html><head><meta name="description" content=""></head></html>"#;
    let page = MetaScraper::parse(html).unwrap();
    assert_eq!(
        page.attribute("meta[name*=description]", "content"),
        Some(String::new())
    );
    assert_eq!(page.description(), None);
    assert_eq!(page.metadata().description, None);
}

#[test]
fn empty_attribute_yields_to_the_next_rule() {
    let html = r#"<html><head><meta name="description" content="">
<meta property="og:description" content="From the property"></head></html>"#;
    let page = MetaScraper::parse(html).unwrap();
    assert_eq!(page.description(), Some("From the property".to_string()));
}

#[test]
fn description_reads_its_own_attribute_last() {
    let html = r#"<html><head><meta description="Plain"></head></html>"#;
    let page = MetaScraper::parse(html).unwrap();
    assert_eq!(page.description(), Some("Plain".to_string()));
}

#[test]
fn canonical_prefers_the_link() {
    let html = r#"<html><head><meta property="og:url" content="https://example.test/og">
<link rel="canonical" href="https://example.test/canonical"></head></html>"#;
    let page = MetaScraper::parse(html).unwrap();
    assert_eq!(
        page.canonical(),
        Some("https://example.test/canonical".to_string())
    );
    let html = r#"<html><head><meta property="og:url" content="https://example.test/og"></head></html>"#;
    let page = MetaScraper::parse(html).unwrap();
    assert_eq!(page.canonical(), Some("https://example.test/og".to_string()));
}

#[test]
fn language_falls_back_to_the_locale() {
    let html = r#"<html><head><meta property="og:locale" content="tr_TR"></head></html>"#;
    let page = MetaScraper::parse(html).unwrap();
    assert_eq!(page.language(), Some("tr_TR".to_string()));
    let html = r#"<html lang="de"><head><meta property="og:locale" content="tr_TR"></head></html>"#;
    let page = MetaScraper::parse(html).unwrap();
    assert_eq!(page.language(), Some("de".to_string()));
}

#[test]
fn rss_amp_author_and_image_are_read() {
    let html = r#"<html><head>
<link rel="alternate" type="application/rss+xml" href="/feed.xml">
<link rel="amphtml" href="https://example.test/amp">
<meta name="author" content="Jane Doe">
<meta property="og:image" content="https://example.test/cover.png">
</head></html>"#;
    let page = MetaScraper::parse(html).unwrap();
    assert_eq!(page.rss(), Some("/feed.xml".to_string()));
    assert_eq!(page.amp(), Some("https://example.test/amp".to_string()));
    assert_eq!(page.author(), Some("Jane Doe".to_string()));
    assert_eq!(
        page.image(),
        Some("https://example.test/cover.png".to_string())
    );
}

#[test]
fn image_falls_back_to_the_author_portrait() {
    let html = r#"<html><body><img alt="the author" src="portrait.png"></body></html>"#;
    let page = MetaScraper::parse(html).unwrap();
    assert_eq!(page.image(), Some("portrait.png".to_string()));
}

#[test]
fn date_prefers_meta_over_text() {
    let html = r#"<html><head><meta property="article:published_time" content="2020-01-02"></head>
<body><p class="byline">yesterday</p></body></html>"#;
    let page = MetaScraper::parse(html).unwrap();
    assert_eq!(page.date(), Some("2020-01-02".to_string()));
    let html = r#"<html><body><p class="dateline">today</p><p class="byline">yesterday</p></body></html>"#;
    let page = MetaScraper::parse(html).unwrap();
    assert_eq!(page.date(), Some("yesterday".to_string()));
}

#[test]
fn inner_text_joins_what_lies_below() {
    let html = r#"<html><body><div id="time"><b>12</b>:<i>30</i></div></body></html>"#;
    let page = MetaScraper::parse(html).unwrap();
    assert_eq!(page.inner_text("#time"), Some("12:30".to_string()));
    assert_eq!(page.date(), Some("12:30".to_string()));
}

#[test]
fn inner_text_takes_the_first_match() {
    let html = r#"<html><body><p>one</p><p>two</p></body></html>"#;
    let page = MetaScraper::parse(html).unwrap();
    assert_eq!(page.inner_text("p"), Some("one".to_string()));
    assert_eq!(page.inner_text("span"), None);
}

#[test]
fn attribute_tells_absent_from_valueless() {
    let html = r#"<html><body><input class="field" disabled></body></html>"#;
    let page = MetaScraper::parse(html).unwrap();
    assert_eq!(page.attribute("input", "class"), Some("field".to_string()));
    assert_eq!(page.attribute("input", "disabled"), None);
    assert_eq!(page.attribute("input", "value"), None);
    assert_eq!(page.attribute("select", "class"), None);
}

#[test]
fn rejected_selector_is_a_miss() {
    let html = r#"<html><head><title>Title</title></head></html>"#;
    let page = MetaScraper::parse(html).unwrap();
    assert_eq!(page.inner_text(""), None);
    assert_eq!(page.inner_text("(title)"), None);
    assert_eq!(page.attribute("[lang", "lang"), None);
}

#[test]
fn metatags_keep_complete_pairs_only() {
    let html = r#"<html><head><meta name="keywords" content="a, b"><meta name="robots"></head></html>"#;
    let page = MetaScraper::parse(html).unwrap();
    let tags = page.metatags().unwrap();
    assert_eq!(tags.len(), 1);
    assert_eq!(tags[0].name, "keywords");
    assert_eq!(tags[0].content, "a, b");
}

#[test]
fn metatags_follow_document_order() {
    let html = r#"<html><head>
<meta property="og:type" content="article">
<meta charset="utf-8">
<meta itemprop="headline" content="Head">
<meta http-equiv="refresh" content="30">
<meta name="summary" description="Short">
</head></html>"#;
    let page = MetaScraper::parse(html).unwrap();
    let tags = page.metatags().unwrap();
    let found: Vec<(&str, &str)> = tags
        .iter()
        .map(|tag| (tag.name.as_str(), tag.content.as_str()))
        .collect();
    assert_eq!(
        found,
        vec![
            ("og:type", "article"),
            ("headline", "Head"),
            ("refresh", "30"),
            ("summary", "Short"),
        ]
    );
}

#[test]
fn metatag_name_prefers_name_over_property() {
    let html = r#"<html><head><meta property="og:title" name="title" content="T"></head></html>"#;
    let page = MetaScraper::parse(html).unwrap();
    let tags = page.metatags().unwrap();
    assert_eq!(tags.len(), 1);
    assert_eq!(tags[0].name, "title");
    assert_eq!(tags[0].content, "T");
}

#[test]
fn metatag_with_a_valueless_name_is_dropped() {
    let html = r#"<html><head><meta content="c" name></head></html>"#;
    let page = MetaScraper::parse(html).unwrap();
    let tags = page.metatags().unwrap();
    assert_eq!(tags.len(), 0);
}

#[test]
fn metatag_keeps_an_empty_content() {
    let html = r#"<html><head><meta name="theme" content=""></head></html>"#;
    let page = MetaScraper::parse(html).unwrap();
    let tags = page.metatags().unwrap();
    assert_eq!(tags.len(), 1);
    assert_eq!(tags[0].name, "theme");
    assert_eq!(tags[0].content, "");
}

#[test]
fn metatags_are_absent_without_meta_elements() {
    let html = r#"<html><head><title>Title</title></head></html>"#;
    let page = MetaScraper::parse(html).unwrap();
    assert!(page.metatags().is_none());
    assert!(page.metadata().metatags.is_none());
}

#[test]
fn metatags_are_empty_where_none_is_complete() {
    let html = r#"<html><head><meta charset="utf-8"><meta name="robots"></head></html>"#;
    let page = MetaScraper::parse(html).unwrap();
    assert_eq!(page.metatags().unwrap().len(), 0);
}

#[test]
fn metadata_is_the_same_on_every_call() {
    let page = MetaScraper::parse(PAGE).unwrap();
    let first = page.metadata();
    let second = page.metadata();
    assert_eq!(format!("{:?}", first), format!("{:?}", second));
    assert_eq!(first.title, page.title());
    assert_eq!(first.description, page.description());
    assert_eq!(first.canonical, page.canonical());
    assert_eq!(first.language, page.language());
    assert_eq!(first.rss, page.rss());
    assert_eq!(first.image, page.image());
    assert_eq!(first.amp, page.amp());
    assert_eq!(first.author, page.author());
    assert_eq!(first.date, page.date());
}

#[test]
fn empty_text_parses_to_an_empty_page() {
    let page = MetaScraper::parse("").unwrap();
    let data = page.metadata();
    assert_eq!(data.title, None);
    assert_eq!(data.description, None);
    assert!(data.metatags.is_none());
}
