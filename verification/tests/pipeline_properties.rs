use article_date_extractor::dates::Date;
use article_date_extractor::dom::Document;
use article_date_extractor::errors::ExtractError;
use article_date_extractor::extract_date::extract_article_published_date;
use article_date_extractor::fallback_tags::extract_from_html_tag;
use article_date_extractor::formats::parse_date;
use article_date_extractor::ldjson::extract_from_ldjson;
use article_date_extractor::meta_tags::extract_from_meta;
use article_date_extractor::meta_tags::meta_name_denotes_date;
use article_date_extractor::meta_tags::meta_property_denotes_date;
use article_date_extractor::url_date::extract_from_url;

#[test]
fn leftmost_url_match_parses_to_its_fields() {
    let link = "http://site.com/2015/11/28/archive/2016/10/20/index.html";
    let candidate = extract_from_url(link).unwrap();
    assert_eq!("/2015/11/28/", candidate);
    assert_eq!(
        Date { year: 2015, month: 11, day: 28 },
        parse_date(&candidate).unwrap()
    );
}

#[test]
fn recognized_format_samples() {
    assert_eq!(
        Date { year: 2017, month: 3, day: 16 },
        parse_date("March 16, 2017").unwrap()
    );
    assert_eq!(
        Date { year: 2015, month: 11, day: 30 },
        parse_date("2015-11-30").unwrap()
    );
    assert_eq!(
        Date { year: 2015, month: 11, day: 30 },
        parse_date("2015-11-30 23:50:48").unwrap()
    );
    assert_eq!(
        Date { year: 2015, month: 11, day: 30 },
        parse_date("2015-11-30T23:50:48+01:00").unwrap()
    );
    assert_eq!(
        Date { year: 2015, month: 11, day: 30 },
        parse_date("2015-11-30 23:50:48.000000").unwrap()
    );
}

#[test]
fn structured_data_only_document() {
    let body = "<html><head>\
                <script type=\"application/ld+json\">\
                {\"datePublished\":\"2015-12-01T07:50:48Z\"}\
                </script>\
                </head><body><p>article text</p></body></html>";
    assert_eq!(
        Date { year: 2015, month: 12, day: 1 },
        extract_article_published_date("", body).unwrap()
    );
}

#[test]
fn structured_data_date_created_fallback() {
    let body = "<html><head>\
                <script type=\"application/ld+json\">\
                {\"dateCreated\":\"2015-12-01T07:50:48Z\"}\
                </script>\
                </head><body></body></html>";
    let document = Document::from_html(body);
    assert_eq!(
        Some("2015-12-01T07:50:48Z".to_string()),
        extract_from_ldjson(&document)
    );
}

#[test]
fn unparsable_structured_data_degrades_to_later_stages() {
    let body = "<html><head>\
                <script type=\"application/ld+json\">not valid json at all</script>\
                <meta name=\"pubdate\" content=\"2015-11-30\">\
                </head><body></body></html>";
    assert_eq!(
        Date { year: 2015, month: 11, day: 30 },
        extract_article_published_date("", body).unwrap()
    );
}

#[test]
fn non_string_structured_data_field_degrades() {
    let body = "<html><head>\
                <script type=\"application/ld+json\">\
                {\"datePublished\":20151201}\
                </script>\
                <meta name=\"pubdate\" content=\"2015-11-30\">\
                </head><body></body></html>";
    let document = Document::from_html(body);
    assert_eq!(None, extract_from_ldjson(&document));
    assert_eq!(
        Date { year: 2015, month: 11, day: 30 },
        extract_article_published_date("", body).unwrap()
    );
}

#[test]
fn fallback_div_only_document() {
    let link = "http://site.com/a-story-without-a-date/";
    let body = "<html><head><title>a post</title></head><body>\
                <div class=\"article_date\">Thursday, March 16, 2017</div>\
                </body></html>";
    assert_eq!(
        Date { year: 2017, month: 3, day: 16 },
        extract_article_published_date(link, body).unwrap()
    );
}

#[test]
fn repeated_resolution_is_identical() {
    let link = "http://site.com/2015/11/28/story.html";
    let body = "<html><head>\
                <meta name=\"pubdate\" content=\"2015-11-30\">\
                </head><body></body></html>";
    let first = extract_article_published_date(link, body);
    let second = extract_article_published_date(link, body);
    assert_eq!(first, second);
    assert_eq!(Date { year: 2015, month: 11, day: 28 }, first.unwrap());
}

#[test]
fn empty_inputs_fail_resolution() {
    assert_eq!(
        Err(ExtractError::ResolutionFailure),
        extract_article_published_date("", "")
    );
}

#[test]
fn unparsable_candidate_is_parse_failure() {
    let link = "http://site.com/2015/13/32/story.html";
    assert_eq!(Some("/2015/13/32/".to_string()), extract_from_url(link));
    assert_eq!(
        Err(ExtractError::ParseFailure),
        extract_article_published_date(link, "")
    );
}

#[test]
fn meta_name_matching_is_case_insensitive() {
    assert!(meta_name_denotes_date("PubDate"));
    assert!(meta_name_denotes_date("DC.Date.Issued"));
    assert!(!meta_name_denotes_date("description"));

    let body = "<html><head>\
                <meta name=\"PubDate\" content=\"2015-11-30\">\
                </head><body></body></html>";
    let document = Document::from_html(body);
    assert_eq!(Some("2015-11-30".to_string()), extract_from_meta(&document));
}

#[test]
fn meta_property_matching_is_case_sensitive() {
    assert!(meta_property_denotes_date("article:published_time"));
    assert!(meta_property_denotes_date("bt:pubdate"));
    assert!(!meta_property_denotes_date("Article:Published_Time"));
}

#[test]
fn meta_itemprop_and_http_equiv_channels() {
    let body = "<html><head>\
                <meta itemprop=\"datePublished\" content=\"2015-11-30\">\
                </head><body></body></html>";
    let document = Document::from_html(body);
    assert_eq!(Some("2015-11-30".to_string()), extract_from_meta(&document));

    let body = "<html><head>\
                <meta http-equiv=\"Date\" content=\"2015-12-01\">\
                </head><body></body></html>";
    let document = Document::from_html(body);
    assert_eq!(Some("2015-12-01".to_string()), extract_from_meta(&document));
}

#[test]
fn og_image_content_is_scanned_as_url() {
    let body = "<html><head>\
                <meta property=\"og:image\" content=\"https://cdn.site.com/uploads/2015/11/28/photo.jpg\">\
                </head><body></body></html>";
    let document = Document::from_html(body);
    assert_eq!(Some("/2015/11/28/".to_string()), extract_from_meta(&document));
    assert_eq!(
        Date { year: 2015, month: 11, day: 28 },
        extract_article_published_date("", body).unwrap()
    );
}

#[test]
fn time_tag_datetime_attribute_wins() {
    let body = "<html><body>\
                <time class=\"timestamp\" datetime=\"2015-12-01\">\nMarch 16, 2017\n</time>\
                </body></html>";
    let document = Document::from_html(body);
    assert_eq!(
        Some("2015-12-01".to_string()),
        extract_from_html_tag(&document)
    );
}

#[test]
fn time_tag_timestamp_class_uses_text() {
    let body = "<html><body>\
                <time class=\"timestamp\">\n2015-12-01\n</time>\
                </body></html>";
    let document = Document::from_html(body);
    assert_eq!(
        Some("2015-12-01".to_string()),
        extract_from_html_tag(&document)
    );
}

#[test]
fn span_date_published_prefers_content_attribute() {
    let body = "<html><body>\
                <span itemprop=\"datePublished\" content=\"2015-12-01\">other text</span>\
                </body></html>";
    let document = Document::from_html(body);
    assert_eq!(
        Some("2015-12-01".to_string()),
        extract_from_html_tag(&document)
    );

    let body = "<html><body>\
                <span itemprop=\"datePublished\">\n2015-12-01\n</span>\
                </body></html>";
    let document = Document::from_html(body);
    assert_eq!(
        Some("2015-12-01".to_string()),
        extract_from_html_tag(&document)
    );
}

#[test]
fn keyword_class_tags_in_priority_order() {
    let body = "<html><body>\
                <p class=\"pubdate\">\n2015-12-01\n</p>\
                <div class=\"article_date\">2016-01-01</div>\
                </body></html>";
    let document = Document::from_html(body);
    assert_eq!(
        Some("2015-12-01".to_string()),
        extract_from_html_tag(&document)
    );
}

#[test]
fn earlier_pipeline_stages_win() {
    let body = "<html><head>\
                <script type=\"application/ld+json\">\
                {\"datePublished\":\"2015-12-01T07:50:48Z\"}\
                </script>\
                <meta name=\"pubdate\" content=\"2015-11-30\">\
                </head><body>\
                <div class=\"article_date\">Thursday, March 16, 2017</div>\
                </body></html>";
    assert_eq!(
        Date { year: 2015, month: 12, day: 1 },
        extract_article_published_date("", body).unwrap()
    );
    assert_eq!(
        Date { year: 2015, month: 11, day: 28 },
        extract_article_published_date("http://site.com/2015/11/28/x.html", body).unwrap()
    );
}
