use article_date_extractor::dates::Date;
use article_date_extractor::dom::Document;
use article_date_extractor::fallback_tags::extract_from_html_tag;
use article_date_extractor::formats::parse_date;
use article_date_extractor::ldjson::extract_from_ldjson;
use article_date_extractor::meta_tags::extract_from_meta;
use article_date_extractor::url_date::extract_from_url;

#[test]
fn parsing_date() {
    assert_eq!(
        Date { year: 2015, month: 11, day: 30 },
        parse_date("/2015/11/30/").unwrap()
    );
    assert_eq!(
        Date { year: 2015, month: 11, day: 30 },
        parse_date("/2015/30/11/").unwrap()
    );

    assert!(parse_date("bad_format").is_err());
}

#[test]
fn extracting_from_url() {
    let link = "http://edition.cnn.\
                      com/2015/11/28/opinions/sutter-cop21-paris-preview-two-degrees/index.\
                      html";
    assert_eq!(Some("/2015/11/28/".to_string()), extract_from_url(link));

    let link = "";
    assert_eq!(None, extract_from_url(link));
}

#[test]
fn extracting_from_ldjson() {
    let body = "<html><head>\
                <script type=\"application/ld+json\">\
                {\"@context\":\"http://schema.org\",\"@type\":\"NewsArticle\",\
                \"datePublished\":\"2015-12-01T07:50:48Z\",\
                \"headline\":\"A headline\"}\
                </script>\
                </head><body><p>article text</p></body></html>";
    let document = Document::from_html(body);

    assert_eq!(
        Some("2015-12-01T07:50:48Z".to_string()),
        extract_from_ldjson(&document)
    );
}

#[test]
fn extracting_from_meta() {
    let body = "<html><head>\
                <meta name=\"description\" content=\"an article\">\
                <meta name=\"pubdate\" content=\" 2015-11-30 23:50:48 \">\
                </head><body><p>article text</p></body></html>";
    let document = Document::from_html(body);

    assert_eq!(
        Some("2015-11-30 23:50:48".to_string()),
        extract_from_meta(&document)
    );
}

#[test]
fn extracting_from_html_tag() {
    let body = "<html><head><title>a post</title></head><body>\
                <div class=\"article_date\">\nThursday, March 16, 2017\n</div>\
                <p>article text</p>\
                </body></html>";
    let document = Document::from_html(body);

    assert_eq!(
        Some("Thursday, March 16, 2017".to_string()),
        extract_from_html_tag(&document)
    );
}
