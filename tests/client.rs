use commoncrawl_cdx::{
    CDXItem, CDXItems, CDXQuerier, Charset, CollectionInfo, CollectionsInfo, ContentType, Error, Fetcher, Url, CDX_HOST,
    WARC_HOST,
};

fn collection_json(id: &str) -> String {
    format!(
        "{{\"id\":\"{id}\",\"name\":\"Crawl {id}\",\"timegate\":\"https://index.commoncrawl.org/{id}/\",\"cdx_api\":\"https://index.commoncrawl.org/{id}-index\"}}"
    )
}

fn record_json(i: u64) -> String {
    format!(
        "{{\"urlkey\":\"org,example)/{i}\",\"timestamp\":\"2024030100000{}\",\"mime\":\"text/html\",\"length\":\"{}\",\"status\":\"200\",\"filename\":\"crawl-data/seg{i}.warc.gz\",\"languages\":\"eng\",\"charset\":\"UTF-8\",\"url\":\"https://example.org/{i}\",\"mime_detected\":\"text/html\",\"offset\":\"{}\",\"digest\":\"D{i}\"}}",
        i,
        1000 + i,
        500 * i
    )
}

#[test]
fn charset_round_trip() {
    for c in [Charset::UTF8, Charset::UTF16] {
        assert_eq!(Charset::from_string(&c.to_string()), Ok(c));
    }
    assert_eq!(Charset::UTF8.to_string(), "utf-8");
    assert_eq!(Charset::UTF16.to_string(), "utf-16");
    assert_eq!(Charset::from_string("latin-1"), Err(Error::InvalidCharset));
    assert_eq!(Charset::default(), Charset::UTF8);
}

#[test]
fn content_type_round_trip() {
    let all = [
        ContentType::JSON,
        ContentType::TEXT { charset: Charset::UTF8 },
        ContentType::TEXT { charset: Charset::UTF16 },
    ];
    for c in all {
        assert_eq!(ContentType::from_string(&c.to_string()), Ok(c));
    }
    assert_eq!(ContentType::JSON.to_string(), "application/json");
    assert_eq!(
        ContentType::TEXT { charset: Charset::UTF16 }.to_string(),
        "text/plain; charset=utf-16"
    );
    assert_eq!(ContentType::from_string("text/html"), Err(Error::InvalidContentType));
    assert_eq!(ContentType::from_string(""), Err(Error::InvalidContentType));
    assert_eq!(ContentType::default(), ContentType::JSON);
}

#[test]
fn url_from_known_hosts() {
    let cdx = Url::from_string("https://index.commoncrawl.org/collinfo.json").unwrap();
    assert_eq!(cdx, Url::CDX { path: "collinfo.json".to_string() });
    let warc = Url::from_string("https://commoncrawl.s3.amazonaws.com/crawl-data/a.warc.gz").unwrap();
    assert_eq!(warc, Url::WARC { path: "crawl-data/a.warc.gz".to_string() });
}

#[test]
fn url_round_trip_keeps_host_and_path() {
    for s in [
        "https://index.commoncrawl.org/CC-MAIN-2024-10-index",
        "https://commoncrawl.s3.amazonaws.com/crawl-data/CC-MAIN-2024-10/seg.warc.gz",
        "https://index.commoncrawl.org/",
    ] {
        let u = Url::from_string(s).unwrap();
        assert_eq!(u.to_string(), s);
        assert_eq!(Url::from_string(&u.to_string()), Ok(u));
    }
}

#[test]
fn url_host_is_case_folded_by_parsing() {
    let u = Url::from_string("https://INDEX.commoncrawl.org/x").unwrap();
    assert_eq!(u, Url::CDX { path: "x".to_string() });
}

#[test]
fn url_unknown_host_refused() {
    assert_eq!(Url::from_string("https://example.org/collinfo.json"), Err(Error::InvalidDomain));
    assert_eq!(Url::from_string("https://commoncrawl.org/x"), Err(Error::InvalidDomain));
    assert_eq!(Url::from_string("not a url"), Err(Error::InvalidDomain));
    assert_eq!(Url::from_string(""), Err(Error::InvalidDomain));
    assert_eq!(Url::from_string("mailto:someone@index.commoncrawl.org"), Err(Error::InvalidDomain));
}

#[test]
fn url_from_host_path() {
    assert_eq!(
        Url::from_host_path(CDX_HOST, "/a/b"),
        Ok(Url::CDX { path: "a/b".to_string() })
    );
    assert_eq!(Url::from_host_path(WARC_HOST, "c"), Ok(Url::WARC { path: "c".to_string() }));
    assert_eq!(Url::from_host_path("example.org", "/a"), Err(Error::InvalidDomain));
}

#[test]
fn url_rendering_and_default() {
    assert_eq!(
        Url::WARC { path: "x/y".to_string() }.to_string(),
        "https://commoncrawl.s3.amazonaws.com/x/y"
    );
    assert_eq!(Url::default().to_string(), "https://index.commoncrawl.org/");
}

#[test]
fn fetchers() {
    let f = Fetcher::new();
    assert_eq!(f.target(), "https://index.commoncrawl.org/");
    assert_eq!(f.accept(), "application/json");
    let t = Fetcher::text_fetcher(Url::CDX { path: "p".to_string() }, Charset::UTF16);
    assert_eq!(t.accept(), "text/plain; charset=utf-16");
    let j = Fetcher::json_fetcher(Url::WARC { path: "q".to_string() });
    assert_eq!(j.content_type, ContentType::JSON);
    assert_eq!(j.target(), "https://commoncrawl.s3.amazonaws.com/q");
}

#[test]
fn archive_segment_drops_one_leading_slash() {
    let f = Fetcher::archive_segment("/crawl-data/a.warc.gz");
    assert_eq!(f.url, Url::WARC { path: "crawl-data/a.warc.gz".to_string() });
    assert_eq!(f.target(), "https://commoncrawl.s3.amazonaws.com/crawl-data/a.warc.gz");
    assert_eq!(f.content_type, ContentType::JSON);
    let g = Fetcher::archive_segment("crawl-data/b");
    assert_eq!(g.url, Url::WARC { path: "crawl-data/b".to_string() });
}

#[test]
fn response_body_checks_status() {
    assert_eq!(Fetcher::response_body(200, vec![1, 2, 3]), Ok(vec![1, 2, 3]));
    assert_eq!(Fetcher::response_body(503, vec![1]), Err(Error::UnexpectedStatus(503)));
    assert_eq!(Fetcher::response_body(404, vec![]), Err(Error::UnexpectedStatus(404)));
}

#[test]
fn time_range_with_fifteen_digits_refused() {
    assert_eq!(CDXQuerier::new().set_from(202001010000001), Err(Error::InvalidRange));
    assert_eq!(CDXQuerier::new().set_to(202001010000001), Err(Error::InvalidRange));
    assert_eq!(
        CDXQuerier::new().set_time_range(202001010000001, 20200101000000),
        Err(Error::InvalidRange)
    );
    assert!(CDXQuerier::new().set_from(99999999999999).is_ok());
}

#[test]
fn inverted_time_range_refused() {
    assert_eq!(
        CDXQuerier::new().set_time_range(20200101000000, 20190101000000),
        Err(Error::InvalidRange)
    );
    let q = CDXQuerier::new().set_from(20200101000000).unwrap();
    assert_eq!(q.set_to(20190101000000), Err(Error::InvalidRange));
    let q = CDXQuerier::new().set_to(20190101000000).unwrap();
    assert_eq!(q.set_from(20200101000000), Err(Error::InvalidRange));
}

#[test]
fn time_range_prefixes_are_padded() {
    let q = CDXQuerier::new().set_time_range(2020, 2020).unwrap();
    assert_eq!(q.from, Some(2020));
    assert_eq!(q.to, Some(2020));
    assert!(CDXQuerier::new().set_time_range(202003, 2020).is_ok());
    assert!(CDXQuerier::new().set_time_range(20201231235959, 2020).is_ok());
    assert_eq!(CDXQuerier::new().set_time_range(2021, 2020), Err(Error::InvalidRange));
    assert_eq!(CDXQuerier::new().set_time_range(2020, 20191231235959), Err(Error::InvalidRange));
    assert!(CDXQuerier::new().set_time_range(0, 0).is_ok());
}

#[test]
fn zero_page_size_refused() {
    assert_eq!(CDXQuerier::new().set_page_size(0), Err(Error::InvalidPageSize));
    assert_eq!(CDXQuerier::new().set_pagination(3, 0), Err(Error::InvalidPageSize));
    let q = CDXQuerier::new().set_pagination(3, 5).unwrap();
    assert_eq!((q.page, q.page_size), (Some(3), Some(5)));
}

#[test]
fn query_string_rendering() {
    let q = CDXQuerier::new()
        .set_path("CC-MAIN-2024-10-index")
        .unwrap()
        .set_from(2020)
        .unwrap()
        .set_to(2021)
        .unwrap()
        .set_limit(10)
        .unwrap()
        .set_sort(-1)
        .unwrap()
        .set_filter("=status:200")
        .unwrap()
        .set_field("url")
        .unwrap();
    assert_eq!(
        q.query_string(),
        "output=json&from=2020&to=2021&limit=10&sort=-1&filter==status:200&fl=url"
    );
    assert_eq!(
        q.url().to_string(),
        "https://index.commoncrawl.org/CC-MAIN-2024-10-index?output=json&from=2020&to=2021&limit=10&sort=-1&filter==status:200&fl=url"
    );
    assert_eq!(q.fetcher().accept(), "application/json");
}

#[test]
fn query_string_paging_flags() {
    assert_eq!(CDXQuerier::new().query_string(), "output=json");
    let q = CDXQuerier::new()
        .set_page(0)
        .unwrap()
        .set_page_size(5)
        .unwrap()
        .set_show_num_pages(true)
        .set_show_paged_index(true)
        .set_sort(i64::MIN)
        .unwrap();
    assert_eq!(
        q.query_string(),
        "output=json&sort=-9223372036854775808&page=0&pageSize=5&showNumPages=true&showPagedIndex=true"
    );
    let q = q.set_show_num_pages(false).set_limit(u64::MAX).unwrap();
    assert_eq!(
        q.query_string(),
        "output=json&limit=18446744073709551615&sort=-9223372036854775808&page=0&pageSize=5&showPagedIndex=true"
    );
}

#[test]
fn catalog_fetch_surfaces_status() {
    let body = format!("[{},{}]", collection_json("A"), collection_json("B"));
    assert_eq!(
        CollectionsInfo::fetch(404, body.as_bytes()),
        Err(Error::UnexpectedStatus(404))
    );
    assert_eq!(CollectionsInfo::fetch(404, b""), Err(Error::UnexpectedStatus(404)));
}

#[test]
fn catalog_fetch_two_collections() {
    let body = format!(
        "[{},{}]",
        collection_json("CC-MAIN-2024-10"),
        collection_json("CC-MAIN-2024-18")
    );
    let c = CollectionsInfo::fetch(200, body.as_bytes()).unwrap();
    assert_eq!(c.len(), 2);
    assert_eq!(c.0[0].id, "CC-MAIN-2024-10");
    assert_eq!(c.0[0].name, "Crawl CC-MAIN-2024-10");
    assert_eq!(c.0[0].timegate, "https://index.commoncrawl.org/CC-MAIN-2024-10/");
    assert_eq!(c.0[0].cdx_api, "https://index.commoncrawl.org/CC-MAIN-2024-10-index");
    assert_eq!(c.0[1].id, "CC-MAIN-2024-18");
    assert_eq!(c.0[1].cdx_api, "https://index.commoncrawl.org/CC-MAIN-2024-18-index");
}

#[test]
fn catalog_decode_failures() {
    assert_eq!(CollectionsInfo::from_json_bytes(b"not json"), Err(Error::DecodeFailed));
    assert_eq!(
        CollectionsInfo::from_json_bytes(b"[{\"id\":\"x\",\"name\":\"y\"}]"),
        Err(Error::DecodeFailed)
    );
    assert_eq!(CollectionsInfo::from_json_bytes(b"[]").map(|c| c.len()), Ok(0));
    assert_eq!(CollectionsInfo::new().len(), 0);
}

#[test]
fn catalog_locator() {
    assert_eq!(CollectionsInfo::url(), Url::CDX { path: "collinfo.json".to_string() });
    assert_eq!(CollectionsInfo::fetcher().target(), "https://index.commoncrawl.org/collinfo.json");
}

#[test]
fn query_exec_keeps_order() {
    let q = CDXQuerier::new()
        .set_path("CC-MAIN-2024-10-index")
        .unwrap()
        .set_limit(10)
        .unwrap();
    let records: Vec<String> = (0..10).map(record_json).collect();
    let body = format!("[{}]", records.join(","));
    let page = q.exec(200, body.as_bytes()).unwrap();
    assert_eq!(page.len(), 10);
    for (i, item) in page.0.iter().enumerate() {
        let i = i as u64;
        assert_eq!(item.urlkey, format!("org,example)/{i}"));
        assert_eq!(item.timestamp, 20240301000000 + i);
        assert_eq!(item.length, 1000 + i);
        assert_eq!(item.status, 200);
        assert_eq!(item.offset, 500 * i);
        assert_eq!(item.filename, format!("crawl-data/seg{i}.warc.gz"));
        assert_eq!(item.digest, format!("D{i}"));
        assert_eq!(item.mime_detected, "text/html");
    }
}

#[test]
fn query_exec_surfaces_status() {
    let q = CDXQuerier::new();
    assert_eq!(q.exec(503, b"[]"), Err(Error::UnexpectedStatus(503)));
}

#[test]
fn records_decode_failures() {
    assert_eq!(CDXItems::from_json_bytes(b"{not json"), Err(Error::DecodeFailed));
    assert_eq!(CDXItems::from_json_bytes(b"{\"urlkey\":\"a\"}"), Err(Error::DecodeFailed));
    let good = record_json(1);
    let missing = "{\"urlkey\":\"a\"}";
    let body = format!("[{good},{missing}]");
    assert_eq!(CDXItems::fetch(200, body.as_bytes()), Err(Error::DecodeFailed));
    let bad_number = record_json(2).replace("\"status\":\"200\"", "\"status\":\"OK\"");
    assert_eq!(CDXItems::fetch(200, format!("[{bad_number}]").as_bytes()), Err(Error::DecodeFailed));
    let too_big = record_json(3).replace("\"offset\":\"1500\"", "\"offset\":\"18446744073709551616\"");
    assert_eq!(CDXItems::fetch(200, format!("[{too_big}]").as_bytes()), Err(Error::DecodeFailed));
    let largest = record_json(3).replace("\"offset\":\"1500\"", "\"offset\":\"18446744073709551615\"");
    let page = CDXItems::fetch(200, format!("[{largest}]").as_bytes()).unwrap();
    assert_eq!(page.0[0].offset, u64::MAX);
    assert_eq!(CDXItems::new().len(), 0);
}

#[test]
fn defaults_are_empty() {
    let q = CDXQuerier::default();
    assert_eq!(q, CDXQuerier::new());
    assert_eq!(q.query_string(), "output=json");
    assert_eq!(Fetcher::default(), Fetcher::new());
    assert_eq!(CollectionInfo::default(), CollectionInfo::new());
    assert_eq!(CDXItem::default().timestamp, 0);
    assert_eq!(CollectionsInfo::default().len(), 0);
    assert_eq!(CDXItems::default().len(), 0);
}
