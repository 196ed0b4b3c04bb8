use polyio::api::aggregates;
use polyio::api::aggregates::AggregateReq;
use polyio::api::aggregates::Date;
use polyio::api::aggregates::TimeSpan;
use polyio::api::market_status;
use polyio::api::quotes;
use polyio::api::quotes::QuoteOrder;
use polyio::api::quotes::QuoteSortBy;
use polyio::api::quotes::QuoteTimespanFilter;
use polyio::api::quotes::QuotesReq;
use polyio::api::ticker;
use polyio::api::ticker::Market;
use polyio::api::ticker::Ticker;
use polyio::api::ticker::Type;
use polyio::api::ticker_news;
use polyio::api::ticker_news::NewsReq;
use polyio::api::tickers;
use polyio::api::tickers::Page;
use polyio::api::tickers::TickerReq;
use polyio::ApiInfo;
use polyio::Error;
use polyio::HttpBody;
use polyio::Response;
use polyio::ResponseError;

/// Verify that we can create an `ApiInfo` object.
#[test]
fn create_api_info() {
    let _ = ApiInfo::new("XXXXXXXXXXXXXXXXXXXX");
}

#[test]
fn api_info_defaults_and_query() {
    let info = ApiInfo::new("my key");
    assert_eq!(info.api_url, "https://api.polygon.io");
    assert_eq!(info.stream_url, "wss://socket.polygon.io");
    assert_eq!(info.api_key, "my key");
    assert_eq!(info.request_query(None), "apiKey=my+key");
    assert_eq!(
        info.request_query(Some("page=2".to_string())),
        "page=2&apiKey=my+key"
    );
    assert_eq!(info.request_query(Some(String::new())), "apiKey=my+key");
}

#[test]
fn decode_ok() {
    let response = Response::from_status("OK".to_string(), vec!["abc".to_string()]);
    match response {
        Response::Complete(data) if data.as_slice() == ["abc"] => (),
        _ => panic!("unexpected result"),
    }
}

#[test]
fn decode_delayed() {
    let response = Response::from_status("DELAYED".to_string(), vec!["abc".to_string()]);
    match response {
        Response::Delayed(data) if data.as_slice() == ["abc"] => (),
        _ => panic!("unexpected result"),
    }
}

#[test]
fn delayed_envelope_is_success() {
    let response = Response::from_status("DELAYED".to_string(), vec!["abc".to_string()]);
    assert_eq!(response.into_result(), Ok(vec!["abc".to_string()]));
    let response = Response::from_status("OK".to_string(), 7);
    assert_eq!(response.into_result(), Ok(7));
}

#[test]
fn error_envelope_keeps_status() {
    let response = Response::from_status("ERR".to_string(), None::<Vec<String>>);
    assert_eq!(response, Response::Failed("ERR".to_string()));
    let err = response.into_result().unwrap_err();
    assert_eq!(err, ResponseError("ERR".to_string()));
    assert_eq!(err.to_string(), "response did not indicate success: ERR");
    // Status names are compared exactly.
    let response = Response::from_status("ok".to_string(), 1);
    assert_eq!(response.into_result(), Err(ResponseError("ok".to_string())));
}

fn apple() -> Ticker {
    Ticker {
        ticker: "AAPL".to_string(),
        name: "Apple Inc. Common Stock".to_string(),
        market: Market::Stocks,
        locale: "us".to_string(),
        currency: "USD".to_string(),
        active: true,
        type_: Some(Type::CommonStock),
    }
}

#[test]
fn page_into_result() {
    let page = Page {
        status: "OK".to_string(),
        page: 1,
        per_page: 50,
        count: 1,
        tickers: vec![apple()],
    };
    assert_eq!(page.into_result(), Ok(vec![apple()]));

    let page = Page {
        status: "DELAYED".to_string(),
        page: 1,
        per_page: 50,
        count: 1,
        tickers: vec![apple()],
    };
    assert_eq!(page.into_result(), Ok(vec![apple()]));

    let page = Page {
        status: "NOT_OK".to_string(),
        page: 1,
        per_page: 50,
        count: 0,
        tickers: Vec::new(),
    };
    assert_eq!(
        page.into_result(),
        Err(Error::Str("response did not indicate success: NOT_OK".to_string()))
    );
}

#[test]
fn str_errors() {
    let err = Error::Str("foobar failed".into());
    assert_eq!(err.to_string(), "foobar failed");

    let err = Error::Url("empty host".to_string());
    assert_eq!(err.to_string(), "failed to parse the URL");

    let body = HttpBody(b"entity not available".to_vec());
    let err = Error::HttpStatus(404, body);
    assert_eq!(
        err.to_string(),
        "encountered an unexpected HTTP status: 404 Not Found"
    );
}

#[test]
fn error_descriptions() {
    assert_eq!(
        Error::HttpStatus(429, HttpBody(Vec::new())).to_string(),
        "encountered an unexpected HTTP status: 429 Too Many Requests"
    );
    assert_eq!(
        Error::HttpStatus(799, HttpBody(Vec::new())).to_string(),
        "encountered an unexpected HTTP status: 799 <unknown status code>"
    );
    assert_eq!(
        Error::Json("eof".to_string()).to_string(),
        "a JSON conversion failed"
    );
    assert_eq!(
        Error::WebSocket("reset".to_string()).to_string(),
        "encountered a websocket related error"
    );
    assert_eq!(
        Error::Http("timeout".to_string()).to_string(),
        "encountered an HTTP related error"
    );
}

#[test]
fn aggregates_path() {
    let req = AggregateReq {
        symbol: "AAPL".to_string(),
        time_span: TimeSpan::Day,
        multiplier: 1,
        start_date: Date::from_ymd(2021, 11, 1).unwrap(),
        end_date: Date::from_ymd(2021, 11, 30).unwrap(),
    };
    assert_eq!(
        aggregates::path(&req),
        "/v2/aggs/ticker/AAPL/range/1/day/2021-11-01/2021-11-30"
    );

    let req = AggregateReq {
        symbol: "SPY".to_string(),
        time_span: TimeSpan::Minute,
        multiplier: 15,
        start_date: Date::from_ymd(817, 2, 3).unwrap(),
        end_date: Date::from_ymd(2021, 12, 2).unwrap(),
    };
    assert_eq!(
        aggregates::path(&req),
        "/v2/aggs/ticker/SPY/range/15/minute/0817-02-03/2021-12-02"
    );
}

#[test]
fn dates() {
    assert!(Date::from_ymd(2020, 2, 29).is_some());
    assert!(Date::from_ymd(2021, 2, 29).is_none());
    assert!(Date::from_ymd(1900, 2, 29).is_none());
    assert!(Date::from_ymd(2000, 2, 29).is_some());
    assert!(Date::from_ymd(2021, 4, 31).is_none());
    assert!(Date::from_ymd(2021, 13, 1).is_none());
    assert!(Date::from_ymd(2021, 1, 0).is_none());
    assert!(Date::from_ymd(10000, 1, 1).is_none());
    assert_eq!(Date::from_ymd(2019, 2, 4).unwrap().format(), "2019-02-04");
}

#[test]
fn time_span_names() {
    let names: Vec<&str> = [
        TimeSpan::Minute,
        TimeSpan::Hour,
        TimeSpan::Day,
        TimeSpan::Week,
        TimeSpan::Month,
        TimeSpan::Quarter,
        TimeSpan::Year,
    ]
    .iter()
    .map(|s| s.as_ref())
    .collect();
    assert_eq!(
        names,
        vec!["minute", "hour", "day", "week", "month", "quarter", "year"]
    );
}

#[test]
fn tickers_query() {
    assert_eq!(tickers::query(&TickerReq::default()), "sort=ticker&page=1");
    let req = TickerReq {
        market: Some(Market::Stocks),
        type_: Some(Type::CommonStock),
        active: Some(false),
        page: 12,
    };
    assert_eq!(
        tickers::query(&req),
        "market=STOCKS&type=CS&active=false&sort=ticker&page=12"
    );
    let req = TickerReq {
        market: Some(Market::ForeignExchange),
        type_: Some(Type::Other),
        active: Some(true),
        page: 3,
    };
    assert_eq!(tickers::query(&req), "market=FX&active=true&sort=ticker&page=3");
    assert_eq!(tickers::PATH, "/v2/reference/tickers");
}

#[test]
fn ticker_path_and_names() {
    assert_eq!(ticker::path("AAPL"), "/v2/reference/tickers/AAPL");
    assert_eq!(Market::from_name("INDEX"), Some(Market::Indices));
    assert_eq!(Market::from_name("BONDS"), None);
    assert_eq!(Market::Indices.as_ref(), "INDEX");
    assert_eq!(Type::from_name("CS"), Type::CommonStock);
    assert_eq!(Type::from_name("ETF"), Type::Other);
}

#[test]
fn news_path_and_query() {
    let req = NewsReq {
        symbol: "AAPL".to_string(),
        page: 2,
        per_page: 50,
    };
    assert_eq!(ticker_news::path(&req), "/v1/meta/symbols/AAPL/news");
    assert_eq!(ticker_news::query(&req), "perpage=50&page=2");
}

#[test]
fn quotes_path_and_query() {
    let req = QuotesReq {
        symbol: "AAPL".to_string(),
        timestamp: "2022-02-01".to_string(),
        filter: Some(QuoteTimespanFilter::GreaterThanEqual),
        order: Some(QuoteOrder::Ascending),
        sort: Some(QuoteSortBy::Timestamp),
    };
    assert_eq!(quotes::path(&req), "/v3/quotes/AAPL");
    assert_eq!(
        quotes::query(&req),
        "timestamp.gte=2022-02-01&order=asc&sort=timestamp"
    );
    let req = QuotesReq {
        symbol: "SPY".to_string(),
        timestamp: "2022-02-01".to_string(),
        filter: None,
        order: None,
        sort: None,
    };
    assert_eq!(quotes::query(&req), "timestamp=2022-02-01");
    assert_eq!(QuoteTimespanFilter::LessThan.as_ref(), "lt");
    assert_eq!(QuoteOrder::Descending.as_ref(), "desc");
}

#[test]
fn market_status_names() {
    assert_eq!(market_status::Status::from_name("open"), market_status::Status::Open);
    assert_eq!(market_status::Status::from_name("closed"), market_status::Status::Closed);
    assert_eq!(market_status::Status::from_name("extended-hours"), market_status::Status::Unknown);
}

#[test]
fn error_message_text() {
    let message = polyio::ErrorMessage {
        message: "not found".to_string(),
    };
    assert_eq!(message.to_string(), "not found");
}

#[test]
fn request_and_session_urls() {
    let info = ApiInfo::new("k");
    assert_eq!(
        info.request_url("/v2/reference/tickers", Some("sort=ticker&page=1".to_string())),
        Ok("https://api.polygon.io/v2/reference/tickers?sort=ticker&page=1&apiKey=k".to_string())
    );
    assert_eq!(
        info.request_url("/v1/meta/exchanges", None),
        Ok("https://api.polygon.io/v1/meta/exchanges?apiKey=k".to_string())
    );
    assert_eq!(info.session_url(), Ok("wss://socket.polygon.io/stocks".to_string()));

    let info = ApiInfo {
        api_url: "not a url".to_string(),
        stream_url: "http://localhost:8080/ignored".to_string(),
        api_key: "k".to_string(),
    };
    assert!(matches!(info.request_url("/x", None), Err(Error::Url(_))));
    assert_eq!(info.session_url(), Ok("wss://localhost:8080/stocks".to_string()));

    let info = ApiInfo {
        api_url: "https://api.polygon.io".to_string(),
        stream_url: "foo://example.net".to_string(),
        api_key: "k".to_string(),
    };
    assert_eq!(
        info.session_url(),
        Err(Error::Str(
            "unable to change URL scheme for foo://example.net: invalid URL?".to_string()
        ))
    );
}

#[test]
fn api_info_from_parts() {
    let info = ApiInfo::from_parts(None, None, Some("key".to_string())).unwrap();
    assert_eq!(info, ApiInfo::new("key"));

    let info = ApiInfo::from_parts(
        Some("http://localhost:1234".to_string()),
        Some("ws://localhost:5678".to_string()),
        Some("key".to_string()),
    )
    .unwrap();
    assert_eq!(info.api_url, "http://localhost:1234");
    assert_eq!(info.stream_url, "ws://localhost:5678");

    assert_eq!(
        ApiInfo::from_parts(None, None, None),
        Err(Error::Str("POLYGON_API_KEY environment variable not found".to_string()))
    );
    assert!(matches!(
        ApiInfo::from_parts(Some("not a url".to_string()), None, None),
        Err(Error::Url(_))
    ));
    assert!(matches!(
        ApiInfo::from_parts(None, Some("::".to_string()), Some("k".to_string())),
        Err(Error::Url(_))
    ));
}

#[test]
fn date_components() {
    let date = Date::from_ymd(2021, 11, 30).unwrap();
    assert_eq!((date.year(), date.month(), date.day()), (2021, 11, 30));
}
