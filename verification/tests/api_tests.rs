use vjmapper::api::{
    family_search_request, icon_request, png_request, search_request, svg_request,
    DownloadPngParams, DownloadSvgParams, FamilySearchParams, ProductType, SearchParams,
    API_BASE_URL,
};

fn pairs(v: &[(&str, &str)]) -> Vec<(String, String)> {
    v.iter().map(|(k, x)| (k.to_string(), x.to_string())).collect()
}

#[test]
fn product_type_text_round_trip() {
    for p in [
        ProductType::Icons,
        ProductType::Illustrations,
        ProductType::Emojis,
        ProductType::Elements,
    ] {
        let text = p.to_string();
        assert_eq!(ProductType::parse(&text).unwrap(), p);
        let parsed: ProductType = text.parse().unwrap();
        assert_eq!(parsed, p);
    }
    assert_eq!(ProductType::Illustrations.as_str(), "illustrations");
}

#[test]
fn product_type_parse_ignores_case() {
    assert_eq!(ProductType::parse("ICONS").unwrap(), ProductType::Icons);
    assert_eq!(ProductType::parse("Emojis").unwrap(), ProductType::Emojis);
    assert_eq!(ProductType::parse("ELEMENTS").unwrap(), ProductType::Elements);
}

#[test]
fn product_type_parse_rejects_unknown() {
    let err = ProductType::parse("vectors").unwrap_err();
    assert_eq!(err.input, "vectors");
    assert_eq!(
        err.message(),
        "Invalid product type: vectors. Must be one of: icons, illustrations, emojis, elements"
    );
    assert!(ProductType::parse(" icons").is_err());
}

#[test]
fn search_request_url_and_query() {
    let params = SearchParams {
        product_type: ProductType::Icons,
        query: "home".to_string(),
        offset: Some(20),
        limit: None,
        product_tier: Some("free".to_string()),
        style: None,
    };
    let r = search_request(&params);
    assert_eq!(r.url, "https://public-api.streamlinehq.com/icons/search");
    assert_eq!(
        r.query,
        pairs(&[("productType", "icons"), ("query", "home"), ("offset", "20"), ("productTier", "free")])
    );

    let full = SearchParams {
        product_type: ProductType::Emojis,
        query: "cat".to_string(),
        offset: Some(0),
        limit: Some(4294967295),
        product_tier: None,
        style: Some("flat".to_string()),
    };
    assert_eq!(
        search_request(&full).query,
        pairs(&[
            ("productType", "emojis"),
            ("query", "cat"),
            ("offset", "0"),
            ("limit", "4294967295"),
            ("style", "flat")
        ])
    );
}

#[test]
fn family_and_icon_requests() {
    let params = FamilySearchParams {
        family_slug: "core-line".to_string(),
        query: "arrow".to_string(),
        offset: None,
        limit: Some(10),
    };
    let r = family_search_request(&params);
    assert_eq!(r.url, format!("{}/icons/family/core-line/search", API_BASE_URL));
    assert_eq!(r.query, pairs(&[("query", "arrow"), ("limit", "10")]));

    let i = icon_request("ico-123");
    assert_eq!(i.url, "https://public-api.streamlinehq.com/icons/ico-123");
    assert!(i.query.is_empty());
}

#[test]
fn svg_request_query_order() {
    let params = DownloadSvgParams {
        icon_hash: "h1".to_string(),
        size: 48,
        colors: Some(vec!["#000".to_string(), "red".to_string()]),
        background_color: Some("#fff".to_string()),
        responsive: Some(true),
        stroke_width: Some(1.5f32.to_string()),
        stroke_to_fill: Some(false),
        base64: None,
    };
    let r = svg_request(&params);
    assert_eq!(r.url, "https://public-api.streamlinehq.com/icons/h1/svg");
    assert_eq!(
        r.query,
        pairs(&[
            ("size", "48"),
            ("colors", "#000"),
            ("colors", "red"),
            ("backgroundColor", "#fff"),
            ("responsive", "true"),
            ("strokeWidth", "1.5"),
            ("strokeToFill", "false")
        ])
    );
}

#[test]
fn png_request_query_order() {
    let params = DownloadPngParams {
        icon_hash: "h2".to_string(),
        size: 0,
        colors: None,
        background_color: None,
        stroke_width: Some(2.0f32.to_string()),
    };
    let r = png_request(&params);
    assert_eq!(r.url, "https://public-api.streamlinehq.com/icons/h2/png");
    assert_eq!(r.query, pairs(&[("size", "0"), ("strokeWidth", "2")]));
}
