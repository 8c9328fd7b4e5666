//! Requests to the Streamline icon API: product types, request parameters,
//! the URL and query pairs of each request, and the shapes of the replies.

use vstd::prelude::*;
use crate::text::{
    ascii_lowercase, bool_string, bool_text, decimal, decimal_string, is_ascii_chars, str_eq,
    to_lowercase, unicode_lowercase,
};

verus! {

/// Base URL of the public Streamline API.
pub const API_BASE_URL: &'static str = "https://public-api.streamlinehq.com";

/// Name of the header that carries the API key.
pub const API_KEY_HEADER: &'static str = "X-API-Key";

/// Kind of asset a search looks for.
#[derive(Clone, Copy, Debug, PartialEq, Eq, Structural)]
pub enum ProductType {
    Icons,
    Illustrations,
    Emojis,
    Elements,
}

/// The wire name of a product type ("icons", "illustrations", "emojis", "elements").
pub open spec fn product_type_text(p: ProductType) -> Seq<char> {
    match p {
        ProductType::Icons => seq!['i', 'c', 'o', 'n', 's'],
        ProductType::Illustrations => seq![
            'i', 'l', 'l', 'u', 's', 't', 'r', 'a', 't', 'i', 'o', 'n', 's',
        ],
        ProductType::Emojis => seq!['e', 'm', 'o', 'j', 'i', 's'],
        ProductType::Elements => seq!['e', 'l', 'e', 'm', 'e', 'n', 't', 's'],
    }
}

/// The product type whose wire name is exactly `lowered`, if any.
pub open spec fn product_type_named(lowered: Seq<char>) -> Option<ProductType> {
    if lowered == product_type_text(ProductType::Icons) {
        Some(ProductType::Icons)
    } else if lowered == product_type_text(ProductType::Illustrations) {
        Some(ProductType::Illustrations)
    } else if lowered == product_type_text(ProductType::Emojis) {
        Some(ProductType::Emojis)
    } else if lowered == product_type_text(ProductType::Elements) {
        Some(ProductType::Elements)
    } else {
        None
    }
}

/// A product type name that is none of the four known ones.
#[derive(Clone, Debug)]
pub struct InvalidProductType {
    /// The text as it was given.
    pub input: String,
}

/// The message of an unknown product type.
pub open spec fn invalid_product_type_message(input: Seq<char>) -> Seq<char> {
    "Invalid product type: "@ + input
        + ". Must be one of: icons, illustrations, emojis, elements"@
}

impl InvalidProductType {
    /// "Invalid product type: <input>. Must be one of: icons, illustrations, emojis, elements".
    pub fn message(&self) -> (m: String)
        ensures
            m@ == invalid_product_type_message(self.input@),
    {
        let mut m = String::from_str("Invalid product type: ");
        m.append(self.input.as_str());
        m.append(". Must be one of: icons, illustrations, emojis, elements");
        m
    }
}

impl ProductType {
    /// The wire name of the product type.
    pub fn as_str(&self) -> (s: &'static str)
        ensures
            s@ == product_type_text(*self),
    {
        match self {
            ProductType::Icons => {
                proof {
                    reveal_strlit("icons");
                }
                "icons"
            },
            ProductType::Illustrations => {
                proof {
                    reveal_strlit("illustrations");
                }
                "illustrations"
            },
            ProductType::Emojis => {
                proof {
                    reveal_strlit("emojis");
                }
                "emojis"
            },
            ProductType::Elements => {
                proof {
                    reveal_strlit("elements");
                }
                "elements"
            },
        }
    }

    /// The wire name of the product type, as an owned string.
    pub fn to_string(&self) -> (s: String)
        ensures
            s@ == product_type_text(*self),
    {
        String::from_str(self.as_str())
    }

    /// Reads a product type name, ignoring case: the input is lower-cased
    /// (Unicode lowercase) and must then be one of the four wire names.
    pub fn parse(s: &str) -> (res: Result<ProductType, InvalidProductType>)
        ensures
            res matches Ok(p) ==> product_type_named(unicode_lowercase(s@)) == Some(p),
            res matches Err(e) ==> product_type_named(unicode_lowercase(s@)) is None && e.input@
                == s@,
            is_ascii_chars(s@) ==> product_type_named(unicode_lowercase(s@))
                == product_type_named(ascii_lowercase(s@)),
    {
        let lower = to_lowercase(s);
        let l = lower.as_str();
        if str_eq(l, ProductType::Icons.as_str()) {
            Ok(ProductType::Icons)
        } else if str_eq(l, ProductType::Illustrations.as_str()) {
            Ok(ProductType::Illustrations)
        } else if str_eq(l, ProductType::Emojis.as_str()) {
            Ok(ProductType::Emojis)
        } else if str_eq(l, ProductType::Elements.as_str()) {
            Ok(ProductType::Elements)
        } else {
            Err(InvalidProductType { input: String::from_str(s) })
        }
    }
}

impl std::str::FromStr for ProductType {
    type Err = InvalidProductType;

    /// The same as `ProductType::parse`.
    fn from_str(s: &str) -> (res: Result<ProductType, InvalidProductType>)
        ensures
            res matches Ok(p) ==> product_type_named(unicode_lowercase(s@)) == Some(p),
            res matches Err(e) ==> product_type_named(unicode_lowercase(s@)) is None && e.input@
                == s@,
            is_ascii_chars(s@) ==> product_type_named(unicode_lowercase(s@))
                == product_type_named(ascii_lowercase(s@)),
    {
        ProductType::parse(s)
    }
}

/// The wire name of every product type is plain ASCII lowercase and reads
/// back as the same product type: parsing what `to_string` prints gives the
/// value back.
pub proof fn lemma_product_type_round_trip(p: ProductType)
    ensures
        is_ascii_chars(product_type_text(p)),
        ascii_lowercase(product_type_text(p)) == product_type_text(p),
        product_type_named(ascii_lowercase(product_type_text(p))) == Some(p),
{
    let t = product_type_text(p);
    assert(ascii_lowercase(t) =~= t);
}


/// Parameters of a search over all families.
#[derive(Clone, Debug)]
pub struct SearchParams {
    pub product_type: ProductType,
    pub query: String,
    pub offset: Option<u32>,
    pub limit: Option<u32>,
    pub product_tier: Option<String>,
    pub style: Option<String>,
}

/// Parameters of a search inside one family.
#[derive(Clone, Debug)]
pub struct FamilySearchParams {
    pub family_slug: String,
    pub query: String,
    pub offset: Option<u32>,
    pub limit: Option<u32>,
}

/// Parameters of an SVG download. The stroke width is carried as the text
/// that the request sends for it (the decimal rendering of the `f32` width).
#[derive(Clone, Debug)]
pub struct DownloadSvgParams {
    pub icon_hash: String,
    pub size: u32,
    pub colors: Option<Vec<String>>,
    pub background_color: Option<String>,
    pub responsive: Option<bool>,
    pub stroke_width: Option<String>,
    pub stroke_to_fill: Option<bool>,
    pub base64: Option<bool>,
}

/// Parameters of a PNG download. The stroke width is carried as the text
/// that the request sends for it.
#[derive(Clone, Debug)]
pub struct DownloadPngParams {
    pub icon_hash: String,
    pub size: u32,
    pub colors: Option<Vec<String>>,
    pub background_color: Option<String>,
    pub stroke_width: Option<String>,
}

/// One GET request to the API: its URL and its query pairs, in order.
#[derive(Clone, Debug)]
pub struct ApiRequest {
    pub url: String,
    pub query: Vec<(String, String)>,
}

/// The query pairs as texts.
pub open spec fn pairs_view(q: Seq<(String, String)>) -> Seq<(Seq<char>, Seq<char>)> {
    q.map_values(|p: (String, String)| (p.0@, p.1@))
}

/// One pair for a present value, none for an absent one.
pub open spec fn opt_pair(key: Seq<char>, v: Option<Seq<char>>) -> Seq<(Seq<char>, Seq<char>)> {
    match v {
        Some(x) => seq![(key, x)],
        None => seq![],
    }
}

/// Decimal text of an optional number.
pub open spec fn opt_u32_text(v: Option<u32>) -> Option<Seq<char>> {
    match v {
        Some(n) => Some(decimal(n as nat)),
        None => None,
    }
}

/// Text of an optional string.
pub open spec fn opt_str_text(v: Option<String>) -> Option<Seq<char>> {
    match v {
        Some(s) => Some(s@),
        None => None,
    }
}

/// "true"/"false" of an optional flag.
pub open spec fn opt_bool_text(v: Option<bool>) -> Option<Seq<char>> {
    match v {
        Some(b) => Some(bool_text(b)),
        None => None,
    }
}

/// One ("colors", c) pair per colour, in order.
pub open spec fn color_pairs(colors: Option<Vec<String>>) -> Seq<(Seq<char>, Seq<char>)> {
    match colors {
        Some(c) => c@.map_values(|x: String| ("colors"@, x@)),
        None => seq![],
    }
}

/// URL of the search over all families.
pub open spec fn search_url() -> Seq<char> {
    API_BASE_URL@ + "/icons/search"@
}

/// URL of the search inside family `slug`.
pub open spec fn family_search_url(slug: Seq<char>) -> Seq<char> {
    API_BASE_URL@ + "/icons/family/"@ + slug + "/search"@
}

/// URL of the details of icon `hash`.
pub open spec fn icon_url(hash: Seq<char>) -> Seq<char> {
    API_BASE_URL@ + "/icons/"@ + hash
}

/// URL of the SVG of icon `hash`.
pub open spec fn svg_url(hash: Seq<char>) -> Seq<char> {
    icon_url(hash) + "/svg"@
}

/// URL of the PNG of icon `hash`.
pub open spec fn png_url(hash: Seq<char>) -> Seq<char> {
    icon_url(hash) + "/png"@
}

/// Query of a search: product type and query, then offset, limit, tier and
/// style where given.
pub open spec fn search_query(p: SearchParams) -> Seq<(Seq<char>, Seq<char>)> {
    seq![("productType"@, product_type_text(p.product_type)), ("query"@, p.query@)] + opt_pair(
        "offset"@,
        opt_u32_text(p.offset),
    ) + opt_pair("limit"@, opt_u32_text(p.limit)) + opt_pair(
        "productTier"@,
        opt_str_text(p.product_tier),
    ) + opt_pair("style"@, opt_str_text(p.style))
}

/// Query of a family search: query, then offset and limit where given.
pub open spec fn family_search_query(p: FamilySearchParams) -> Seq<(Seq<char>, Seq<char>)> {
    seq![("query"@, p.query@)] + opt_pair("offset"@, opt_u32_text(p.offset)) + opt_pair(
        "limit"@,
        opt_u32_text(p.limit),
    )
}

/// Query of an SVG download: size, each colour, then background colour,
/// responsive, stroke width, stroke-to-fill and base64 where given.
pub open spec fn svg_query(p: DownloadSvgParams) -> Seq<(Seq<char>, Seq<char>)> {
    seq![("size"@, decimal(p.size as nat))] + color_pairs(p.colors) + opt_pair(
        "backgroundColor"@,
        opt_str_text(p.background_color),
    ) + opt_pair("responsive"@, opt_bool_text(p.responsive)) + opt_pair(
        "strokeWidth"@,
        opt_str_text(p.stroke_width),
    ) + opt_pair("strokeToFill"@, opt_bool_text(p.stroke_to_fill)) + opt_pair(
        "base64"@,
        opt_bool_text(p.base64),
    )
}

/// Query of a PNG download: size, each colour, then background colour and
/// stroke width where given.
pub open spec fn png_query(p: DownloadPngParams) -> Seq<(Seq<char>, Seq<char>)> {
    seq![("size"@, decimal(p.size as nat))] + color_pairs(p.colors) + opt_pair(
        "backgroundColor"@,
        opt_str_text(p.background_color),
    ) + opt_pair("strokeWidth"@, opt_str_text(p.stroke_width))
}

fn push_pair(q: &mut Vec<(String, String)>, key: &str, value: String)
    ensures
        pairs_view(final(q)@) == pairs_view(old(q)@) + seq![(key@, value@)],
{
    let ghost before = q@;
    q.push((String::from_str(key), value));
    assert(pairs_view(q@) =~= pairs_view(before) + seq![(key@, value@)]);
}

fn push_opt(q: &mut Vec<(String, String)>, key: &str, value: Option<String>)
    ensures
        pairs_view(final(q)@) == pairs_view(old(q)@) + opt_pair(key@, opt_str_text(value)),
{
    match value {
        Some(v) => push_pair(q, key, v),
        None => {
            assert(pairs_view(q@) =~= pairs_view(q@) + opt_pair(key@, opt_str_text(value)));
        },
    }
}

fn opt_u32_string(v: Option<u32>) -> (r: Option<String>)
    ensures
        opt_str_text(r) == opt_u32_text(v),
{
    match v {
        Some(n) => Some(decimal_string(n as u64)),
        None => None,
    }
}

fn opt_bool_string(v: Option<bool>) -> (r: Option<String>)
    ensures
        opt_str_text(r) == opt_bool_text(v),
{
    match v {
        Some(b) => Some(bool_string(b)),
        None => None,
    }
}

fn clone_opt(v: &Option<String>) -> (r: Option<String>)
    ensures
        opt_str_text(r) == opt_str_text(*v),
{
    match v {
        Some(s) => Some(s.clone()),
        None => None,
    }
}

fn push_colors(q: &mut Vec<(String, String)>, colors: &Option<Vec<String>>)
    ensures
        pairs_view(final(q)@) == pairs_view(old(q)@) + color_pairs(*colors),
{
    match colors {
        Some(c) => {
            let ghost before = pairs_view(q@);
            let ghost f = |x: String| ("colors"@, x@);
            let mut i: usize = 0;
            while i < c.len()
                invariant
                    i <= c.len(),
                    pairs_view(q@) == before + c@.subrange(0, i as int).map_values(f),
                    f == (|x: String| ("colors"@, x@)),
                decreases c.len() - i,
            {
                push_pair(q, "colors", c[i].clone());
                proof {
                    assert(c@.subrange(0, i + 1).map_values(f) =~= c@.subrange(
                        0,
                        i as int,
                    ).map_values(f) + seq![f(c@[i as int])]);
                }
                i = i + 1;
            }
            assert(c@.subrange(0, c.len() as int) =~= c@);
        },
        None => {
            assert(pairs_view(q@) =~= pairs_view(q@) + color_pairs(*colors));
        },
    }
}

/// The request of a search over all families.
pub fn search_request(params: &SearchParams) -> (r: ApiRequest)
    ensures
        r.url@ == search_url(),
        pairs_view(r.query@) == search_query(*params),
{
    let mut url = String::from_str(API_BASE_URL);
    url.append("/icons/search");
    let mut q: Vec<(String, String)> = Vec::new();
    push_pair(&mut q, "productType", params.product_type.to_string());
    push_pair(&mut q, "query", params.query.clone());
    push_opt(&mut q, "offset", opt_u32_string(params.offset));
    push_opt(&mut q, "limit", opt_u32_string(params.limit));
    push_opt(&mut q, "productTier", clone_opt(&params.product_tier));
    push_opt(&mut q, "style", clone_opt(&params.style));
    assert(pairs_view(q@) =~= search_query(*params));
    ApiRequest { url, query: q }
}

/// The request of a search inside one family.
pub fn family_search_request(params: &FamilySearchParams) -> (r: ApiRequest)
    ensures
        r.url@ == family_search_url(params.family_slug@),
        pairs_view(r.query@) == family_search_query(*params),
{
    let mut url = String::from_str(API_BASE_URL);
    url.append("/icons/family/");
    url.append(params.family_slug.as_str());
    url.append("/search");
    let mut q: Vec<(String, String)> = Vec::new();
    push_pair(&mut q, "query", params.query.clone());
    push_opt(&mut q, "offset", opt_u32_string(params.offset));
    push_opt(&mut q, "limit", opt_u32_string(params.limit));
    assert(pairs_view(q@) =~= family_search_query(*params));
    ApiRequest { url, query: q }
}

/// The request of the details of one icon; it has no query.
pub fn icon_request(icon_hash: &str) -> (r: ApiRequest)
    ensures
        r.url@ == icon_url(icon_hash@),
        r.query@.len() == 0,
{
    let mut url = String::from_str(API_BASE_URL);
    url.append("/icons/");
    url.append(icon_hash);
    ApiRequest { url, query: Vec::new() }
}

/// The request of an SVG download.
pub fn svg_request(params: &DownloadSvgParams) -> (r: ApiRequest)
    ensures
        r.url@ == svg_url(params.icon_hash@),
        pairs_view(r.query@) == svg_query(*params),
{
    let mut url = String::from_str(API_BASE_URL);
    url.append("/icons/");
    url.append(params.icon_hash.as_str());
    url.append("/svg");
    let mut q: Vec<(String, String)> = Vec::new();
    push_pair(&mut q, "size", decimal_string(params.size as u64));
    push_colors(&mut q, &params.colors);
    push_opt(&mut q, "backgroundColor", clone_opt(&params.background_color));
    push_opt(&mut q, "responsive", opt_bool_string(params.responsive));
    push_opt(&mut q, "strokeWidth", clone_opt(&params.stroke_width));
    push_opt(&mut q, "strokeToFill", opt_bool_string(params.stroke_to_fill));
    push_opt(&mut q, "base64", opt_bool_string(params.base64));
    assert(pairs_view(q@) =~= svg_query(*params));
    ApiRequest { url, query: q }
}

/// The request of a PNG download.
pub fn png_request(params: &DownloadPngParams) -> (r: ApiRequest)
    ensures
        r.url@ == png_url(params.icon_hash@),
        pairs_view(r.query@) == png_query(*params),
{
    let mut url = String::from_str(API_BASE_URL);
    url.append("/icons/");
    url.append(params.icon_hash.as_str());
    url.append("/png");
    let mut q: Vec<(String, String)> = Vec::new();
    push_pair(&mut q, "size", decimal_string(params.size as u64));
    push_colors(&mut q, &params.colors);
    push_opt(&mut q, "backgroundColor", clone_opt(&params.background_color));
    push_opt(&mut q, "strokeWidth", clone_opt(&params.stroke_width));
    assert(pairs_view(q@) =~= png_query(*params));
    ApiRequest { url, query: q }
}

/// One icon of a search reply.
#[derive(Clone, Debug)]
pub struct IconResult {
    pub hash: String,
    pub name: String,
    pub family_name: String,
    pub family_slug: String,
    pub style: String,
    pub is_free: bool,
}

/// A page of search results.
#[derive(Clone, Debug)]
pub struct SearchResponse {
    pub data: Vec<IconResult>,
    pub total: u32,
    pub offset: u32,
    pub limit: u32,
}

/// The details of one icon.
#[derive(Clone, Debug)]
pub struct IconDetails {
    pub hash: String,
    pub name: String,
    pub family_name: String,
    pub family_slug: String,
    pub style: String,
    pub is_free: bool,
    pub tags: Vec<String>,
    pub categories: Vec<String>,
}

} // verus!
