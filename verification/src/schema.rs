//! The input schemas of the MCP tools, as plain data: each tool's
//! properties (name, kind, description, allowed values, default) and the
//! arguments it requires.

use vstd::prelude::*;

verus! {

/// The JSON kind of a tool argument.
#[derive(Clone, Copy, Debug, PartialEq, Eq, Structural)]
pub enum PropertyKind {
    /// "string"
    Text,
    /// "number"
    Number,
    /// "boolean"
    Flag,
    /// "array" of "string"
    TextList,
}

/// The default value a schema announces for an argument.
#[derive(Clone, Debug)]
pub enum DefaultValue {
    Number(u64),
    Text(String),
    Flag(bool),
}

/// One property of a tool's input schema.
#[derive(Clone, Debug)]
pub struct PropertySchema {
    pub name: String,
    pub kind: PropertyKind,
    pub description: String,
    /// The allowed values; empty when any value is allowed.
    pub choices: Vec<String>,
    pub default: Option<DefaultValue>,
}

/// Ghost form of a default value.
#[verifier::ext_equal]
pub enum DefaultView {
    Number(u64),
    Text(Seq<char>),
    Flag(bool),
}

/// Ghost form of a property.
#[verifier::ext_equal]
pub struct PropertyView {
    pub name: Seq<char>,
    pub kind: PropertyKind,
    pub description: Seq<char>,
    pub choices: Seq<Seq<char>>,
    pub default: Option<DefaultView>,
}

/// The texts of a list of strings.
pub open spec fn texts_of(v: Seq<String>) -> Seq<Seq<char>> {
    v.map_values(|s: String| s@)
}

/// The ghost form of a default value.
pub open spec fn default_view(d: Option<DefaultValue>) -> Option<DefaultView> {
    match d {
        Some(DefaultValue::Number(n)) => Some(DefaultView::Number(n)),
        Some(DefaultValue::Text(t)) => Some(DefaultView::Text(t@)),
        Some(DefaultValue::Flag(b)) => Some(DefaultView::Flag(b)),
        None => None,
    }
}

/// The ghost form of a property.
pub open spec fn property_view(p: PropertySchema) -> PropertyView {
    PropertyView {
        name: p.name@,
        kind: p.kind,
        description: p.description@,
        choices: texts_of(p.choices@),
        default: default_view(p.default),
    }
}

/// The ghost forms of a list of properties.
pub open spec fn properties_view(s: Seq<PropertySchema>) -> Seq<PropertyView> {
    s.map_values(|p: PropertySchema| property_view(p))
}

fn strings(v: &[&str]) -> (r: Vec<String>)
    ensures
        texts_of(r@) == v@.map_values(|s: &str| s@),
{
    let mut r: Vec<String> = Vec::new();
    let mut i: usize = 0;
    while i < v.len()
        invariant
            i <= v.len(),
            r@.len() == i,
            texts_of(r@) == v@.subrange(0, i as int).map_values(|s: &str| s@),
        decreases v.len() - i,
    {
        let ghost before = r@;
        r.push(String::from_str(v[i]));
        proof {
            assert(r@ =~= before.push(r@[i as int]));
            assert(v@.subrange(0, i + 1) =~= v@.subrange(0, i as int).push(v@[i as int]));
            assert(texts_of(r@) =~= texts_of(before).push(r@[i as int]@));
            assert(v@.subrange(0, i + 1).map_values(|s: &str| s@) =~= v@.subrange(0, i as int).map_values(|s: &str| s@).push(v@[i as int]@));
        }
        i = i + 1;
    }
    assert(v@.subrange(0, v.len() as int) =~= v@);
    r
}

fn property(
    name: &str,
    kind: PropertyKind,
    description: &str,
    choices: Vec<String>,
    default: Option<DefaultValue>,
) -> (p: PropertySchema)
    ensures
        property_view(p) == (PropertyView {
            name: name@,
            kind,
            description: description@,
            choices: texts_of(choices@),
            default: default_view(default),
        }),
{
    PropertySchema {
        name: String::from_str(name),
        kind,
        description: String::from_str(description),
        choices,
        default,
    }
}

/// The input properties of the `search` tool.
pub open spec fn search_properties() -> Seq<PropertyView> {
    seq![
        PropertyView { name: "productType"@, kind: PropertyKind::Text, description: "Product type for the search"@, choices: seq!["icons"@, "illustrations"@, "emojis"@, "elements"@], default: None },
        PropertyView { name: "query"@, kind: PropertyKind::Text, description: "Search term to find icons"@, choices: seq![], default: None },
        PropertyView { name: "offset"@, kind: PropertyKind::Number, description: "Number of items to skip before returning results"@, choices: seq![], default: Some(DefaultView::Number(0)) },
        PropertyView { name: "limit"@, kind: PropertyKind::Number, description: "Maximum number of items to return (max 50)"@, choices: seq![], default: Some(DefaultView::Number(10)) },
        PropertyView { name: "productTier"@, kind: PropertyKind::Text, description: "Filter by price tier"@, choices: seq!["all"@, "free"@, "premium"@], default: Some(DefaultView::Text("all"@)) },
        PropertyView { name: "style"@, kind: PropertyKind::Text, description: "Filter for the style of the sets (e.g., line, solid, flat, duo)"@, choices: seq![], default: None },
    ]
}

/// The required arguments of the `search` tool.
pub open spec fn search_required() -> Seq<Seq<char>> {
    seq!["productType"@, "query"@]
}

/// The input properties of the `family_search` tool.
pub open spec fn family_search_properties() -> Seq<PropertyView> {
    seq![
        PropertyView { name: "familySlug"@, kind: PropertyKind::Text, description: "Family slug obtained from a global search"@, choices: seq![], default: None },
        PropertyView { name: "query"@, kind: PropertyKind::Text, description: "Search term to find icons"@, choices: seq![], default: None },
        PropertyView { name: "offset"@, kind: PropertyKind::Number, description: "Number of items to skip"@, choices: seq![], default: Some(DefaultView::Number(0)) },
        PropertyView { name: "limit"@, kind: PropertyKind::Number, description: "Maximum number of items to return (max 50)"@, choices: seq![], default: Some(DefaultView::Number(10)) },
    ]
}

/// The required arguments of the `family_search` tool.
pub open spec fn family_search_required() -> Seq<Seq<char>> {
    seq!["familySlug"@, "query"@]
}

/// The input properties of the `get_icon_by_hash` tool.
pub open spec fn get_icon_by_hash_properties() -> Seq<PropertyView> {
    seq![
        PropertyView { name: "iconHash"@, kind: PropertyKind::Text, description: "Icon hash obtained from a search response"@, choices: seq![], default: None },
    ]
}

/// The required arguments of the `get_icon_by_hash` tool.
pub open spec fn get_icon_by_hash_required() -> Seq<Seq<char>> {
    seq!["iconHash"@]
}

/// The input properties of the `download_svg` tool.
pub open spec fn download_svg_properties() -> Seq<PropertyView> {
    seq![
        PropertyView { name: "iconHash"@, kind: PropertyKind::Text, description: "Icon hash obtained from a search response"@, choices: seq![], default: None },
        PropertyView { name: "size"@, kind: PropertyKind::Number, description: "Image size in pixels (square)"@, choices: seq![], default: None },
        PropertyView { name: "colors"@, kind: PropertyKind::TextList, description: "List of HEX or named colors for export"@, choices: seq![], default: None },
        PropertyView { name: "backgroundColor"@, kind: PropertyKind::Text, description: "Background color in HEX or named color"@, choices: seq![], default: Some(DefaultView::Text("#ffffff00"@)) },
        PropertyView { name: "responsive"@, kind: PropertyKind::Flag, description: "Scales SVG with container; removes width/height"@, choices: seq![], default: Some(DefaultView::Flag(false)) },
        PropertyView { name: "strokeWidth"@, kind: PropertyKind::Number, description: "Adjusts vector path thickness"@, choices: seq![], default: None },
        PropertyView { name: "strokeToFill"@, kind: PropertyKind::Flag, description: "Converts strokes to fills"@, choices: seq![], default: Some(DefaultView::Flag(false)) },
        PropertyView { name: "base64"@, kind: PropertyKind::Flag, description: "Return SVG as base64 string instead of raw data"@, choices: seq![], default: None },
    ]
}

/// The required arguments of the `download_svg` tool.
pub open spec fn download_svg_required() -> Seq<Seq<char>> {
    seq!["iconHash"@, "size"@]
}

/// The input properties of the `download_png` tool.
pub open spec fn download_png_properties() -> Seq<PropertyView> {
    seq![
        PropertyView { name: "iconHash"@, kind: PropertyKind::Text, description: "Icon hash obtained from a search response"@, choices: seq![], default: None },
        PropertyView { name: "size"@, kind: PropertyKind::Number, description: "Image size in pixels (square)"@, choices: seq![], default: None },
        PropertyView { name: "colors"@, kind: PropertyKind::TextList, description: "List of HEX or named colors for export"@, choices: seq![], default: None },
        PropertyView { name: "backgroundColor"@, kind: PropertyKind::Text, description: "Background color in HEX or named color"@, choices: seq![], default: Some(DefaultView::Text("#ffffff00"@)) },
        PropertyView { name: "strokeWidth"@, kind: PropertyKind::Number, description: "Adjusts vector path thickness"@, choices: seq![], default: None },
    ]
}

/// The required arguments of the `download_png` tool.
pub open spec fn download_png_required() -> Seq<Seq<char>> {
    seq!["iconHash"@, "size"@]
}

fn search_schema() -> (s: (Vec<PropertySchema>, Vec<String>))
    ensures
        properties_view(s.0@) == search_properties(),
        texts_of(s.1@) == search_required(),
{
    let mut props: Vec<PropertySchema> = Vec::new();
    props.push(property("productType", PropertyKind::Text, "Product type for the search", strings(&["icons", "illustrations", "emojis", "elements"]), None));
    props.push(property("query", PropertyKind::Text, "Search term to find icons", Vec::new(), None));
    props.push(property("offset", PropertyKind::Number, "Number of items to skip before returning results", Vec::new(), Some(DefaultValue::Number(0))));
    props.push(property("limit", PropertyKind::Number, "Maximum number of items to return (max 50)", Vec::new(), Some(DefaultValue::Number(10))));
    props.push(property("productTier", PropertyKind::Text, "Filter by price tier", strings(&["all", "free", "premium"]), Some(DefaultValue::Text(String::from_str("all")))));
    props.push(property("style", PropertyKind::Text, "Filter for the style of the sets (e.g., line, solid, flat, duo)", Vec::new(), None));
    let required = strings(&["productType", "query"]);
    assert(properties_view(props@) =~~= search_properties());
    (props, required)
}

fn family_search_schema() -> (s: (Vec<PropertySchema>, Vec<String>))
    ensures
        properties_view(s.0@) == family_search_properties(),
        texts_of(s.1@) == family_search_required(),
{
    let mut props: Vec<PropertySchema> = Vec::new();
    props.push(property("familySlug", PropertyKind::Text, "Family slug obtained from a global search", Vec::new(), None));
    props.push(property("query", PropertyKind::Text, "Search term to find icons", Vec::new(), None));
    props.push(property("offset", PropertyKind::Number, "Number of items to skip", Vec::new(), Some(DefaultValue::Number(0))));
    props.push(property("limit", PropertyKind::Number, "Maximum number of items to return (max 50)", Vec::new(), Some(DefaultValue::Number(10))));
    let required = strings(&["familySlug", "query"]);
    assert(properties_view(props@) =~~= family_search_properties());
    (props, required)
}

fn get_icon_by_hash_schema() -> (s: (Vec<PropertySchema>, Vec<String>))
    ensures
        properties_view(s.0@) == get_icon_by_hash_properties(),
        texts_of(s.1@) == get_icon_by_hash_required(),
{
    let mut props: Vec<PropertySchema> = Vec::new();
    props.push(property("iconHash", PropertyKind::Text, "Icon hash obtained from a search response", Vec::new(), None));
    let required = strings(&["iconHash"]);
    assert(properties_view(props@) =~~= get_icon_by_hash_properties());
    (props, required)
}

fn download_svg_schema() -> (s: (Vec<PropertySchema>, Vec<String>))
    ensures
        properties_view(s.0@) == download_svg_properties(),
        texts_of(s.1@) == download_svg_required(),
{
    let mut props: Vec<PropertySchema> = Vec::new();
    props.push(property("iconHash", PropertyKind::Text, "Icon hash obtained from a search response", Vec::new(), None));
    props.push(property("size", PropertyKind::Number, "Image size in pixels (square)", Vec::new(), None));
    props.push(property("colors", PropertyKind::TextList, "List of HEX or named colors for export", Vec::new(), None));
    props.push(property("backgroundColor", PropertyKind::Text, "Background color in HEX or named color", Vec::new(), Some(DefaultValue::Text(String::from_str("#ffffff00")))));
    props.push(property("responsive", PropertyKind::Flag, "Scales SVG with container; removes width/height", Vec::new(), Some(DefaultValue::Flag(false))));
    props.push(property("strokeWidth", PropertyKind::Number, "Adjusts vector path thickness", Vec::new(), None));
    props.push(property("strokeToFill", PropertyKind::Flag, "Converts strokes to fills", Vec::new(), Some(DefaultValue::Flag(false))));
    props.push(property("base64", PropertyKind::Flag, "Return SVG as base64 string instead of raw data", Vec::new(), None));
    let required = strings(&["iconHash", "size"]);
    assert(properties_view(props@) =~~= download_svg_properties());
    (props, required)
}

fn download_png_schema() -> (s: (Vec<PropertySchema>, Vec<String>))
    ensures
        properties_view(s.0@) == download_png_properties(),
        texts_of(s.1@) == download_png_required(),
{
    let mut props: Vec<PropertySchema> = Vec::new();
    props.push(property("iconHash", PropertyKind::Text, "Icon hash obtained from a search response", Vec::new(), None));
    props.push(property("size", PropertyKind::Number, "Image size in pixels (square)", Vec::new(), None));
    props.push(property("colors", PropertyKind::TextList, "List of HEX or named colors for export", Vec::new(), None));
    props.push(property("backgroundColor", PropertyKind::Text, "Background color in HEX or named color", Vec::new(), Some(DefaultValue::Text(String::from_str("#ffffff00")))));
    props.push(property("strokeWidth", PropertyKind::Number, "Adjusts vector path thickness", Vec::new(), None));
    let required = strings(&["iconHash", "size"]);
    assert(properties_view(props@) =~~= download_png_properties());
    (props, required)
}
/// The properties of the tool at position `i` of the tool list.
pub open spec fn tool_properties(i: int) -> Seq<PropertyView> {
    if i == 0 {
        search_properties()
    } else if i == 1 {
        family_search_properties()
    } else if i == 2 {
        get_icon_by_hash_properties()
    } else if i == 3 {
        download_svg_properties()
    } else {
        download_png_properties()
    }
}

/// The required arguments of the tool at position `i` of the tool list.
pub open spec fn tool_required(i: int) -> Seq<Seq<char>> {
    if i == 0 {
        search_required()
    } else if i == 1 {
        family_search_required()
    } else if i == 2 {
        get_icon_by_hash_required()
    } else if i == 3 {
        download_svg_required()
    } else {
        download_png_required()
    }
}

/// The schema (properties and required arguments) of the tool at position
/// `i` of the tool list.
pub fn tool_schema(i: usize) -> (s: (Vec<PropertySchema>, Vec<String>))
    requires
        i < 5,
    ensures
        properties_view(s.0@) == tool_properties(i as int),
        texts_of(s.1@) == tool_required(i as int),
{
    if i == 0 {
        search_schema()
    } else if i == 1 {
        family_search_schema()
    } else if i == 2 {
        get_icon_by_hash_schema()
    } else if i == 3 {
        download_svg_schema()
    } else {
        download_png_schema()
    }
}

} // verus!
