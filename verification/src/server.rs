//! Decisions of the MCP (JSON-RPC 2.0) server: which method a request names,
//! which tool call its arguments make, and the error texts and codes it
//! answers with.

use vstd::prelude::*;
use crate::api::{
    invalid_product_type_message, opt_str_text, product_type_named, DownloadPngParams, DownloadSvgParams, FamilySearchParams,
    InvalidProductType, ProductType, SearchParams,
};
use crate::base64::{base64_encode, Base64Encoder};
use crate::schema::{
    properties_view, texts_of, tool_properties, tool_required, tool_schema, PropertyKind,
    PropertySchema, PropertyView,
};
use crate::text::{str_eq, unicode_lowercase};

verus! {

/// JSON-RPC error code of a request that is not valid JSON.
pub const PARSE_ERROR: i32 = -32700;

/// JSON-RPC error code of an unknown method.
pub const METHOD_NOT_FOUND: i32 = -32601;

/// JSON-RPC error code of missing or malformed parameters.
pub const INVALID_PARAMS: i32 = -32602;

/// The JSON-RPC version every reply carries.
pub const JSONRPC_VERSION: &'static str = "2.0";

/// The MCP protocol version the server speaks.
pub const PROTOCOL_VERSION: &'static str = "2024-11-05";

/// The name the server reports in its `initialize` reply.
pub const SERVER_NAME: &'static str = "streamline-icons-mcp";

/// Message of the parse-error reply.
pub const PARSE_ERROR_MESSAGE: &'static str = "Parse error";

/// Message of the unknown-method reply.
pub const METHOD_NOT_FOUND_MESSAGE: &'static str = "Method not found";

/// Message of a `tools/call` request without parameters.
pub const MISSING_PARAMS_MESSAGE: &'static str = "Invalid params: missing params";

/// The methods the server knows.
#[derive(Clone, Copy, Debug, PartialEq, Eq, Structural)]
pub enum RpcMethod {
    Initialize,
    Initialized,
    ToolsList,
    ToolsCall,
    Unknown,
}

/// The method that the name `m` denotes.
pub open spec fn method_of(m: Seq<char>) -> RpcMethod {
    if m == "initialize"@ {
        RpcMethod::Initialize
    } else if m == "initialized"@ {
        RpcMethod::Initialized
    } else if m == "tools/list"@ {
        RpcMethod::ToolsList
    } else if m == "tools/call"@ {
        RpcMethod::ToolsCall
    } else {
        RpcMethod::Unknown
    }
}

/// The method a request names.
pub fn route_method(method: &str) -> (r: RpcMethod)
    ensures
        r == method_of(method@),
{
    if str_eq(method, "initialize") {
        RpcMethod::Initialize
    } else if str_eq(method, "initialized") {
        RpcMethod::Initialized
    } else if str_eq(method, "tools/list") {
        RpcMethod::ToolsList
    } else if str_eq(method, "tools/call") {
        RpcMethod::ToolsCall
    } else {
        RpcMethod::Unknown
    }
}

/// Whether the server answers a request for this method: every method but the
/// `initialized` notification gets a reply.
pub fn replies_to(m: RpcMethod) -> (r: bool)
    ensures
        r == (m != RpcMethod::Initialized),
{
    match m {
        RpcMethod::Initialized => false,
        _ => true,
    }
}

/// A JSON value given as a tool argument, as far as the tools read it.
/// A number carries its value as an unsigned integer where it is one, and the
/// text of its value as a single-precision float.
#[derive(Debug)]
pub enum ArgValue {
    Str(String),
    Number { unsigned: Option<u64>, float_text: String },
    Bool(bool),
    Array(Vec<ArgValue>),
    Other,
}

/// The arguments object of a tool call, one entry per key.
#[derive(Debug)]
pub struct ToolArgs {
    pub entries: Vec<(String, ArgValue)>,
}

/// The value under `key`: that of the first entry with this key.
pub open spec fn arg_lookup(entries: Seq<(String, ArgValue)>, key: Seq<char>) -> Option<ArgValue>
    decreases entries.len(),
{
    if entries.len() == 0 {
        None
    } else if entries[0].0@ == key {
        Some(entries[0].1)
    } else {
        arg_lookup(entries.subrange(1, entries.len() as int), key)
    }
}

/// The string under `key`, if the value there is a string.
pub open spec fn str_arg(entries: Seq<(String, ArgValue)>, key: Seq<char>) -> Option<Seq<char>> {
    match arg_lookup(entries, key) {
        Some(ArgValue::Str(s)) => Some(s@),
        _ => None,
    }
}

/// The unsigned integer under `key`, if the value there is one.
pub open spec fn u64_arg(entries: Seq<(String, ArgValue)>, key: Seq<char>) -> Option<u64> {
    match arg_lookup(entries, key) {
        Some(ArgValue::Number { unsigned: Some(n), .. }) => Some(n),
        _ => None,
    }
}

/// The flag under `key`, if the value there is a boolean.
pub open spec fn bool_arg(entries: Seq<(String, ArgValue)>, key: Seq<char>) -> Option<bool> {
    match arg_lookup(entries, key) {
        Some(ArgValue::Bool(b)) => Some(b),
        _ => None,
    }
}

/// The float text of the number under `key`, if the value there is a number.
pub open spec fn float_arg(entries: Seq<(String, ArgValue)>, key: Seq<char>) -> Option<
    Seq<char>,
> {
    match arg_lookup(entries, key) {
        Some(ArgValue::Number { float_text, .. }) => Some(float_text@),
        _ => None,
    }
}

/// The strings among `items`, in order; other items are skipped.
pub open spec fn array_strings(items: Seq<ArgValue>) -> Seq<Seq<char>>
    decreases items.len(),
{
    if items.len() == 0 {
        seq![]
    } else {
        array_strings(items.drop_last()) + match items.last() {
            ArgValue::Str(s) => seq![s@],
            _ => seq![],
        }
    }
}

/// The strings of the array under `key`, if the value there is an array.
pub open spec fn strings_arg(entries: Seq<(String, ArgValue)>, key: Seq<char>) -> Option<
    Seq<Seq<char>>,
> {
    match arg_lookup(entries, key) {
        Some(ArgValue::Array(items)) => Some(array_strings(items@)),
        _ => None,
    }
}

/// Texts of an optional list of strings.
pub open spec fn opt_strings_view(v: Option<Vec<String>>) -> Option<Seq<Seq<char>>> {
    match v {
        Some(items) => Some(items@.map_values(|s: String| s@)),
        None => None,
    }
}

/// A number given as unsigned 64 bits, cut to its low 32 bits.
pub open spec fn opt_low32(v: Option<u64>) -> Option<u32> {
    match v {
        Some(n) => Some(n as u32),
        None => None,
    }
}

impl ToolArgs {
    /// The value under `key`.
    pub fn get(&self, key: &str) -> (r: Option<&ArgValue>)
        ensures
            match r {
                Some(v) => arg_lookup(self.entries@, key@) == Some(*v),
                None => arg_lookup(self.entries@, key@) is None,
            },
    {
        let n = self.entries.len();
        let mut i: usize = 0;
        assert(self.entries@.subrange(0, n as int) =~= self.entries@);
        while i < n
            invariant
                n == self.entries@.len(),
                i <= n,
                arg_lookup(self.entries@, key@) == arg_lookup(
                    self.entries@.subrange(i as int, n as int),
                    key@,
                ),
            decreases n - i,
        {
            let ghost rest = self.entries@.subrange(i as int, n as int);
            if str_eq(self.entries[i].0.as_str(), key) {
                return Some(&self.entries[i].1);
            }
            assert(rest.subrange(1, rest.len() as int) =~= self.entries@.subrange(
                i + 1,
                n as int,
            ));
            i = i + 1;
        }
        None
    }

    /// The string under `key`, if the value there is a string.
    pub fn get_str(&self, key: &str) -> (r: Option<String>)
        ensures
            opt_str_text(r) == str_arg(self.entries@, key@),
    {
        match self.get(key) {
            Some(ArgValue::Str(s)) => Some(s.clone()),
            _ => None,
        }
    }

    /// The unsigned integer under `key`, if the value there is one.
    pub fn get_u64(&self, key: &str) -> (r: Option<u64>)
        ensures
            r == u64_arg(self.entries@, key@),
    {
        match self.get(key) {
            Some(ArgValue::Number { unsigned: Some(n), .. }) => Some(*n),
            _ => None,
        }
    }

    /// The flag under `key`, if the value there is a boolean.
    pub fn get_bool(&self, key: &str) -> (r: Option<bool>)
        ensures
            r == bool_arg(self.entries@, key@),
    {
        match self.get(key) {
            Some(ArgValue::Bool(b)) => Some(*b),
            _ => None,
        }
    }

    /// The float text of the number under `key`, if the value there is a number.
    pub fn get_float_text(&self, key: &str) -> (r: Option<String>)
        ensures
            opt_str_text(r) == float_arg(self.entries@, key@),
    {
        match self.get(key) {
            Some(ArgValue::Number { float_text, .. }) => Some(float_text.clone()),
            _ => None,
        }
    }

    /// The strings of the array under `key`, if the value there is an array.
    pub fn get_strings(&self, key: &str) -> (r: Option<Vec<String>>)
        ensures
            opt_strings_view(r) == strings_arg(self.entries@, key@),
    {
        match self.get(key) {
            Some(ArgValue::Array(items)) => Some(strings_of(items)),
            _ => None,
        }
    }
}

fn strings_of(items: &Vec<ArgValue>) -> (r: Vec<String>)
    ensures
        r@.map_values(|s: String| s@) == array_strings(items@),
{
    let mut r: Vec<String> = Vec::new();
    let mut i: usize = 0;
    while i < items.len()
        invariant
            i <= items.len(),
            r@.map_values(|s: String| s@) == array_strings(items@.subrange(0, i as int)),
        decreases items.len() - i,
    {
        let ghost before = r@;
        match &items[i] {
            ArgValue::Str(s) => {
                r.push(s.clone());
            },
            _ => {},
        }
        proof {
            let pre = items@.subrange(0, i + 1);
            assert(pre.drop_last() =~= items@.subrange(0, i as int));
            assert(pre.last() == items@[i as int]);
            assert(r@.map_values(|s: String| s@) =~= array_strings(pre));
        }
        i = i + 1;
    }
    assert(items@.subrange(0, items.len() as int) =~= items@);
    r
}

/// A tool call made with checked arguments.
#[derive(Clone, Debug)]
pub enum ToolCall {
    Search(SearchParams),
    FamilySearch(FamilySearchParams),
    GetIconByHash(String),
    DownloadSvg(DownloadSvgParams),
    DownloadPng(DownloadPngParams),
}

/// Why a tool call was refused before any request was made.
#[derive(Clone, Debug)]
pub enum ToolError {
    /// A required argument is absent or of the wrong kind; carries its name.
    MissingParameter(String),
    /// The product type is none of the known ones.
    InvalidProductType(InvalidProductType),
    /// No tool has this name.
    UnknownTool(String),
}

/// Ghost form of the search parameters.
pub struct SearchCallView {
    pub product_type: ProductType,
    pub query: Seq<char>,
    pub offset: Option<u32>,
    pub limit: Option<u32>,
    pub product_tier: Option<Seq<char>>,
    pub style: Option<Seq<char>>,
}

/// Ghost form of the family search parameters.
pub struct FamilySearchCallView {
    pub family_slug: Seq<char>,
    pub query: Seq<char>,
    pub offset: Option<u32>,
    pub limit: Option<u32>,
}

/// Ghost form of the SVG download parameters.
pub struct SvgCallView {
    pub icon_hash: Seq<char>,
    pub size: u32,
    pub colors: Option<Seq<Seq<char>>>,
    pub background_color: Option<Seq<char>>,
    pub responsive: Option<bool>,
    pub stroke_width: Option<Seq<char>>,
    pub stroke_to_fill: Option<bool>,
    pub base64: Option<bool>,
}

/// Ghost form of the PNG download parameters.
pub struct PngCallView {
    pub icon_hash: Seq<char>,
    pub size: u32,
    pub colors: Option<Seq<Seq<char>>>,
    pub background_color: Option<Seq<char>>,
    pub stroke_width: Option<Seq<char>>,
}

/// Ghost form of a tool call.
pub enum ToolCallView {
    Search(SearchCallView),
    FamilySearch(FamilySearchCallView),
    GetIconByHash(Seq<char>),
    DownloadSvg(SvgCallView),
    DownloadPng(PngCallView),
}

/// Ghost form of a refusal.
pub enum ToolErrorView {
    MissingParameter(Seq<char>),
    InvalidProductType(Seq<char>),
    UnknownTool(Seq<char>),
}

/// The ghost form of a planned call or refusal.
pub open spec fn plan_view(r: Result<ToolCall, ToolError>) -> Result<ToolCallView, ToolErrorView> {
    match r {
        Ok(ToolCall::Search(p)) => Ok(
            ToolCallView::Search(
                SearchCallView {
                    product_type: p.product_type,
                    query: p.query@,
                    offset: p.offset,
                    limit: p.limit,
                    product_tier: opt_str_text(p.product_tier),
                    style: opt_str_text(p.style),
                },
            ),
        ),
        Ok(ToolCall::FamilySearch(p)) => Ok(
            ToolCallView::FamilySearch(
                FamilySearchCallView {
                    family_slug: p.family_slug@,
                    query: p.query@,
                    offset: p.offset,
                    limit: p.limit,
                },
            ),
        ),
        Ok(ToolCall::GetIconByHash(h)) => Ok(ToolCallView::GetIconByHash(h@)),
        Ok(ToolCall::DownloadSvg(p)) => Ok(
            ToolCallView::DownloadSvg(
                SvgCallView {
                    icon_hash: p.icon_hash@,
                    size: p.size,
                    colors: opt_strings_view(p.colors),
                    background_color: opt_str_text(p.background_color),
                    responsive: p.responsive,
                    stroke_width: opt_str_text(p.stroke_width),
                    stroke_to_fill: p.stroke_to_fill,
                    base64: p.base64,
                },
            ),
        ),
        Ok(ToolCall::DownloadPng(p)) => Ok(
            ToolCallView::DownloadPng(
                PngCallView {
                    icon_hash: p.icon_hash@,
                    size: p.size,
                    colors: opt_strings_view(p.colors),
                    background_color: opt_str_text(p.background_color),
                    stroke_width: opt_str_text(p.stroke_width),
                },
            ),
        ),
        Err(e) => Err(error_view(e)),
    }
}

/// The ghost form of a refusal.
pub open spec fn error_view(e: ToolError) -> ToolErrorView {
    match e {
        ToolError::MissingParameter(n) => ToolErrorView::MissingParameter(n@),
        ToolError::InvalidProductType(e) => ToolErrorView::InvalidProductType(e.input@),
        ToolError::UnknownTool(n) => ToolErrorView::UnknownTool(n@),
    }
}

/// The text that explains a refusal.
pub open spec fn tool_error_message(e: ToolErrorView) -> Seq<char> {
    match e {
        ToolErrorView::MissingParameter(n) => "Missing required parameter: "@ + n,
        ToolErrorView::InvalidProductType(s) => invalid_product_type_message(s),
        ToolErrorView::UnknownTool(n) => "Unknown tool: "@ + n,
    }
}

impl ToolError {
    /// "Missing required parameter: <name>", the product-type message, or
    /// "Unknown tool: <name>".
    pub fn message(&self) -> (m: String)
        ensures
            m@ == tool_error_message(error_view(*self)),
    {
        match self {
            ToolError::MissingParameter(n) => {
                let mut m = String::from_str("Missing required parameter: ");
                m.append(n.as_str());
                m
            },
            ToolError::InvalidProductType(e) => e.message(),
            ToolError::UnknownTool(n) => {
                let mut m = String::from_str("Unknown tool: ");
                m.append(n.as_str());
                m
            },
        }
    }
}

/// The `search` tool: product type (required, read case-insensitively), query
/// (required), then the optional offset, limit, tier and style.
pub open spec fn search_plan(a: Seq<(String, ArgValue)>) -> Result<ToolCallView, ToolErrorView> {
    match str_arg(a, "productType"@) {
        None => Err(ToolErrorView::MissingParameter("productType"@)),
        Some(pt) => match product_type_named(unicode_lowercase(pt)) {
            None => Err(ToolErrorView::InvalidProductType(pt)),
            Some(p) => match str_arg(a, "query"@) {
                None => Err(ToolErrorView::MissingParameter("query"@)),
                Some(q) => Ok(
                    ToolCallView::Search(
                        SearchCallView {
                            product_type: p,
                            query: q,
                            offset: opt_low32(u64_arg(a, "offset"@)),
                            limit: opt_low32(u64_arg(a, "limit"@)),
                            product_tier: str_arg(a, "productTier"@),
                            style: str_arg(a, "style"@),
                        },
                    ),
                ),
            },
        },
    }
}

/// The `family_search` tool: family slug and query (both required), then the
/// optional offset and limit.
pub open spec fn family_search_plan(a: Seq<(String, ArgValue)>) -> Result<
    ToolCallView,
    ToolErrorView,
> {
    match str_arg(a, "familySlug"@) {
        None => Err(ToolErrorView::MissingParameter("familySlug"@)),
        Some(slug) => match str_arg(a, "query"@) {
            None => Err(ToolErrorView::MissingParameter("query"@)),
            Some(q) => Ok(
                ToolCallView::FamilySearch(
                    FamilySearchCallView {
                        family_slug: slug,
                        query: q,
                        offset: opt_low32(u64_arg(a, "offset"@)),
                        limit: opt_low32(u64_arg(a, "limit"@)),
                    },
                ),
            ),
        },
    }
}

/// The `get_icon_by_hash` tool: the icon hash is required.
pub open spec fn icon_plan(a: Seq<(String, ArgValue)>) -> Result<ToolCallView, ToolErrorView> {
    match str_arg(a, "iconHash"@) {
        None => Err(ToolErrorView::MissingParameter("iconHash"@)),
        Some(h) => Ok(ToolCallView::GetIconByHash(h)),
    }
}

/// The `download_svg` tool: icon hash and size (both required; the size is cut
/// to 32 bits), then the optional colours, background, responsive flag, stroke
/// width, stroke-to-fill flag and base64 flag.
pub open spec fn svg_plan(a: Seq<(String, ArgValue)>) -> Result<ToolCallView, ToolErrorView> {
    match str_arg(a, "iconHash"@) {
        None => Err(ToolErrorView::MissingParameter("iconHash"@)),
        Some(h) => match u64_arg(a, "size"@) {
            None => Err(ToolErrorView::MissingParameter("size"@)),
            Some(size) => Ok(
                ToolCallView::DownloadSvg(
                    SvgCallView {
                        icon_hash: h,
                        size: size as u32,
                        colors: strings_arg(a, "colors"@),
                        background_color: str_arg(a, "backgroundColor"@),
                        responsive: bool_arg(a, "responsive"@),
                        stroke_width: float_arg(a, "strokeWidth"@),
                        stroke_to_fill: bool_arg(a, "strokeToFill"@),
                        base64: bool_arg(a, "base64"@),
                    },
                ),
            ),
        },
    }
}

/// The `download_png` tool: icon hash and size (both required; the size is cut
/// to 32 bits), then the optional colours, background and stroke width.
pub open spec fn png_plan(a: Seq<(String, ArgValue)>) -> Result<ToolCallView, ToolErrorView> {
    match str_arg(a, "iconHash"@) {
        None => Err(ToolErrorView::MissingParameter("iconHash"@)),
        Some(h) => match u64_arg(a, "size"@) {
            None => Err(ToolErrorView::MissingParameter("size"@)),
            Some(size) => Ok(
                ToolCallView::DownloadPng(
                    PngCallView {
                        icon_hash: h,
                        size: size as u32,
                        colors: strings_arg(a, "colors"@),
                        background_color: str_arg(a, "backgroundColor"@),
                        stroke_width: float_arg(a, "strokeWidth"@),
                    },
                ),
            ),
        },
    }
}

/// The call that tool `name` makes with arguments `a`, or why it is refused.
pub open spec fn tool_plan(name: Seq<char>, a: Seq<(String, ArgValue)>) -> Result<
    ToolCallView,
    ToolErrorView,
> {
    if name == "search"@ {
        search_plan(a)
    } else if name == "family_search"@ {
        family_search_plan(a)
    } else if name == "get_icon_by_hash"@ {
        icon_plan(a)
    } else if name == "download_svg"@ {
        svg_plan(a)
    } else if name == "download_png"@ {
        png_plan(a)
    } else {
        Err(ToolErrorView::UnknownTool(name))
    }
}

fn missing(name: &str) -> (e: ToolError)
    ensures
        e matches ToolError::MissingParameter(n) && n@ == name@,
{
    ToolError::MissingParameter(String::from_str(name))
}

fn low32(v: Option<u64>) -> (r: Option<u32>)
    ensures
        r == opt_low32(v),
{
    match v {
        Some(n) => Some(n as u32),
        None => None,
    }
}

fn plan_search(args: &ToolArgs) -> (r: Result<ToolCall, ToolError>)
    ensures
        plan_view(r) == search_plan(args.entries@),
{
    let pt = match args.get_str("productType") {
        Some(s) => s,
        None => return Err(missing("productType")),
    };
    let product_type = match ProductType::parse(pt.as_str()) {
        Ok(p) => p,
        Err(e) => return Err(ToolError::InvalidProductType(e)),
    };
    let query = match args.get_str("query") {
        Some(s) => s,
        None => return Err(missing("query")),
    };
    Ok(
        ToolCall::Search(
            SearchParams {
                product_type,
                query,
                offset: low32(args.get_u64("offset")),
                limit: low32(args.get_u64("limit")),
                product_tier: args.get_str("productTier"),
                style: args.get_str("style"),
            },
        ),
    )
}

fn plan_family_search(args: &ToolArgs) -> (r: Result<ToolCall, ToolError>)
    ensures
        plan_view(r) == family_search_plan(args.entries@),
{
    let family_slug = match args.get_str("familySlug") {
        Some(s) => s,
        None => return Err(missing("familySlug")),
    };
    let query = match args.get_str("query") {
        Some(s) => s,
        None => return Err(missing("query")),
    };
    Ok(
        ToolCall::FamilySearch(
            FamilySearchParams {
                family_slug,
                query,
                offset: low32(args.get_u64("offset")),
                limit: low32(args.get_u64("limit")),
            },
        ),
    )
}

fn plan_icon(args: &ToolArgs) -> (r: Result<ToolCall, ToolError>)
    ensures
        plan_view(r) == icon_plan(args.entries@),
{
    match args.get_str("iconHash") {
        Some(h) => Ok(ToolCall::GetIconByHash(h)),
        None => Err(missing("iconHash")),
    }
}

fn plan_svg(args: &ToolArgs) -> (r: Result<ToolCall, ToolError>)
    ensures
        plan_view(r) == svg_plan(args.entries@),
{
    let icon_hash = match args.get_str("iconHash") {
        Some(s) => s,
        None => return Err(missing("iconHash")),
    };
    let size = match args.get_u64("size") {
        Some(n) => n as u32,
        None => return Err(missing("size")),
    };
    Ok(
        ToolCall::DownloadSvg(
            DownloadSvgParams {
                icon_hash,
                size,
                colors: args.get_strings("colors"),
                background_color: args.get_str("backgroundColor"),
                responsive: args.get_bool("responsive"),
                stroke_width: args.get_float_text("strokeWidth"),
                stroke_to_fill: args.get_bool("strokeToFill"),
                base64: args.get_bool("base64"),
            },
        ),
    )
}

fn plan_png(args: &ToolArgs) -> (r: Result<ToolCall, ToolError>)
    ensures
        plan_view(r) == png_plan(args.entries@),
{
    let icon_hash = match args.get_str("iconHash") {
        Some(s) => s,
        None => return Err(missing("iconHash")),
    };
    let size = match args.get_u64("size") {
        Some(n) => n as u32,
        None => return Err(missing("size")),
    };
    Ok(
        ToolCall::DownloadPng(
            DownloadPngParams {
                icon_hash,
                size,
                colors: args.get_strings("colors"),
                background_color: args.get_str("backgroundColor"),
                stroke_width: args.get_float_text("strokeWidth"),
            },
        ),
    )
}

/// The call that tool `name` makes with `args`, or why it is refused.
pub fn plan_tool_call(name: &str, args: &ToolArgs) -> (r: Result<ToolCall, ToolError>)
    ensures
        plan_view(r) == tool_plan(name@, args.entries@),
{
    if str_eq(name, "search") {
        plan_search(args)
    } else if str_eq(name, "family_search") {
        plan_family_search(args)
    } else if str_eq(name, "get_icon_by_hash") {
        plan_icon(args)
    } else if str_eq(name, "download_svg") {
        plan_svg(args)
    } else if str_eq(name, "download_png") {
        plan_png(args)
    } else {
        Err(ToolError::UnknownTool(String::from_str(name)))
    }
}

/// The text of a tool result that reports a failure: "Error: <message>".
pub fn tool_error_text(message: &str) -> (t: String)
    ensures
        t@ == "Error: "@ + message@,
{
    let mut t = String::from_str("Error: ");
    t.append(message);
    t
}

/// The answer to a `tools/call` request.
#[derive(Debug)]
pub enum CallReply {
    /// A JSON-RPC error: the request's parameters could not be read.
    RpcError { code: i32, message: String },
    /// A tool result: its text, and `Some(true)` where the tool failed.
    ToolResult { text: String, is_error: Option<bool> },
}

/// The error reply to a `tools/call` request whose parameters are absent
/// (`None`) or could not be read (`Some` with the reader's explanation).
pub fn invalid_params_reply(parse_error: Option<&str>) -> (r: CallReply)
    ensures
        r matches CallReply::RpcError { code, message } && code == INVALID_PARAMS && message@ == (
        match parse_error {
            None => MISSING_PARAMS_MESSAGE@,
            Some(e) => "Invalid params: "@ + e@,
        }),
{
    match parse_error {
        None => CallReply::RpcError {
            code: INVALID_PARAMS,
            message: String::from_str(MISSING_PARAMS_MESSAGE),
        },
        Some(e) => {
            let mut message = String::from_str("Invalid params: ");
            message.append(e);
            CallReply::RpcError { code: INVALID_PARAMS, message }
        },
    }
}

/// The tool result for what a tool call produced: its text on success, or
/// "Error: " and the failure's message, marked as an error.
pub fn tool_outcome_reply(outcome: Result<String, String>) -> (r: CallReply)
    ensures
        match outcome {
            Ok(content) => r matches CallReply::ToolResult { text, is_error } && text@
                == content@ && is_error is None,
            Err(failure) => r matches CallReply::ToolResult { text, is_error } && text@
                == "Error: "@ + failure@ && is_error == Some(true),
        },
{
    match outcome {
        Ok(content) => CallReply::ToolResult { text: content, is_error: None },
        Err(failure) => CallReply::ToolResult {
            text: tool_error_text(failure.as_str()),
            is_error: Some(true),
        },
    }
}

/// The Base64 text that the `download_png` tool returns for the image bytes.
pub fn encode_png(bytes: &[u8]) -> (s: String)
    ensures
        s@ == base64_encode(bytes@),
{
    let mut encoder = Base64Encoder::new();
    let _ = encoder.write_all(bytes);
    assert(encoder@ =~= bytes@);
    encoder.finish()
}

/// A tool as `tools/list` announces it: name, description and input schema.
#[derive(Clone, Debug)]
pub struct ToolInfo {
    pub name: String,
    pub description: String,
    /// The properties of the input schema.
    pub properties: Vec<PropertySchema>,
    /// The names of the arguments the tool requires.
    pub required: Vec<String>,
}

/// The descriptions of the tools, in the order of `tool_names`.
pub open spec fn tool_descriptions() -> Seq<Seq<char>> {
    seq![
        "Search for icons, illustrations, emojis, or elements from all families."@,
        "Search for icons within a specific family."@,
        "Retrieve detailed information about a specific icon by its hash."@,
        "Download an icon as SVG with optional modifications."@,
        "Download an icon as PNG with optional modifications."@,
    ]
}

/// The names of the tools, in the order `tools/list` gives them.
pub open spec fn tool_names() -> Seq<Seq<char>> {
    seq!["search"@, "family_search"@, "get_icon_by_hash"@, "download_svg"@, "download_png"@]
}

/// The tool at position `i` of the list, as it should be announced.
pub open spec fn announces(t: ToolInfo, i: int) -> bool {
    &&& t.name@ == tool_names()[i]
    &&& t.description@ == tool_descriptions()[i]
    &&& properties_view(t.properties@) == tool_properties(i)
    &&& texts_of(t.required@) == tool_required(i)
}

fn tool_info(i: usize, name: &str, description: &str) -> (t: ToolInfo)
    requires
        i < 5,
        name@ == tool_names()[i as int],
        description@ == tool_descriptions()[i as int],
    ensures
        announces(t, i as int),
{
    let (properties, required) = tool_schema(i);
    ToolInfo {
        name: String::from_str(name),
        description: String::from_str(description),
        properties,
        required,
    }
}

/// The tools the server offers, with their descriptions and input schemas.
pub fn tool_catalog() -> (tools: Vec<ToolInfo>)
    ensures
        tools@.len() == tool_names().len(),
        forall|i: int| 0 <= i < tools@.len() ==> announces(#[trigger] tools@[i], i),
{
    let mut tools: Vec<ToolInfo> = Vec::new();
    tools.push(
        tool_info(
            0,
            "search",
            "Search for icons, illustrations, emojis, or elements from all families.",
        ),
    );
    tools.push(tool_info(1, "family_search", "Search for icons within a specific family."));
    tools.push(
        tool_info(
            2,
            "get_icon_by_hash",
            "Retrieve detailed information about a specific icon by its hash.",
        ),
    );
    tools.push(
        tool_info(3, "download_svg", "Download an icon as SVG with optional modifications."),
    );
    tools.push(
        tool_info(4, "download_png", "Download an icon as PNG with optional modifications."),
    );
    tools
}

/// Whether the arguments hold a value for property `p` of the kind its schema
/// announces: a string, an unsigned integer, a boolean or an array.
pub open spec fn supplies(a: Seq<(String, ArgValue)>, p: PropertyView) -> bool {
    match p.kind {
        PropertyKind::Text => str_arg(a, p.name) is Some,
        PropertyKind::Number => u64_arg(a, p.name) is Some,
        PropertyKind::Flag => bool_arg(a, p.name) is Some,
        PropertyKind::TextList => strings_arg(a, p.name) is Some,
    }
}

proof fn lemma_plan_at(i: int, a: Seq<(String, ArgValue)>)
    requires
        0 <= i < 5,
    ensures
        i == 0 ==> tool_plan(tool_names()[i], a) == search_plan(a),
        i == 1 ==> tool_plan(tool_names()[i], a) == family_search_plan(a),
        i == 2 ==> tool_plan(tool_names()[i], a) == icon_plan(a),
        i == 3 ==> tool_plan(tool_names()[i], a) == svg_plan(a),
        i == 4 ==> tool_plan(tool_names()[i], a) == png_plan(a),
{
    reveal_strlit("search");
    reveal_strlit("family_search");
    reveal_strlit("get_icon_by_hash");
    reveal_strlit("download_svg");
    reveal_strlit("download_png");
    let names = tool_names();
    assert(names[0] == "search"@ && names[1] == "family_search"@ && names[2]
        == "get_icon_by_hash"@ && names[3] == "download_svg"@ && names[4] == "download_png"@);
    assert(names[0].len() == 6 && names[1].len() == 13 && names[2].len() == 16);
    assert(names[3].len() == 12 && names[4].len() == 12);
    assert(names[3][9] != names[4][9]);
}

proof fn lemma_required_at(i: int, k: Seq<char>)
    requires
        0 <= i < 5,
        tool_required(i).contains(k),
    ensures
        k == tool_required(i)[0] || (tool_required(i).len() == 2 && k == tool_required(i)[1]),
        tool_required(i)[0] == tool_properties(i)[0].name,
        tool_required(i).len() == 2 ==> tool_required(i)[1] == tool_properties(i)[1].name,
        tool_required(i).len() == 2 ==> tool_required(i)[0] != tool_required(i)[1],
{
    let j = choose|j: int| 0 <= j < tool_required(i).len() && tool_required(i)[j] == k;
    assert(j == 0 || j == 1);
    reveal_strlit("productType");
    reveal_strlit("query");
    reveal_strlit("familySlug");
    reveal_strlit("iconHash");
    reveal_strlit("size");
    let req = tool_required(i);
    assert(req.len() == 2 ==> req[0].len() != req[1].len());
}

/// The "required" list of each tool's input schema names exactly the arguments
/// whose absence makes that tool fail: a required argument left out makes the
/// call fail; every missing-parameter refusal names a required argument that
/// was not supplied with the kind its schema announces; and a call that
/// supplies every required argument with that kind is never refused for a
/// missing parameter.
pub proof fn lemma_required_arguments(i: int, a: Seq<(String, ArgValue)>)
    requires
        0 <= i < tool_names().len(),
    ensures
        forall|k: Seq<char>|
            tool_required(i).contains(k) && arg_lookup(a, k) is None ==> tool_plan(
                tool_names()[i],
                a,
            ) is Err,
        tool_plan(tool_names()[i], a) matches Err(ToolErrorView::MissingParameter(m)) ==> (
        exists|p: PropertyView|
            #![auto]
            tool_properties(i).contains(p) && tool_required(i).contains(p.name) && p.name == m
                && !supplies(a, p)),
        (forall|p: PropertyView|
            #![auto]
            tool_properties(i).contains(p) && tool_required(i).contains(p.name) ==> supplies(a, p))
            ==> !(tool_plan(tool_names()[i], a) matches Err(ToolErrorView::MissingParameter(_))),
{
    lemma_plan_at(i, a);
    let props = tool_properties(i);
    let req = tool_required(i);
    assert forall|k: Seq<char>| req.contains(k) && arg_lookup(a, k) is None implies tool_plan(
        tool_names()[i],
        a,
    ) is Err by {
        lemma_required_at(i, k);
    }
    lemma_required_at(i, req[0]);
    assert(props.contains(props[0]) && req.contains(props[0].name));
    assert(props[0].kind == PropertyKind::Text);
    if i != 2 {
        assert(props.contains(props[1]) && req.contains(props[1].name));
        assert(i <= 1 ==> props[1].kind == PropertyKind::Text);
        assert(i >= 3 ==> props[1].kind == PropertyKind::Number);
    }
    if let Err(ToolErrorView::MissingParameter(m)) = tool_plan(tool_names()[i], a) {
        if m == props[0].name {
            assert(!supplies(a, props[0]));
        } else {
            assert(i != 2 && m == props[1].name);
            assert(!supplies(a, props[1]));
        }
    }
}

/// `i` is the first position of an argument named `key`.
pub open spec fn first_with_key(a: Seq<(String, ArgValue)>, key: Seq<char>, i: int) -> bool {
    &&& 0 <= i < a.len()
    &&& a[i].0@ == key
    &&& forall|j: int| 0 <= j < i ==> a[j].0@ != key
}

/// The value given under `key`: that of the first argument with this name.
pub open spec fn given(a: Seq<(String, ArgValue)>, key: Seq<char>) -> Option<ArgValue> {
    if exists|i: int| first_with_key(a, key, i) {
        Some(a[choose|i: int| first_with_key(a, key, i)].1)
    } else {
        None
    }
}

/// A given value read as text: only a JSON string gives one.
pub open spec fn text_given(v: Option<ArgValue>) -> Option<Seq<char>> {
    match v {
        Some(ArgValue::Str(s)) => Some(s@),
        _ => None,
    }
}

/// A given value read as a count: an unsigned integer, cut to its low 32
/// bits.
pub open spec fn count_given(v: Option<ArgValue>) -> Option<u32> {
    match v {
        Some(ArgValue::Number { unsigned: Some(n), .. }) => Some(n as u32),
        _ => None,
    }
}

/// A given value read as a flag: only a JSON boolean gives one.
pub open spec fn flag_given(v: Option<ArgValue>) -> Option<bool> {
    match v {
        Some(ArgValue::Bool(b)) => Some(b),
        _ => None,
    }
}

/// A given value read as a float: the text of any JSON number.
pub open spec fn float_given(v: Option<ArgValue>) -> Option<Seq<char>> {
    match v {
        Some(ArgValue::Number { float_text, .. }) => Some(float_text@),
        _ => None,
    }
}

/// A given value read as a list of strings: the strings of a JSON array.
pub open spec fn list_given(v: Option<ArgValue>) -> Option<Seq<Seq<char>>> {
    match v {
        Some(ArgValue::Array(items)) => Some(array_strings(items@)),
        _ => None,
    }
}

proof fn lemma_first_with_key_unique(a: Seq<(String, ArgValue)>, key: Seq<char>, i: int, j: int)
    requires
        first_with_key(a, key, i),
        first_with_key(a, key, j),
    ensures
        i == j,
{
    if i < j {
        assert(a[i].0@ == key);
    } else if j < i {
        assert(a[j].0@ == key);
    }
}

/// Looking an argument up finds the value of the first argument with that
/// name, and nothing when no argument has it.
pub proof fn lemma_lookup_is_first_given(a: Seq<(String, ArgValue)>, key: Seq<char>)
    ensures
        arg_lookup(a, key) == given(a, key),
    decreases a.len(),
{
    if a.len() == 0 {
        assert(!exists|i: int| first_with_key(a, key, i));
    } else if a[0].0@ == key {
        assert(first_with_key(a, key, 0));
        let i = choose|i: int| first_with_key(a, key, i);
        lemma_first_with_key_unique(a, key, i, 0);
    } else {
        let t = a.subrange(1, a.len() as int);
        lemma_lookup_is_first_given(t, key);
        assert forall|i: int| #[trigger] first_with_key(a, key, i) implies first_with_key(t, key, i - 1) by {
            assert(i != 0);
            assert forall|j: int| 0 <= j < i - 1 implies t[j].0@ != key by {
                assert(t[j] == a[j + 1]);
            }
        }
        assert forall|i: int| #[trigger] first_with_key(t, key, i) implies first_with_key(a, key, i + 1) by {
            assert forall|j: int| 0 <= j < i + 1 implies a[j].0@ != key by {
                if j > 0 {
                    assert(a[j] == t[j - 1]);
                }
            }
        }
        if exists|i: int| first_with_key(t, key, i) {
            let it = choose|i: int| first_with_key(t, key, i);
            assert(first_with_key(a, key, it + 1));
            let ia = choose|i: int| first_with_key(a, key, i);
            assert(first_with_key(t, key, ia - 1));
            lemma_first_with_key_unique(t, key, ia - 1, it);
            assert(a[ia] == t[it]);
        } else {
            if exists|i: int| first_with_key(a, key, i) {
                let ia = choose|i: int| first_with_key(a, key, i);
                assert(first_with_key(t, key, ia - 1));
            }
        }
    }
}

/// The `search` tool reads each of its arguments under its own schema name:
/// the product type from "productType" (case ignored), the query from
/// "query", offset and limit from "offset" and "limit", the tier from
/// "productTier" and the style from "style".
pub proof fn lemma_search_reads_named_arguments(a: Seq<(String, ArgValue)>)
    ensures
        match tool_plan("search"@, a) {
            Ok(ToolCallView::Search(v)) => {
                &&& text_given(given(a, "productType"@)) matches Some(t) && product_type_named(
                    unicode_lowercase(t),
                ) == Some(v.product_type)
                &&& text_given(given(a, "query"@)) == Some(v.query)
                &&& v.offset == count_given(given(a, "offset"@))
                &&& v.limit == count_given(given(a, "limit"@))
                &&& v.product_tier == text_given(given(a, "productTier"@))
                &&& v.style == text_given(given(a, "style"@))
            },
            Ok(_) => false,
            Err(_) => true,
        },
{
    lemma_lookup_is_first_given(a, "productType"@);
    lemma_lookup_is_first_given(a, "query"@);
    lemma_lookup_is_first_given(a, "offset"@);
    lemma_lookup_is_first_given(a, "limit"@);
    lemma_lookup_is_first_given(a, "productTier"@);
    lemma_lookup_is_first_given(a, "style"@);
}

/// The `family_search` tool reads the family slug from "familySlug", the
/// query from "query", the offset from "offset" and the limit from "limit".
pub proof fn lemma_family_search_reads_named_arguments(a: Seq<(String, ArgValue)>)
    ensures
        match tool_plan("family_search"@, a) {
            Ok(ToolCallView::FamilySearch(v)) => {
                &&& text_given(given(a, "familySlug"@)) == Some(v.family_slug)
                &&& text_given(given(a, "query"@)) == Some(v.query)
                &&& v.offset == count_given(given(a, "offset"@))
                &&& v.limit == count_given(given(a, "limit"@))
            },
            Ok(_) => false,
            Err(_) => true,
        },
{
    lemma_plan_at(1, a);
    assert(tool_names()[1] == "family_search"@);
    lemma_lookup_is_first_given(a, "familySlug"@);
    lemma_lookup_is_first_given(a, "query"@);
    lemma_lookup_is_first_given(a, "offset"@);
    lemma_lookup_is_first_given(a, "limit"@);
}

/// The `get_icon_by_hash` tool reads the hash from "iconHash".
pub proof fn lemma_icon_reads_named_arguments(a: Seq<(String, ArgValue)>)
    ensures
        match tool_plan("get_icon_by_hash"@, a) {
            Ok(ToolCallView::GetIconByHash(h)) => text_given(given(a, "iconHash"@)) == Some(h),
            Ok(_) => false,
            Err(_) => true,
        },
{
    lemma_plan_at(2, a);
    assert(tool_names()[2] == "get_icon_by_hash"@);
    lemma_lookup_is_first_given(a, "iconHash"@);
}

/// The `download_svg` tool reads each argument under its own schema name:
/// "iconHash", "size" (cut to 32 bits), "colors", "backgroundColor",
/// "responsive", "strokeWidth", "strokeToFill" and "base64".
pub proof fn lemma_svg_reads_named_arguments(a: Seq<(String, ArgValue)>)
    ensures
        match tool_plan("download_svg"@, a) {
            Ok(ToolCallView::DownloadSvg(v)) => {
                &&& text_given(given(a, "iconHash"@)) == Some(v.icon_hash)
                &&& count_given(given(a, "size"@)) == Some(v.size)
                &&& v.colors == list_given(given(a, "colors"@))
                &&& v.background_color == text_given(given(a, "backgroundColor"@))
                &&& v.responsive == flag_given(given(a, "responsive"@))
                &&& v.stroke_width == float_given(given(a, "strokeWidth"@))
                &&& v.stroke_to_fill == flag_given(given(a, "strokeToFill"@))
                &&& v.base64 == flag_given(given(a, "base64"@))
            },
            Ok(_) => false,
            Err(_) => true,
        },
{
    lemma_plan_at(3, a);
    assert(tool_names()[3] == "download_svg"@);
    lemma_lookup_is_first_given(a, "iconHash"@);
    lemma_lookup_is_first_given(a, "size"@);
    lemma_lookup_is_first_given(a, "colors"@);
    lemma_lookup_is_first_given(a, "backgroundColor"@);
    lemma_lookup_is_first_given(a, "responsive"@);
    lemma_lookup_is_first_given(a, "strokeWidth"@);
    lemma_lookup_is_first_given(a, "strokeToFill"@);
    lemma_lookup_is_first_given(a, "base64"@);
}

/// The `download_png` tool reads each argument under its own schema name:
/// "iconHash", "size" (cut to 32 bits), "colors", "backgroundColor" and
/// "strokeWidth".
pub proof fn lemma_png_reads_named_arguments(a: Seq<(String, ArgValue)>)
    ensures
        match tool_plan("download_png"@, a) {
            Ok(ToolCallView::DownloadPng(v)) => {
                &&& text_given(given(a, "iconHash"@)) == Some(v.icon_hash)
                &&& count_given(given(a, "size"@)) == Some(v.size)
                &&& v.colors == list_given(given(a, "colors"@))
                &&& v.background_color == text_given(given(a, "backgroundColor"@))
                &&& v.stroke_width == float_given(given(a, "strokeWidth"@))
            },
            Ok(_) => false,
            Err(_) => true,
        },
{
    lemma_plan_at(4, a);
    assert(tool_names()[4] == "download_png"@);
    lemma_lookup_is_first_given(a, "iconHash"@);
    lemma_lookup_is_first_given(a, "size"@);
    lemma_lookup_is_first_given(a, "colors"@);
    lemma_lookup_is_first_given(a, "backgroundColor"@);
    lemma_lookup_is_first_given(a, "strokeWidth"@);
}

/// Every tool that `tools/list` announces is dispatched by `tools/call`: with
/// any arguments its call is never refused as an unknown tool.
pub proof fn lemma_listed_tools_dispatch(i: int, a: Seq<(String, ArgValue)>)
    requires
        0 <= i < tool_names().len(),
    ensures
        !(tool_plan(tool_names()[i], a) matches Err(ToolErrorView::UnknownTool(_))),
{
}

/// A name that `tools/list` does not announce is refused as an unknown tool,
/// whatever the arguments.
pub proof fn lemma_unlisted_tools_refused(name: Seq<char>, a: Seq<(String, ArgValue)>)
    requires
        !tool_names().contains(name),
    ensures
        tool_plan(name, a) == Err::<ToolCallView, ToolErrorView>(ToolErrorView::UnknownTool(name)),
{
    assert(tool_names()[0] == "search"@);
    assert(tool_names()[1] == "family_search"@);
    assert(tool_names()[2] == "get_icon_by_hash"@);
    assert(tool_names()[3] == "download_svg"@);
    assert(tool_names()[4] == "download_png"@);
}

} // verus!
