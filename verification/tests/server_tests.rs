use vjmapper::api::ProductType;
use vjmapper::schema::{tool_schema, DefaultValue, PropertyKind};
use vjmapper::server::{
    invalid_params_reply, plan_tool_call, replies_to, route_method, tool_catalog, tool_error_text,
    tool_outcome_reply, ArgValue, CallReply, RpcMethod, ToolArgs, ToolCall, ToolError,
    INVALID_PARAMS, METHOD_NOT_FOUND, PARSE_ERROR,
};

fn s(x: &str) -> ArgValue {
    ArgValue::Str(x.to_string())
}

fn n(x: u64) -> ArgValue {
    ArgValue::Number { unsigned: Some(x), float_text: (x as f64 as f32).to_string() }
}

fn args(entries: Vec<(&str, ArgValue)>) -> ToolArgs {
    ToolArgs { entries: entries.into_iter().map(|(k, v)| (k.to_string(), v)).collect() }
}

#[test]
fn methods_are_routed() {
    assert_eq!(route_method("initialize"), RpcMethod::Initialize);
    assert_eq!(route_method("initialized"), RpcMethod::Initialized);
    assert_eq!(route_method("tools/list"), RpcMethod::ToolsList);
    assert_eq!(route_method("tools/call"), RpcMethod::ToolsCall);
    assert_eq!(route_method("resources/list"), RpcMethod::Unknown);
    assert!(!replies_to(RpcMethod::Initialized));
    assert!(replies_to(RpcMethod::Unknown));
    assert_eq!((PARSE_ERROR, METHOD_NOT_FOUND, INVALID_PARAMS), (-32700, -32601, -32602));
}

#[test]
fn catalog_lists_five_tools_that_all_dispatch() {
    let tools = tool_catalog();
    assert_eq!(tools.len(), 5);
    for t in &tools {
        match plan_tool_call(&t.name, &args(vec![])) {
            Err(ToolError::UnknownTool(_)) => panic!("listed tool not dispatched"),
            _ => {}
        }
    }
    assert_eq!(tools[0].name, "search");
    assert_eq!(tools[4].name, "download_png");
}

#[test]
fn search_call_reads_arguments() {
    let a = args(vec![
        ("productType", s("Icons")),
        ("query", s("home")),
        ("offset", n(5)),
        ("limit", n(4294967296 + 7)),
        ("style", s("line")),
        ("productTier", ArgValue::Bool(true)),
    ]);
    match plan_tool_call("search", &a).unwrap() {
        ToolCall::Search(p) => {
            assert_eq!(p.product_type, ProductType::Icons);
            assert_eq!(p.query, "home");
            assert_eq!(p.offset, Some(5));
            assert_eq!(p.limit, Some(7));
            assert_eq!(p.product_tier, None);
            assert_eq!(p.style, Some("line".to_string()));
        }
        other => panic!("unexpected {:?}", other),
    }
}

#[test]
fn search_call_errors_in_order() {
    let e = plan_tool_call("search", &args(vec![("query", s("x"))])).unwrap_err();
    assert_eq!(e.message(), "Missing required parameter: productType");
    let e = plan_tool_call("search", &args(vec![("productType", s("fonts"))])).unwrap_err();
    assert_eq!(
        e.message(),
        "Invalid product type: fonts. Must be one of: icons, illustrations, emojis, elements"
    );
    let e = plan_tool_call("search", &args(vec![("productType", s("icons"))])).unwrap_err();
    assert_eq!(e.message(), "Missing required parameter: query");
    let e = plan_tool_call("nope", &args(vec![])).unwrap_err();
    assert_eq!(e.message(), "Unknown tool: nope");
    assert_eq!(tool_error_text(&e.message()), "Error: Unknown tool: nope");
}

#[test]
fn family_and_icon_calls() {
    match plan_tool_call("family_search", &args(vec![("familySlug", s("f")), ("query", s("q"))])).unwrap() {
        ToolCall::FamilySearch(p) => {
            assert_eq!(p.family_slug, "f");
            assert_eq!(p.query, "q");
            assert_eq!(p.offset, None);
        }
        other => panic!("unexpected {:?}", other),
    }
    let e = plan_tool_call("family_search", &args(vec![("query", s("q"))])).unwrap_err();
    assert_eq!(e.message(), "Missing required parameter: familySlug");
    match plan_tool_call("get_icon_by_hash", &args(vec![("iconHash", s("abc"))])).unwrap() {
        ToolCall::GetIconByHash(h) => assert_eq!(h, "abc"),
        other => panic!("unexpected {:?}", other),
    }
    let e = plan_tool_call("get_icon_by_hash", &args(vec![("iconHash", n(3))])).unwrap_err();
    assert_eq!(e.message(), "Missing required parameter: iconHash");
}

#[test]
fn download_calls() {
    let a = args(vec![
        ("iconHash", s("h")),
        ("size", n(64)),
        (
            "colors",
            ArgValue::Array(vec![s("red"), n(1), s("blue"), ArgValue::Other]),
        ),
        ("strokeWidth", ArgValue::Number { unsigned: None, float_text: "1.5".to_string() }),
        ("base64", ArgValue::Bool(true)),
    ]);
    match plan_tool_call("download_svg", &a).unwrap() {
        ToolCall::DownloadSvg(p) => {
            assert_eq!(p.icon_hash, "h");
            assert_eq!(p.size, 64);
            assert_eq!(p.colors, Some(vec!["red".to_string(), "blue".to_string()]));
            assert_eq!(p.stroke_width, Some("1.5".to_string()));
            assert_eq!(p.base64, Some(true));
            assert_eq!(p.responsive, None);
        }
        other => panic!("unexpected {:?}", other),
    }
    match plan_tool_call("download_png", &a).unwrap() {
        ToolCall::DownloadPng(p) => {
            assert_eq!(p.size, 64);
            assert_eq!(p.colors, Some(vec!["red".to_string(), "blue".to_string()]));
        }
        other => panic!("unexpected {:?}", other),
    }
    let e = plan_tool_call("download_png", &args(vec![("iconHash", s("h")), ("size", s("64"))])).unwrap_err();
    assert_eq!(e.message(), "Missing required parameter: size");
}

#[test]
fn catalog_carries_descriptions_and_schemas() {
    let tools = tool_catalog();
    assert_eq!(tools[1].description, "Search for icons within a specific family.");
    assert_eq!(tools[3].description, "Download an icon as SVG with optional modifications.");
    let search = &tools[0];
    let names: Vec<&str> = search.properties.iter().map(|p| p.name.as_str()).collect();
    assert_eq!(names, vec!["productType", "query", "offset", "limit", "productTier", "style"]);
    assert_eq!(search.required, vec!["productType".to_string(), "query".to_string()]);
    assert_eq!(search.properties[0].choices, vec!["icons", "illustrations", "emojis", "elements"]);
    assert_eq!(search.properties[2].kind, PropertyKind::Number);
    assert!(matches!(search.properties[3].default, Some(DefaultValue::Number(10))));
    assert!(matches!(&search.properties[4].default, Some(DefaultValue::Text(t)) if t == "all"));
    let svg = &tools[3];
    assert_eq!(svg.properties.len(), 8);
    assert_eq!(svg.properties[2].kind, PropertyKind::TextList);
    assert_eq!(svg.properties[4].kind, PropertyKind::Flag);
    assert!(matches!(svg.properties[6].default, Some(DefaultValue::Flag(false))));
    assert_eq!(tools[4].properties.len(), 5);
    assert_eq!(tools[2].required, vec!["iconHash".to_string()]);
    let (props, required) = tool_schema(1);
    assert_eq!(props.len(), 4);
    assert_eq!(required, vec!["familySlug".to_string(), "query".to_string()]);
}

fn full_args(tool: &str) -> Vec<(&'static str, ArgValue)> {
    match tool {
        "search" => vec![("productType", s("icons")), ("query", s("cat"))],
        "family_search" => vec![("familySlug", s("core")), ("query", s("cat"))],
        "get_icon_by_hash" => vec![("iconHash", s("abc"))],
        _ => vec![("iconHash", s("abc")), ("size", n(64))],
    }
}

#[test]
fn required_lists_name_exactly_the_needed_arguments() {
    for t in tool_catalog() {
        assert!(plan_tool_call(&t.name, &args(full_args(&t.name))).is_ok());
        for k in &t.required {
            let without: Vec<(&str, ArgValue)> =
                full_args(&t.name).into_iter().filter(|(key, _)| key != k).collect();
            match plan_tool_call(&t.name, &args(without)) {
                Err(ToolError::MissingParameter(m)) => assert_eq!(&m, k),
                _ => panic!("a required argument was not needed"),
            }
        }
    }
}

#[test]
fn call_replies() {
    match invalid_params_reply(None) {
        CallReply::RpcError { code, message } => {
            assert_eq!(code, -32602);
            assert_eq!(message, "Invalid params: missing params");
        }
        _ => panic!("expected an error reply"),
    }
    match invalid_params_reply(Some("missing field `name`")) {
        CallReply::RpcError { code, message } => {
            assert_eq!(code, -32602);
            assert_eq!(message, "Invalid params: missing field `name`");
        }
        _ => panic!("expected an error reply"),
    }
    match tool_outcome_reply(Ok("done".to_string())) {
        CallReply::ToolResult { text, is_error } => {
            assert_eq!(text, "done");
            assert_eq!(is_error, None);
        }
        _ => panic!("expected a tool result"),
    }
    match tool_outcome_reply(Err("Unknown tool: x".to_string())) {
        CallReply::ToolResult { text, is_error } => {
            assert_eq!(text, "Error: Unknown tool: x");
            assert_eq!(is_error, Some(true));
        }
        _ => panic!("expected a tool result"),
    }
}
