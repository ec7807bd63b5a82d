use netplay::json::{json_to_text, number_of_i64, parse_json, Json};
use netplay::relay::{client_command, client_input, relay_step, ClientCommand, RelayAction, RelayEvent};
use netplay::release::{is_wanted_asset_url, release_url, select_asset, uses_proxy, AssetError};

fn text(v: &str) -> Json {
    Json::String(v.to_string())
}

fn object(members: Vec<(&str, Json)>) -> Json {
    Json::Object(members.into_iter().map(|(k, v)| (k.to_string(), v)).collect())
}

fn asset(url: &str, name: &str) -> Json {
    object(vec![("browser_download_url", text(url)), ("name", text(name))])
}

#[test]
fn json_accessors_read_members() {
    let doc = object(vec![
        ("a", text("x")),
        ("n", Json::Number(number_of_i64(-4))),
        ("l", Json::Array(vec![Json::Null, Json::Bool(true)])),
    ]);
    assert_eq!(doc.get("a").and_then(|v| v.as_str()), Some("x"));
    assert_eq!(doc.get("n").and_then(|v| v.as_i64()), Some(-4));
    assert_eq!(doc.get("l").and_then(|v| v.as_array()).map(|l| l.len()), Some(2));
    assert!(doc.get("missing").is_none());
    assert!(text("x").get("a").is_none());
    assert_eq!(text("x").as_i64(), None);
}

#[test]
fn relay_steps() {
    assert!(matches!(relay_step(RelayEvent::ClientMessage("hi".to_string())), RelayAction::Publish(m) if m == "hi"));
    assert!(matches!(relay_step(RelayEvent::Broadcast("yo".to_string())), RelayAction::Deliver(m) if m == "yo"));
    assert!(matches!(relay_step(RelayEvent::ClientControl), RelayAction::Ignore));
    assert!(matches!(relay_step(RelayEvent::ClientError), RelayAction::Stop));
    assert!(matches!(relay_step(RelayEvent::ClientClosed), RelayAction::Stop));
}

#[test]
fn typed_exit_leaves_after_trimming() {
    assert!(matches!(client_input("  exit \r\n"), ClientCommand::Exit));
    assert!(matches!(client_command("exit"), ClientCommand::Exit));
}

#[test]
fn typed_text_is_sent_trimmed() {
    assert!(matches!(client_input("\t hello there \n"), ClientCommand::Send(s) if s == "hello there"));
    assert!(matches!(client_input("exit now"), ClientCommand::Send(s) if s == "exit now"));
    assert!(matches!(client_command("Exit"), ClientCommand::Send(s) if s == "Exit"));
}

#[test]
fn release_url_names_the_repository() {
    assert_eq!(release_url("octo", "tool"), "https://api.github.com/repos/octo/tool/releases/latest");
}

#[test]
fn wanted_url_needs_all_three_marks() {
    assert!(is_wanted_asset_url("https://x/tool-linux-amd64v3.tar.gz"));
    assert!(!is_wanted_asset_url("https://x/tool-linux-amd64.tar.gz"));
    assert!(!is_wanted_asset_url("https://x/tool-darwin-amd64v3.tar.gz"));
    assert!(!is_wanted_asset_url("https://x/tool-linux-amd64v3.zip"));
}

#[test]
fn first_wanted_asset_is_picked() {
    let info = object(vec![(
        "assets",
        Json::Array(vec![
            asset("https://x/t-darwin-amd64v3.tar.gz", "mac"),
            object(vec![("name", text("no url"))]),
            asset("https://x/t-linux-amd64v3.tar.gz", "first"),
            asset("https://x/t-linux-amd64v3.tar.gz.sha", "second"),
        ]),
    )]);
    let picked = select_asset(&info).unwrap();
    assert_eq!(picked.url, "https://x/t-linux-amd64v3.tar.gz");
    assert_eq!(picked.name, "first");
}

#[test]
fn missing_assets_is_an_error() {
    let info = object(vec![("tag_name", text("v1"))]);
    assert_eq!(select_asset(&info).unwrap_err(), AssetError::NoAssets);
    let info = object(vec![("assets", text("none"))]);
    assert_eq!(select_asset(&info).unwrap_err(), AssetError::NoAssets);
}

#[test]
fn no_wanted_asset_is_an_error() {
    let info = object(vec![("assets", Json::Array(vec![asset("https://x/t.zip", "z")]))]);
    assert_eq!(select_asset(&info).unwrap_err(), AssetError::NoValidAsset);
}

#[test]
fn wanted_asset_without_name_is_an_error() {
    let info = object(vec![(
        "assets",
        Json::Array(vec![object(vec![("browser_download_url", text("linux-amd64v3.tar.gz"))])]),
    )]);
    assert_eq!(select_asset(&info).unwrap_err(), AssetError::NoAssetName);
}

#[test]
fn asset_error_texts() {
    assert_eq!(AssetError::NoAssets.message(), "No assets found");
    assert_eq!(AssetError::NoValidAsset.message(), "No valid asset in the url");
    assert_eq!(AssetError::NoDownloadUrl.message(), "No download URL found");
    assert_eq!(AssetError::NoAssetName.message(), "No asset name found");
}

#[test]
fn proxy_is_used_only_when_set() {
    assert!(!uses_proxy(""));
    assert!(uses_proxy("http://127.0.0.1:7890"));
}

#[test]
fn json_text_is_read_into_the_document() {
    let doc = parse_json(r#"{"b":[1,"x",null,true],"a":-7,"f":2.5}"#).unwrap();
    assert_eq!(doc.get("a").and_then(|v| v.as_i64()), Some(-7));
    assert_eq!(doc.get("f").and_then(|v| v.as_i64()), None);
    assert!(matches!(doc.get("f"), Some(Json::Number(_))));
    let items = doc.get("b").and_then(|v| v.as_array()).unwrap();
    assert_eq!(items.len(), 4);
    assert_eq!(items[1].as_str(), Some("x"));
    assert!(matches!(items[2], Json::Null));
    assert!(matches!(items[3], Json::Bool(true)));
}

#[test]
fn non_json_text_reads_as_none() {
    assert!(parse_json("{not json").is_none());
    assert!(parse_json("").is_none());
}

#[test]
fn document_is_written_as_compact_text() {
    let doc = Json::Array(vec![Json::Number(number_of_i64(2)), text("id"), Json::Null]);
    assert_eq!(json_to_text(doc), r#"[2,"id",null]"#);
}

#[test]
fn written_text_reads_back() {
    let text_in = r#"[2,"a",{"k":[1.5,false]}]"#;
    let doc = parse_json(text_in).unwrap();
    assert_eq!(json_to_text(doc), text_in);
}
