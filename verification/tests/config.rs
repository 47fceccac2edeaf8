use studio_bridge::auth::{may_call, plan_http_bearer_token, TokenPlan};
use studio_bridge::fields;
use studio_bridge::folders::{helper_folders, hub_folders, UserFolder};
use studio_bridge::helper::config::{
    file_text, helper_id_from_machine_guid, helper_id_from_reg_query, normalize_bearer_token,
    parse_machine_guid_reg_query_output, resolve_bearer_token, resolve_bearer_token_candidates,
    resolve_user_name, token_attempts, ResolvedToken,
};
use studio_bridge::ids::{new_helper_id, new_task_id, new_token};
use studio_bridge::install::{get_message, plugin_bytes, PluginBundle};
use studio_bridge::sanitize::{
    is_summarizable, maybe_sanitize_identifier, sanitize_identifier, sanitize_place_id,
    summarize_error,
};

fn token(value: &str, source: &str) -> ResolvedToken {
    ResolvedToken {
        value: value.to_owned(),
        source: source.to_owned(),
    }
}

#[test]
fn helper_id_from_machine_guid_is_stable() {
    let machine_guid = "12345678-90AB-CDEF-1234-567890ABCDEF";
    let derived_a = helper_id_from_machine_guid(machine_guid).expect("helper id should derive");
    let derived_b = helper_id_from_machine_guid(machine_guid).expect("helper id should derive");
    assert_eq!(derived_a, derived_b);
    assert!(derived_a.starts_with("h_"));
    assert!(derived_a
        .chars()
        .all(|ch| ch.is_ascii_alphanumeric() || ch == '_' || ch == '-'));
}

#[test]
fn helper_id_follows_the_name_based_uuid() {
    let guid = "12345678-90ab-cdef-1234-567890abcdef";
    let derived = helper_id_from_machine_guid(guid).unwrap();
    assert_eq!(derived.len(), 14);
    assert_ne!(derived, helper_id_from_machine_guid("other").unwrap());
    assert!(helper_id_from_machine_guid("  ").is_err());
}

#[test]
fn parse_machine_guid_reg_query_output_extracts_guid() {
    let guid = parse_machine_guid_reg_query_output(
        "\nHKEY_LOCAL_MACHINE\\SOFTWARE\\Microsoft\\Cryptography\n    MachineGuid    REG_SZ    abcdef12-3456-7890-abcd-ef1234567890\n",
    )
    .expect("MachineGuid should parse");
    assert_eq!(guid, "abcdef12-3456-7890-abcd-ef1234567890");
    assert_eq!(
        parse_machine_guid_reg_query_output("nothing"),
        Err("reg query did not return MachineGuid".to_owned())
    );
}

#[test]
fn bearer_word_and_mark_are_left_out() {
    assert_eq!(
        normalize_bearer_token("\u{feff}Bearer abc \n").as_deref(),
        Some("abc")
    );
    assert_eq!(normalize_bearer_token(" abc").as_deref(), Some("abc"));
    assert_eq!(normalize_bearer_token("Bearer  "), Some("Bearer".to_owned()));
    assert_eq!(normalize_bearer_token(" \n"), None);
    assert_eq!(fields::normalize_bearer_token("Bearer abc").as_deref(), Some("abc"));
    assert_eq!(file_text(" a\r\nb "), "ab");
}

#[test]
fn user_name_comes_from_the_arguments_or_a_file() {
    assert_eq!(
        resolve_user_name(Some(" SunJun "), &Vec::new()),
        Ok("sunjun".to_owned())
    );
    assert_eq!(
        resolve_user_name(Some(" "), &vec!["\n".to_owned(), "\u{c4}NNE\n".to_owned()]),
        Ok("\u{e4}nne".to_owned()),
        "names are put in lower case, whatever the letters"
    );
    assert_eq!(
        resolve_user_name(None, &Vec::new()),
        Err("cannot resolve feishu-user_name for helper".to_owned())
    );
}

#[test]
fn tokens_are_tried_once_each() {
    let files = vec![token("Bearer a", "file one"), token("b", "file two"), token(" ", "x")];
    let list = match resolve_bearer_token_candidates(Some("a"), &files) {
        Ok(list) => list,
        Err(error) => panic!("{error}"),
    };
    let values: Vec<&str> = list.iter().map(|t| t.value.as_str()).collect();
    assert_eq!(values, vec!["a", "b"]);
    let first = resolve_bearer_token(None, &files).ok().unwrap();
    assert_eq!(first.value, "a");
    assert_eq!(first.source, "file one");
    assert!(resolve_bearer_token(None, &Vec::new()).is_err());
    let attempts = token_attempts(&token("b", "now"), &list);
    let values: Vec<&str> = attempts.iter().map(|t| t.value.as_str()).collect();
    assert_eq!(values, vec!["b", "a"]);
    assert_eq!(attempts[0].source, "now");
}

#[test]
fn token_of_a_server_is_looked_for_in_order() {
    let nowhere = vec![false, false];
    assert!(matches!(
        plan_http_bearer_token(true, Some("a"), true, &nowhere),
        TokenPlan::NoToken
    ));
    match plan_http_bearer_token(false, Some("Bearer a"), true, &nowhere) {
        TokenPlan::Token(token) => assert_eq!(token, "a"),
        _ => panic!("a token that is given is taken"),
    }
    assert!(matches!(
        plan_http_bearer_token(false, Some(" "), true, &nowhere),
        TokenPlan::GivenFile
    ));
    assert!(matches!(
        plan_http_bearer_token(false, None, false, &vec![false, true, true]),
        TokenPlan::UsualFile(1)
    ));
    assert!(matches!(
        plan_http_bearer_token(false, None, false, &nowhere),
        TokenPlan::NoToken
    ));
}

#[test]
fn callers_need_the_token() {
    assert!(may_call(None, None));
    assert!(may_call(Some("a"), Some("Bearer a")));
    assert!(may_call(Some("a"), Some("a")));
    assert!(!may_call(Some("a"), Some("Bearer b")));
    assert!(!may_call(Some("a"), Some("")));
    assert!(!may_call(Some("a"), None));
}

#[test]
fn identifiers_are_fresh() {
    let task = new_task_id();
    assert!(task.starts_with('t'));
    assert_eq!(task.len(), 11);
    assert_ne!(task, new_task_id());
    let helper = new_helper_id();
    assert!(helper.starts_with("h_"));
    assert_eq!(helper.len(), 12);
    let token = new_token();
    assert_eq!(token.len(), 36);
    assert_eq!(token.as_bytes()[14], b'4');
    assert_ne!(token, new_token());
}

#[test]
fn names_and_places_are_checked() {
    assert_eq!(sanitize_place_id(" 12 "), Ok("12".to_owned()));
    assert_eq!(
        sanitize_place_id("12a"),
        Err("placeId must be digits only".to_owned())
    );
    assert_eq!(sanitize_identifier("x", "a-B_9"), Ok("a-B_9".to_owned()));
    assert_eq!(
        sanitize_identifier("x", "a.b"),
        Err("x must use [A-Za-z0-9_-] only".to_owned())
    );
    assert_eq!(maybe_sanitize_identifier("x", &None), Ok(None));
    assert!(maybe_sanitize_identifier("x", &Some(" ".to_owned())).is_err());
}

#[test]
fn long_errors_are_cut() {
    assert_eq!(summarize_error("  short "), "short");
    let long = "x".repeat(200);
    assert!(is_summarizable(&long));
    assert_eq!(summarize_error(&long), format!("{}...", "x".repeat(180)));
    let awkward = format!("{}\u{e4}{}", "x".repeat(179), "y".repeat(20));
    assert!(!is_summarizable(&awkward));
}

#[test]
fn install_message_holds_what_was_done() {
    let message = get_message("Done.");
    assert!(message.starts_with("clockp MCP Studio plugin is ready.\n"));
    assert!(message.contains("\nPlugin integration:\nDone.\n\nNote: "));
    assert!(message.ends_with("from your Plugins directory."));
    let bundle = PluginBundle::new(vec![1, 2, 3]);
    assert_eq!(plugin_bytes(&bundle), &[1, 2, 3]);
}

#[test]
fn helper_id_comes_from_what_the_registry_tool_writes() {
    let guid = "12345678-90AB-CDEF-1234-567890ABCDEF";
    let written = format!("\r\nHKEY\r\n    MachineGuid    REG_SZ    {guid}\r\n");
    assert_eq!(
        helper_id_from_reg_query(written.as_bytes()),
        helper_id_from_machine_guid(guid)
    );
    assert_eq!(
        helper_id_from_reg_query(b"\xff\xfe"),
        Err("reg query did not return MachineGuid".to_owned())
    );
}

#[test]
fn files_of_the_user_are_looked_for_in_order() {
    let (app_data, home, profile) = (UserFolder::AppData, UserFolder::Home, UserFolder::Profile);
    assert_eq!(helper_folders(true, true, true), vec![app_data, home]);
    assert_eq!(helper_folders(false, false, true), vec![profile]);
    assert!(helper_folders(false, false, false).is_empty());
    assert_eq!(hub_folders(true, true, true, false), vec![app_data, home, profile]);
    assert_eq!(hub_folders(false, true, true, true), vec![home]);
    assert!(hub_folders(false, false, false, true).is_empty());
}
