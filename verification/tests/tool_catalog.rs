use rimap_server::mcp::tool_catalog::{
    build_annotations, build_tool_def, build_tool_defs, decode_tool_cursor, no_args_schema,
    tool_def_parts, tool_page_window, Tool, ToolAnnotationHints, ToolSource, TOOLS_PER_PAGE,
};
use rimap_server::json::{render_json, Json};
use rimap_server::mcp::error::INVALID_PARAMS;
use rimap_server::tool::ToolName;

const HINTS: ToolAnnotationHints = ToolAnnotationHints {
    read_only: false,
    destructive: true,
    idempotent: false,
    open_world: true,
};

fn source() -> ToolSource {
    ToolSource {
        hints: HINTS,
        input_schema: Json::Object(vec![]),
        output_schema: Json::Object(vec![]),
    }
}

fn defs() -> Vec<Tool> {
    ToolName::all()
        .into_iter()
        .filter_map(|tn| build_tool_def(tn, &source()))
        .collect()
}

fn desc(tn: ToolName) -> String {
    build_tool_def(tn, &source())
        .and_then(|d| d.description)
        .expect("tool has a description")
}

#[test]
fn tool_definition_covers_all_mcp_tools() {
    const SUB_CAPABILITIES: &[ToolName] = &[
        ToolName::SearchAdvanced,
        ToolName::FetchMessageHtml,
        ToolName::CreateDraftHtml,
    ];
    let expected = ToolName::all().len() - SUB_CAPABILITIES.len();
    assert_eq!(defs().len(), expected);
    assert_eq!(build_tool_defs().len(), expected);
}

#[test]
fn sub_capabilities_return_none() {
    assert!(tool_def_parts(ToolName::SearchAdvanced).is_none());
    assert!(tool_def_parts(ToolName::FetchMessageHtml).is_none());
    assert!(tool_def_parts(ToolName::CreateDraftHtml).is_none());
}

#[test]
fn tool_names_are_snake_case() {
    for def in defs() {
        assert!(
            def.name.chars().all(|c| c.is_ascii_lowercase() || c == '_'),
            "{}",
            def.name
        );
    }
}

#[test]
fn descriptions_carry_workflow_guidance() {
    let draft = desc(ToolName::CreateDraft);
    assert!(draft.contains("$PendingReview"));
    assert!(draft.contains("send_email"));
    for tn in [
        ToolName::MarkRead,
        ToolName::Flag,
        ToolName::AddLabel,
        ToolName::MoveMessage,
    ] {
        assert!(desc(tn).contains("100"), "{}", tn.as_str());
    }
    assert!(desc(ToolName::DeleteMessage).contains("expunge"));
    assert!(desc(ToolName::Expunge).contains("delete_message"));
    assert!(desc(ToolName::DownloadAttachment).contains("list_attachments"));
}

#[test]
fn descriptions_carry_denial_remediation() {
    for tn in [
        ToolName::SendEmail,
        ToolName::Expunge,
        ToolName::CreateFolder,
        ToolName::RenameFolder,
        ToolName::DeleteFolder,
    ] {
        let d = desc(tn);
        assert!(d.contains("ERR_POSTURE_DENIED"), "{}", tn.as_str());
        assert!(d.contains("rimap://docs/postures"), "{}", tn.as_str());
    }
    for tn in [
        ToolName::CreateFolder,
        ToolName::RenameFolder,
        ToolName::DeleteFolder,
    ] {
        let d = desc(tn);
        assert!(
            d.contains("[security].protected_folders") && d.contains("ERR_PROTECTED_FOLDER"),
            "{}",
            tn.as_str()
        );
    }
    for tn in [ToolName::Expunge, ToolName::DeleteFolder] {
        let d = desc(tn);
        assert!(
            d.contains("[security].expunge_folders") && d.contains("ERR_EXPUNGE_DENIED"),
            "{}",
            tn.as_str()
        );
    }
    assert!(desc(ToolName::Expunge).contains("operator must change the server config"));
}

#[test]
fn every_tool_has_a_description() {
    for def in defs() {
        assert!(def.description.is_some(), "{}", def.name);
    }
}

#[test]
fn every_tool_has_a_non_empty_title() {
    for def in defs() {
        assert!(def.title.is_some_and(|t| !t.is_empty()), "{}", def.name);
    }
}

#[test]
fn every_tool_has_annotations() {
    for def in defs() {
        assert!(def.annotations.is_some(), "{}", def.name);
    }
}

#[test]
fn every_tool_title_is_title_case() {
    const LOWERCASE_EXCEPTIONS: &[&str] = &[
        "a", "an", "the", "and", "but", "or", "nor", "for", "so", "yet", "at", "by", "in", "of",
        "on", "to", "up", "via", "from", "into", "with",
    ];
    for def in defs() {
        let title = def.title.as_deref().expect("title present");
        for (i, word) in title.split_whitespace().enumerate() {
            let first = word.chars().next().expect("non-empty word");
            let is_exception = LOWERCASE_EXCEPTIONS.contains(&word.to_ascii_lowercase().as_str());
            if i == 0 || !is_exception {
                assert!(first.is_ascii_uppercase(), "{}: {title:?}: {word:?}", def.name);
            }
        }
    }
}

#[test]
fn annotations_carry_the_hints() {
    let ann = build_annotations("Expunge Folder", HINTS);
    assert_eq!(ann.title.as_deref(), Some("Expunge Folder"));
    assert_eq!(ann.read_only_hint, Some(false));
    assert_eq!(ann.destructive_hint, Some(true));
    assert_eq!(ann.idempotent_hint, Some(false));
    assert_eq!(ann.open_world_hint, Some(true));
}

#[test]
fn a_tool_without_arguments_still_declares_an_object() {
    let schema = Json::Object(no_args_schema());
    let value: serde_json::Value = serde_json::from_str(&render_json(&schema)).unwrap();
    assert_eq!(value["type"], "object");
}

#[test]
fn empty_catalog_yields_one_empty_page() {
    assert_eq!(tool_page_window(0, 0), (0, 0, None));
}

#[test]
fn short_catalog_fits_one_page_without_next_cursor() {
    let (start, end, next) = tool_page_window(TOOLS_PER_PAGE - 1, 0);
    assert_eq!((start, end), (0, TOOLS_PER_PAGE - 1));
    assert_eq!(next, None);
}

#[test]
fn exactly_one_page_has_no_next_cursor() {
    let (_start, end, next) = tool_page_window(TOOLS_PER_PAGE, 0);
    assert_eq!(end, TOOLS_PER_PAGE);
    assert_eq!(next, None);
}

#[test]
fn overflowing_catalog_pages_without_gap_or_overlap() {
    let len = TOOLS_PER_PAGE * 2 + 10;
    let mut visited: Vec<usize> = Vec::new();
    let mut start = 0;
    loop {
        let (s, e, next) = tool_page_window(len, start);
        visited.extend(s..e);
        match next {
            Some(n) => start = n,
            None => break,
        }
    }
    assert_eq!(visited, (0..len).collect::<Vec<_>>());
}

#[test]
fn stale_cursor_past_end_yields_empty_final_page() {
    let (start, end, next) = tool_page_window(5, 1000);
    assert_eq!((start, end), (5, 5));
    assert_eq!(next, None);
}

#[test]
fn decode_cursor_accepts_offset_and_rejects_garbage() {
    assert!(matches!(decode_tool_cursor("25"), Ok(25)));
    assert!(decode_tool_cursor("abc").is_err());
    assert!(decode_tool_cursor("").is_err());
    assert!(decode_tool_cursor("-1").is_err());
}

#[test]
fn a_cursor_is_read_as_a_number() {
    for (cursor, offset) in [("0", Some(0)), ("+7", Some(7)), ("007", Some(7))] {
        assert_eq!(decode_tool_cursor(cursor).ok(), offset, "{cursor}");
    }
    let largest = usize::MAX.to_string();
    assert_eq!(decode_tool_cursor(&largest).ok(), Some(usize::MAX));
    assert!(decode_tool_cursor(&format!("{largest}0")).is_err());
    assert!(decode_tool_cursor("+").is_err());
    match decode_tool_cursor("a\"b") {
        Err(e) => {
            assert_eq!(e.code, INVALID_PARAMS);
            assert_eq!(e.message, "invalid tools/list cursor: \"a\\\"b\"");
        }
        Ok(_) => panic!("no number"),
    }
}

#[test]
fn single_account_catalog_fits_one_page() {
    let single_len = build_tool_defs().len();
    let (_s, _e, next) = tool_page_window(single_len, 0);
    assert_eq!(next, None, "{single_len} tools must fit one page");
}

#[test]
fn a_walk_takes_as_many_pages_as_the_list_fills() {
    for (len, expected) in [(0, 1), (1, 1), (25, 1), (26, 2), (50, 2), (51, 3), (123, 5)] {
        let mut start = 0;
        let mut pages = 1;
        loop {
            let (from, to, next) = tool_page_window(len, start);
            match next {
                Some(n) => {
                    assert_eq!(to - from, TOOLS_PER_PAGE);
                    start = n;
                    pages += 1;
                }
                None => break,
            }
        }
        assert_eq!(pages, expected, "{len}");
    }
}
