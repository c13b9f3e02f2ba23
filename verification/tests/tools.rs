use serde_json::Value;
use vulcan::tools::{
    find_tool, has_unique_names, select_tool, SearchTool, ToolCall, ToolDefinition, WriteFileTool,
};

fn tool(name: &str) -> ToolDefinition {
    ToolDefinition { name: name.to_string(), description: "".to_string(), params: Value::Null }
}

fn call(name: &str) -> ToolCall {
    ToolCall { id: "id".to_string(), name: name.to_string(), args: Value::Null }
}

#[test]
fn find_tool_gives_the_first_of_a_name() {
    let tools = vec![tool("search"), tool("write_file"), tool("search")];
    assert_eq!(find_tool(&tools, "search"), Some(0));
    assert_eq!(find_tool(&tools, "write_file"), Some(1));
    assert_eq!(find_tool(&tools, "delete"), None);
    assert_eq!(find_tool(&tools, "Search"), None);
    assert_eq!(find_tool(&vec![], "search"), None);
}

#[test]
fn select_tool_takes_the_first_call_that_resolves() {
    let tools = vec![tool("search"), tool("write_file")];
    let calls = vec![call("unknown"), call("write_file"), call("search")];
    assert_eq!(select_tool(&calls, &tools), Some((1, 1)));
    assert_eq!(select_tool(&vec![call("search")], &tools), Some((0, 0)));
    assert_eq!(select_tool(&vec![call("unknown")], &tools), None);
    assert_eq!(select_tool(&vec![], &tools), None);
    assert_eq!(select_tool(&calls, &vec![]), None);
}

#[test]
fn search_tool_describes_and_reports() {
    let search = SearchTool {};
    assert_eq!(search.name(), "search");
    assert_eq!(
        search.description(),
        "Search the web for new or more up-to-date information"
    );
    assert_eq!(search.call("best vacuum"), "Searching for: best vacuum");
    assert_eq!(search.call(""), "Searching for: ");
}

#[test]
fn write_file_tool_describes_and_reports() {
    let writer = WriteFileTool {};
    assert_eq!(writer.name(), "write_file");
    assert_eq!(writer.description(), "Write content to a file on the local file system");
    assert_eq!(writer.call("notes/a.txt", "text"), "Wrote to file: notes/a.txt");
}

#[test]
fn unique_names_are_told_from_repeated_ones() {
    assert!(has_unique_names(&vec![]));
    assert!(has_unique_names(&vec![tool("search")]));
    assert!(has_unique_names(&vec![tool("search"), tool("write_file"), tool("Search")]));
    assert!(!has_unique_names(&vec![tool("search"), tool("write_file"), tool("search")]));
    assert!(!has_unique_names(&vec![tool("a"), tool("b"), tool("b")]));
    assert!(!has_unique_names(&vec![tool(""), tool("")]));
}
