use boop::catalog::ScriptMap;
use boop::metadata::{
    metadata_block_of, parse_metadata, JsonField, Metadata, MetadataFault, MetadataField,
    ParseScriptError,
};
use boop::script::Script;

const COUNTER: &str = "
            /**
                {
                    \"api\":1,
                    \"name\":\"Counter\",
                    \"description\":\"Counts up\",
                    \"author\":\"Zoey\",
                    \"icon\":\"HTML\",
                    \"tags\":\"count\"
                }
            **/

            let number = 0;

            function main(state) {
                number += 1;
                state.text = number;
            }";

#[test]
fn metadata_is_read_back() {
    let m = parse_metadata(COUNTER).unwrap();
    assert_eq!(
        m,
        Metadata {
            api: 1,
            name: "Counter".to_string(),
            description: "Counts up".to_string(),
            author: Some("Zoey".to_string()),
            icon: "html".to_string(),
            tags: Some("count".to_string()),
        }
    );
}

#[test]
fn metadata_with_comments_and_no_optionals() {
    let src = "/** { // a comment\n \"api\": 7, \"name\": \"N\", \"description\": \"D\", \"icon\": \"Ab\", \"tags\": null } **/";
    let m = parse_metadata(src).unwrap();
    assert_eq!(m.api, 7);
    assert_eq!(m.author, None);
    assert_eq!(m.tags, None);
    assert_eq!(m.icon, "ab");
}

#[test]
fn missing_markers_give_no_metadata() {
    assert!(matches!(parse_metadata("function main() {}"), Err(ParseScriptError::NoMetadata)));
    assert!(matches!(parse_metadata("/** {}"), Err(ParseScriptError::NoMetadata)));
    assert!(matches!(parse_metadata("**/ {} "), Err(ParseScriptError::NoMetadata)));
    assert!(matches!(parse_metadata("/**/"), Err(ParseScriptError::NoMetadata)));
    assert!(matches!(parse_metadata(""), Err(ParseScriptError::NoMetadata)));
}

#[test]
fn block_is_between_first_markers() {
    assert_eq!(metadata_block_of("a/**x**/y**/"), Some("x".to_string()));
    assert_eq!(metadata_block_of("**/ /**z**/"), Some("z".to_string()));
    assert_eq!(metadata_block_of("/***/"), None);
    assert_eq!(metadata_block_of("/****/"), Some("".to_string()));
    assert_eq!(metadata_block_of("/**/"), None);
}

#[test]
fn invalid_json_is_invalid_metadata() {
    assert!(matches!(
        parse_metadata("/** { not json **/"),
        Err(ParseScriptError::InvalidMetadata(MetadataFault::Json(_)))
    ));
}

#[test]
fn missing_and_mistyped_fields() {
    assert!(matches!(
        parse_metadata("/** {\"name\": \"n\"} **/"),
        Err(ParseScriptError::InvalidMetadata(MetadataFault::Missing(MetadataField::Api)))
    ));
    assert!(matches!(
        parse_metadata("/** {\"api\": \"1\", \"name\": \"n\"} **/"),
        Err(ParseScriptError::InvalidMetadata(MetadataFault::WrongType(MetadataField::Api)))
    ));
    assert!(matches!(
        parse_metadata("/** {\"api\": 1, \"name\": \"n\", \"description\": \"d\", \"icon\": 3} **/"),
        Err(ParseScriptError::InvalidMetadata(MetadataFault::WrongType(MetadataField::Icon)))
    ));
    assert!(matches!(
        parse_metadata("/** [1, 2] **/"),
        Err(ParseScriptError::InvalidMetadata(MetadataFault::Missing(MetadataField::Api)))
    ));
}

#[test]
fn fields_are_checked_in_order() {
    let r = Metadata::from_members(
        JsonField::Unsigned(4294967296),
        JsonField::Missing,
        JsonField::Missing,
        JsonField::Missing,
        JsonField::Missing,
        JsonField::Missing,
    );
    assert!(matches!(r, Err(MetadataFault::WrongType(MetadataField::Api))));
    let r = Metadata::from_members(
        JsonField::Unsigned(1),
        JsonField::Text("n".to_string()),
        JsonField::Text("d".to_string()),
        JsonField::Unsigned(3),
        JsonField::Missing,
        JsonField::Missing,
    );
    assert!(matches!(r, Err(MetadataFault::WrongType(MetadataField::Author))));
    let r = Metadata::from_members(
        JsonField::Unsigned(4294967295),
        JsonField::Text("n".to_string()),
        JsonField::Text("d".to_string()),
        JsonField::Null,
        JsonField::Text("ICON".to_string()),
        JsonField::Text("t".to_string()),
    )
    .unwrap();
    assert_eq!(m_icon(&r), "ICON");
    assert_eq!(r.with_lowercase_icon().icon, "icon");
}

fn m_icon(m: &Metadata) -> &str {
    &m.icon
}

#[test]
fn script_keeps_source_and_path() {
    let s = Script::from_source(COUNTER.to_string(), "/tmp/counter.js".to_string()).unwrap();
    assert_eq!(s.source(), COUNTER);
    assert_eq!(s.path, "/tmp/counter.js");
    assert_eq!(s.metadata.name, "Counter");
}

fn script(name: &str, path: &str) -> Script {
    let src = format!(
        "/** {{\"api\": 1, \"name\": \"{}\", \"description\": \"d\", \"icon\": \"i\"}} **/",
        name
    );
    Script::from_source(src, path.to_string()).unwrap()
}

#[test]
fn catalog_replaces_by_name() {
    let mut map = ScriptMap::new();
    map.insert(script("A", ""));
    map.insert(script("B", ""));
    map.insert(script("A", "/user/a.js"));
    assert_eq!(map.scripts.len(), 2);
    assert_eq!(map.get("A").unwrap().path, "/user/a.js");
    assert_eq!(map.position("B"), Some(1));
    assert!(map.get("C").is_none());
}

#[test]
fn catalog_removes_by_path() {
    let mut map = ScriptMap::new();
    map.overlay(vec![script("A", "/u/a.js"), script("B", "/u/b.js"), script("C", "/u/a.js")]);
    map.remove_path("/u/a.js");
    assert_eq!(map.scripts.len(), 1);
    assert_eq!(map.scripts[0].metadata.name, "B");
}

#[test]
fn catalog_file_renamed_script() {
    let mut map = ScriptMap::new();
    map.insert(script("Old", "/u/x.js"));
    map.file_changed("/u/x.js", Some(script("New", "/u/x.js")));
    assert!(map.get("Old").is_none());
    assert_eq!(map.get("New").unwrap().path, "/u/x.js");
    map.file_changed("/u/x.js", None);
    assert_eq!(map.scripts.len(), 0);
}

#[test]
fn catalog_keeps_name_order() {
    let mut map = ScriptMap::new();
    map.overlay(vec![script("Sort", ""), script("Base64", ""), script("Minify", "")]);
    map.insert(script("Add", ""));
    let names: Vec<&str> = map.scripts.iter().map(|s| s.metadata.name.as_str()).collect();
    assert_eq!(names, vec!["Add", "Base64", "Minify", "Sort"]);
    map.insert(script("Minify", "/u/m.js"));
    assert_eq!(map.scripts.len(), 4);
    assert_eq!(map.scripts[2].path, "/u/m.js");
}

#[test]
fn only_first_block_is_read() {
    let src = "/** {\"api\": 1, \"name\": \"First\", \"description\": \"d\", \"icon\": \"i\"} **/\n/** {\"api\": 1, \"name\": \"Second\", \"description\": \"d\", \"icon\": \"i\"} **/";
    assert_eq!(parse_metadata(src).unwrap().name, "First");
}
