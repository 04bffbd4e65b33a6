use remotro::translations::{LuaTable, Translation, Translations};

const SAMPLE: &str = r#"
return {
    descriptions = {
        Tag = {
            tag_handy = {
                name = "Handy Tag",
                text = {
                    "Gives {C:money}$#1#{} per",
                    "played hand this run",
                    "{C:inactive}(Will give {C:money}$#2#{C:inactive})",
                },
            },
            tag_plain = {
                name = "Plain #9# Tag",
                text = "just #1 text",
            },
            tag_empty = {
                name = "Empty",
                text = {},
            },
        },
    },
    misc = {
        poker_hands = {
            ["Flush"] = "Flush",
        },
        poker_hand_descriptions = {
            ["Flush"] = {
                "5 cards that share",
                "the same suit",
            },
        },
        escapes = "a\"b\\c\nd",
    },
}
"#;

#[test]
fn render_fills_placeholders_and_drops_markup() {
    let t = Translations::from_string(SAMPLE.to_string());
    let r = t.render("descriptions.Tag.tag_handy".to_string(), vec!["1".to_string(), "7".to_string()]);
    assert_eq!(
        r,
        Some(Translation {
            name: "Handy Tag".to_string(),
            text: Some("Gives $1 per played hand this run (Will give $7)".to_string()),
        })
    );
}

#[test]
fn render_without_arguments() {
    let t = Translations::from_string(SAMPLE.to_string());
    let r = t.render("descriptions.Tag.tag_plain".to_string(), vec![]);
    assert_eq!(r, Some(Translation { name: "Plain  Tag".to_string(), text: Some("just #1 text".to_string()) }));
    let r = t.render("descriptions.Tag.tag_empty".to_string(), vec![]);
    assert_eq!(r, Some(Translation { name: "Empty".to_string(), text: None }));
}

#[test]
fn render_missing_path_is_none() {
    let t = Translations::from_string(SAMPLE.to_string());
    assert_eq!(t.render("descriptions.Tag.tag_nope".to_string(), vec![]), None);
    assert_eq!(t.render("descriptions.Tag".to_string(), vec![]), None);
    assert_eq!(t.render(String::new(), vec![]), None);
}

#[test]
fn render_single_joins_a_list() {
    let t = Translations::from_string(SAMPLE.to_string());
    assert_eq!(t.render_single("misc.poker_hand_descriptions.Flush".to_string()), Some("5 cards that share the same suit".to_string()));
    assert_eq!(t.render_single("misc.poker_hands.Flush".to_string()), None);
    assert_eq!(t.render_single("misc.nothing".to_string()), None);
}

#[test]
fn lua_table_accessors() {
    let leaf = LuaTable::Item("x".to_string());
    assert_eq!(leaf.as_item(), Some(&"x".to_string()));
    assert!(leaf.as_list().is_none());
    assert!(leaf.get("x").is_none());
    let list = LuaTable::List(vec![LuaTable::Item("a".to_string())]);
    assert_eq!(list.as_list().map(|l| l.len()), Some(1));
    assert!(list.as_item().is_none());
    let table = LuaTable::Table(vec![("k".to_string(), LuaTable::Item("v".to_string()))]);
    assert_eq!(table.get("k").and_then(|v| v.as_item()), Some(&"v".to_string()));
    assert!(table.get("z").is_none());
}

#[test]
fn escapes_in_strings() {
    let t = Translations::from_string("{ misc = { s = { name = \"a\\\"b\\\\c\\nd\\q\" } } }".to_string());
    let r = t.render("misc.s".to_string(), vec![]);
    assert_eq!(r.map(|x| x.name), Some("a\"b\\c\nd\\q".to_string()));
}

#[test]
fn later_key_replaces_earlier() {
    let t = Translations::from_string("{ a = { name = \"one\" }, a = { name = \"two\" } }".to_string());
    assert_eq!(t.render("a".to_string(), vec![]).map(|x| x.name), Some("two".to_string()));
}

#[test]
fn malformed_input_terminates() {
    let t = Translations::from_string("{ \"a\" ] , }".to_string());
    assert_eq!(t.render("a".to_string(), vec![]), None);
    let t = Translations::from_string("{ = = ] [ ".to_string());
    assert_eq!(t.render_single("x".to_string()), None);
}
