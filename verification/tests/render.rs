use ldap_client::entry::{Attribute, ResultEntry};
use ldap_client::error::ErrorKind;
use ldap_client::json::{layout_json, layout_json_lines, render_json};
use ldap_client::render::{render, resolve_output_mode, OutputMode};
use ldap_client::table::{render_attribute, render_entry, render_table, render_table_lines};

fn strings(items: &[&str]) -> Vec<String> {
    items.iter().map(|s| s.to_string()).collect()
}

fn entry(dn: &str, attributes: &[(&str, &[&str])]) -> ResultEntry {
    let raw: Vec<(String, Vec<String>)> =
        attributes.iter().map(|(name, values)| (name.to_string(), strings(values))).collect();
    ResultEntry::normalize(dn, &raw)
}

fn john() -> ResultEntry {
    entry(
        "cn=john,dc=example,dc=com",
        &[("cn", &["john"]), ("mail", &["john@example.com", "john2@example.com"])],
    )
}

fn as_value(entries: &[ResultEntry]) -> serde_json::Value {
    let mut array = Vec::new();
    for e in entries {
        let mut attributes = serde_json::Map::new();
        for a in e.attributes() {
            let values =
                a.values().iter().map(|v| serde_json::Value::String(v.clone())).collect();
            attributes.insert(a.name().to_string(), serde_json::Value::Array(values));
        }
        let mut object = serde_json::Map::new();
        object.insert("dn".to_string(), serde_json::Value::String(e.dn().to_string()));
        object.insert("attributes".to_string(), serde_json::Value::Object(attributes));
        array.push(serde_json::Value::Object(object));
    }
    serde_json::Value::Array(array)
}

#[test]
fn output_modes_are_named_json_and_table() {
    assert_eq!(resolve_output_mode("json"), Ok(OutputMode::Json));
    assert_eq!(resolve_output_mode("table"), Ok(OutputMode::Table));
    for token in ["xml", "", "JSON", "Table", "json ", "yaml"] {
        let e = resolve_output_mode(token).unwrap_err();
        assert_eq!(e.kind, ErrorKind::InvalidOutputMode);
        assert_eq!(e.context, format!("Invalid output format: {}", token));
        assert_eq!(e.cause, None);
    }
}

#[test]
fn no_entries_render_as_one_line_or_an_empty_array() {
    assert_eq!(render(&vec![], "table"), Ok("No entries found.".to_string()));
    assert_eq!(render(&vec![], "json"), Ok("[]".to_string()));
    assert_eq!(render_table_lines(&vec![]), strings(&["No entries found."]));
    assert_eq!(render_json(&vec![]), Ok("[]".to_string()));
}

#[test]
fn unknown_mode_is_rejected() {
    let e = render(&vec![john()], "xml").unwrap_err();
    assert_eq!(e.kind, ErrorKind::InvalidOutputMode);
    assert_eq!(e.context, "Invalid output format: xml");
    let e = render(&vec![], "xml").unwrap_err();
    assert_eq!(e.kind, ErrorKind::InvalidOutputMode);
}

#[test]
fn one_entry_as_json() {
    let text = render(&vec![john()], "json").unwrap();
    let expected = "[\n  {\n    \"dn\": \"cn=john,dc=example,dc=com\",\n    \"attributes\": {\n      \"cn\": [\n        \"john\"\n      ],\n      \"mail\": [\n        \"john@example.com\",\n        \"john2@example.com\"\n      ]\n    }\n  }\n]";
    assert_eq!(text, expected);
    let parsed: serde_json::Value = serde_json::from_str(&text).unwrap();
    let items = parsed.as_array().unwrap();
    assert_eq!(items.len(), 1);
    assert_eq!(
        serde_json::to_string(&items[0]).unwrap(),
        "{\"dn\":\"cn=john,dc=example,dc=com\",\"attributes\":{\"cn\":[\"john\"],\"mail\":[\"john@example.com\",\"john2@example.com\"]}}"
    );
    let keys: Vec<&String> = items[0].as_object().unwrap().keys().collect();
    assert_eq!(keys, vec!["dn", "attributes"]);
}

#[test]
fn one_entry_as_table() {
    let text = render(&vec![john()], "table").unwrap();
    let expected = format!(
        "Found 1 entries:\n{}\nEntry #1: cn=john,dc=example,dc=com\n{}\n  cn: john\n  mail:\n    - john@example.com\n    - john2@example.com\n",
        "=".repeat(80),
        "-".repeat(40)
    );
    assert_eq!(text, expected);
    let lines: Vec<&str> = text.split('\n').collect();
    assert!(lines.contains(&"  cn: john"));
    let at = lines.iter().position(|l| *l == "  mail:").unwrap();
    assert_eq!(lines[at + 1], "    - john@example.com");
    assert_eq!(lines[at + 2], "    - john2@example.com");
    assert_eq!(render_table(&vec![john()]), expected);
}

#[test]
fn table_lines_of_an_attribute() {
    let one = Attribute::new("cn", &strings(&["john"])).unwrap();
    assert_eq!(render_attribute(&one), strings(&["  cn: john"]));
    let many = Attribute::new("member", &strings(&["a", "b", "c"])).unwrap();
    assert_eq!(render_attribute(&many), strings(&["  member:", "    - a", "    - b", "    - c"]));
    let same = Attribute::new("x", &strings(&["v", "v"])).unwrap();
    assert_eq!(render_attribute(&same), strings(&["  x:", "    - v", "    - v"]));
}

#[test]
fn table_block_of_an_entry() {
    let e = entry("dc=example", &[]);
    assert_eq!(
        render_entry(3, &e),
        vec!["Entry #3: dc=example".to_string(), "-".repeat(40), String::new()]
    );
}

#[test]
fn table_numbers_entries_in_the_order_given() {
    let mut entries = Vec::new();
    for i in 0..12 {
        entries.push(entry(&format!("cn=user{},dc=example", 11 - i), &[("cn", &["x"])]));
    }
    let lines = render_table_lines(&entries);
    assert_eq!(lines[0], "Found 12 entries:");
    assert_eq!(lines[1], "=".repeat(80));
    assert_eq!(lines.len(), 2 + 12 * 4);
    for i in 0..12 {
        assert_eq!(lines[2 + 4 * i], format!("Entry #{}: cn=user{},dc=example", i + 1, 11 - i));
        assert_eq!(lines[3 + 4 * i], "-".repeat(40));
        assert_eq!(lines[4 + 4 * i], "  cn: x");
        assert_eq!(lines[5 + 4 * i], "");
    }
}

#[test]
fn json_matches_the_pretty_printer() {
    let cases: Vec<Vec<ResultEntry>> = vec![
        vec![],
        vec![john()],
        vec![entry("dc=example", &[])],
        vec![john(), entry("dc=example", &[]), john()],
        vec![entry(
            "cn=\"quoted\"\\,dc=ex\u{e4}mple\n",
            &[("desc\tription", &["line\none", "tab\there", "\u{1}\u{7f}", "snow\u{2603}"])],
        )],
        vec![
            entry("cn=a", &[("z", &["1"]), ("a", &["2", "3"]), ("m", &["4"])]),
            entry("cn=b", &[("objectClass", &["top", "person"])]),
        ],
    ];
    for entries in cases {
        let text = render(&entries, "json").unwrap();
        assert_eq!(text, serde_json::to_string_pretty(&as_value(&entries)).unwrap());
        let parsed: serde_json::Value = serde_json::from_str(&text).unwrap();
        assert_eq!(parsed, as_value(&entries));
    }
}

#[test]
fn json_matches_the_pretty_printer_on_many_shapes() {
    let pool = [
        "", "a", "\"", "\\", "\n", "\r\n", "\t", "\u{0}", "\u{8}", "\u{c}", "\u{1f}", "\u{7f}",
        "\u{80}", "\u{e9}", "\u{2028}", "\u{2029}", "\u{1f600}", "a b", "</script>", "{}", "[]",
        ",", ":", "null", "  ", "cn=x,dc=y", "'", "/", "\u{feff}", "\u{ffff}",
    ];
    let mut pick = 0usize;
    let mut next = || {
        pick = (pick * 7 + 3) % 101;
        pool[pick % pool.len()].to_string()
    };
    let mut compared = 0;
    for count in 0..4usize {
        for attributes in 0..4usize {
            for values in 1..4usize {
                for round in 0..5usize {
                    let mut entries = Vec::new();
                    for e in 0..count {
                        let mut raw = Vec::new();
                        for a in 0..attributes {
                            let name = format!("{}{}{}", next(), a, round);
                            let held: Vec<String> = (0..values + (e + a) % 2).map(|_| next()).collect();
                            raw.push((name, held));
                        }
                        entries.push(ResultEntry::normalize(&next(), &raw));
                    }
                    let text = render(&entries, "json").unwrap();
                    assert_eq!(text, serde_json::to_string_pretty(&as_value(&entries)).unwrap());
                    assert_eq!(render_json(&entries), Ok(text));
                    compared += 1;
                }
            }
        }
    }
    assert_eq!(compared, 4 * 4 * 3 * 5);
}

#[test]
fn json_strings_are_encoded() {
    let text = render_json(&vec![entry("a\"b", &[("n\\m", &["x\ny"])])]).unwrap();
    assert!(text.contains("\"dn\": \"a\\\"b\","));
    assert!(text.contains("\"n\\\\m\": ["));
    assert!(text.contains("\"x\\ny\""));
}

#[test]
fn json_layout_writes_literals_as_they_are() {
    let quoted = vec![
        entry("\"cn=a\"", &[("\"cn\"", &["\"a\""]), ("\"mail\"", &["\"x\"", "\"y\""])]),
        entry("\"cn=b\"", &[]),
    ];
    assert_eq!(
        layout_json_lines(&quoted),
        strings(&[
            "[",
            "  {",
            "    \"dn\": \"cn=a\",",
            "    \"attributes\": {",
            "      \"cn\": [",
            "        \"a\"",
            "      ],",
            "      \"mail\": [",
            "        \"x\",",
            "        \"y\"",
            "      ]",
            "    }",
            "  },",
            "  {",
            "    \"dn\": \"cn=b\",",
            "    \"attributes\": {}",
            "  }",
            "]",
        ])
    );
    assert_eq!(layout_json(&vec![]), "[]");
    assert_eq!(layout_json(&quoted), layout_json_lines(&quoted).join("\n"));
}

#[test]
fn attributes_hold_at_least_one_value() {
    assert_eq!(Attribute::new("cn", &vec![]), None);
    let a = Attribute::new("cn", &strings(&["x", "y"])).unwrap();
    assert_eq!(a.name(), "cn");
    assert_eq!(a.values(), &strings(&["x", "y"]));
    assert_eq!(a.copy(), a);
    assert_eq!(a.clone(), a);
}

#[test]
fn normalizing_drops_attributes_without_values() {
    let e = entry("cn=a", &[("empty", &[]), ("cn", &["a"]), ("none", &[]), ("sn", &["b", "c"])]);
    assert_eq!(e.dn(), "cn=a");
    let names: Vec<&str> = e.attributes().iter().map(|a| a.name()).collect();
    assert_eq!(names, vec!["cn", "sn"]);
    assert_eq!(e.attributes()[1].values(), &strings(&["b", "c"]));
    assert_eq!(
        e,
        ResultEntry::new(
            "cn=a",
            vec![
                Attribute::new("cn", &strings(&["a"])).unwrap(),
                Attribute::new("sn", &strings(&["b", "c"])).unwrap(),
            ]
        )
    );
    assert_eq!(e.copy(), e);
    assert_eq!(e.clone(), e);
}
