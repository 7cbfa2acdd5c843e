use hello_grpc_rust::utils::{
    build_link_requests, extract_dependency_version, extract_version_from_block, get_version,
    lookup_thanks, random_id, thanks, HELLOS,
};

#[test]
fn test_random_id_format_and_range() {
    let max_val = 100;
    let id_str = random_id(max_val);

    match id_str.parse::<i32>() {
        Ok(id_int) => {
            assert!(
                id_int >= 0 && id_int < max_val,
                "random_id {} out of range [0, {})",
                id_int,
                max_val
            );
        }
        Err(_) => {
            panic!("random_id did not return a parsable integer string: {}", id_str);
        }
    }

    let max_val_one = 1;
    let id_str_one = random_id(max_val_one);
    match id_str_one.parse::<i32>() {
        Ok(id_int_one) => {
            assert!(
                id_int_one == 0,
                "random_id {} with max 1 should be 0, was {}",
                id_int_one,
                id_str_one
            );
        }
        Err(_) => {
            panic!(
                "random_id did not return a parsable integer string for max_val_one: {}",
                id_str_one
            );
        }
    }
}

#[test]
fn test_thanks() {
    assert_eq!(thanks("Hello"), "Thank you very much");
    assert_eq!(thanks("Bonjour"), "Merci beaucoup");
}

#[test]
#[should_panic]
fn test_thanks_panic_on_unknown_key() {
    thanks("UnknownGreeting");
}

#[test]
fn test_build_link_requests() {
    let requests_list = build_link_requests();
    assert_eq!(requests_list.len(), 3, "Should build 3 requests");

    for (i, request) in requests_list.iter().enumerate() {
        assert_eq!(request.meta, "RUST", "Request meta should be RUST");
        match request.data.parse::<i32>() {
            Ok(data_int) => {
                assert!(
                    data_int >= 0 && data_int < 5,
                    "Request data {} out of range [0, 5) at index {}",
                    data_int,
                    i
                );
            }
            Err(_) => {
                panic!("Request data was not a parsable i32: {} at index {}", request.data, i);
            }
        }
    }
}

fn is_version_number(text: &str) -> bool {
    let parts: Vec<&str> = text.split('.').collect();
    parts.len() == 3 && parts.iter().all(|p| !p.is_empty() && p.chars().all(|c| c.is_ascii_digit()))
}

#[test]
fn test_get_version() {
    let version = get_version(None);

    assert!(version.starts_with("tonic.version="));
    assert!(version.len() > 14);

    let rest = &version["tonic.version=".len()..];
    let middle = " (prost.version=";
    let at = rest.find(middle).unwrap();
    assert!(is_version_number(&rest[..at]));
    let tail = &rest[at + middle.len()..];
    assert!(tail.ends_with(')'));
    assert!(is_version_number(&tail[..tail.len() - 1]));

    println!("Rust gRPC version: {}", version);
}

#[test]
fn version_comes_from_the_manifest() {
    let manifest = "[package]\nname = \"demo\"\n\n[dependencies]\ntonic = \"0.12.3\"\nprost = { version = \"0.13.5\" }\n";
    assert_eq!(get_version(Some(manifest)), "tonic.version=0.12.3 (prost.version=0.13.5)");
    assert_eq!(get_version(Some("")), "tonic.version=unknown (prost.version=unknown)");
    assert_eq!(get_version(None), "tonic.version=0.9.2 (prost.version=0.11.9)");
}

#[test]
fn every_greeting_has_its_thanks() {
    let expected = vec![
        "Thank you very much",
        "Merci beaucoup",
        "Muchas Gracias",
        "どうも ありがとう ございます",
        "Mille Grazie",
        "대단히 감사합니다",
    ];
    assert_eq!(HELLOS.len(), 6);
    for i in 0..6 {
        assert_eq!(thanks(HELLOS[i]), expected[i]);
    }
    assert_eq!(thanks("你好"), "非常感谢");
    assert_eq!(lookup_thanks("hello"), None);
    assert_eq!(lookup_thanks(""), None);
}

#[test]
fn random_ids_stay_below_the_bound() {
    for _ in 0..200 {
        let id = random_id(5);
        let value = id.parse::<i32>().unwrap();
        assert!(value >= 0 && value < 5);
        assert_eq!(id, value.to_string());
    }
}

#[test]
fn simple_dependency_version() {
    let manifest = "tonic = \"0.9.2\"\nprost = \"0.11.9\"\n";
    assert_eq!(extract_dependency_version(manifest, "tonic"), Some("0.9.2".to_string()));
    assert_eq!(extract_dependency_version(manifest, "prost"), Some("0.11.9".to_string()));
    assert_eq!(extract_dependency_version(manifest, "serde"), None);
}

#[test]
fn inline_table_dependency_version() {
    let manifest = "  tonic = { version = \"0.12.3\", features = [\"tls\"] }\n";
    assert_eq!(extract_dependency_version(manifest, "tonic"), Some("0.12.3".to_string()));
}

#[test]
fn dependency_without_quotes_is_passed_over() {
    let manifest = "tonic = 1\ntonic = \"2\"\n";
    assert_eq!(extract_dependency_version(manifest, "tonic"), Some("2".to_string()));
}

#[test]
fn block_dependency_version() {
    let manifest = "tonic {\n  features = []\n  version = \"0.9.2\"\n}\n";
    assert_eq!(extract_dependency_version(manifest, "tonic"), Some("0.9.2".to_string()));
    let tight = "tonic{\n    version = \"1.0\"\n";
    assert_eq!(extract_dependency_version(tight, "tonic"), Some("1.0".to_string()));
}

#[test]
fn block_ends_at_a_line_that_is_no_deeper() {
    let manifest = "tonic {\n  features = []\n}\nversion = \"9.9.9\"\n";
    assert_eq!(extract_version_from_block(manifest, "tonic {"), None);
    let blank_lines = "tonic {\n\n   \n  version = \"3\"\n";
    assert_eq!(extract_version_from_block(blank_lines, "tonic {"), Some("3".to_string()));
    assert_eq!(extract_version_from_block("version = \"1\"\n", "tonic {"), None);
}

fn block_version_by_std(content: &str, start_line: &str) -> Option<String> {
    let mut in_block = false;
    let mut block_indent = 0;
    for line in content.lines() {
        if line.contains(start_line) {
            in_block = true;
            block_indent = line.len() - line.trim_start().len();
            continue;
        }
        if in_block {
            if line.trim().starts_with("version") {
                if let Some(version) = line.split('"').nth(1) {
                    return Some(version.to_string());
                }
            }
            if !line.trim().is_empty() && line.len() - line.trim_start().len() <= block_indent {
                break;
            }
        }
    }
    None
}

fn dependency_version_by_std(content: &str, name: &str) -> Option<String> {
    for line in content.lines() {
        let line = line.trim();
        if line.starts_with(&format!("{} =", name)) {
            if let Some(version) = line.split('"').nth(1) {
                return Some(version.to_string());
            }
        } else if line.starts_with(&format!("{} {{", name))
            || line.starts_with(&format!("{}{{", name))
        {
            return block_version_by_std(content, line);
        }
    }
    None
}

#[test]
fn version_search_agrees_with_the_same_search_on_strings() {
    let manifests = vec![
        "",
        "\n",
        "tonic = \"0.9.2\"",
        "tonic = \"0.9.2\"\r\nprost = '0.11'\r\n",
        "tonic = { version = \"0.12.3\", features = [\"tls\"] }",
        "tonic=\"1\"",
        "tonic = 1\ntonic = \"2\"",
        "tonic.workspace = true\ntonic = \"3\"",
        "tonic-build = \"0.9\"\ntonic = \"0.9.2\"",
        "tonic {\n  version = \"4\"\n}",
        "  tonic {\n    features = []\n  other = 1\n    version = \"5\"\n",
        "  tonic {\n    features = []\n      version = \"6\"\n  other = 1\n",
        "tonic {\nversion = \"7\"\n",
        "tonic {\n\n\t\n\tversion = \"8\"\n",
        "tonic {\n  versions = \"9\"\n",
        "tonic {\n  version = 10\n  version = \"11\"\n",
        "tonic{\n\u{3000}version = \"12\"\n",
        "\u{a0}tonic {\n \u{a0}version = \"13\"\n",
        "x tonic {\ntonic {\n  version = \"14\"\n",
        "tonic {\n  a tonic { b\n    version = \"15\"\n",
        "prost {\n  version = \"16\"\n}\ntonic {\n  version = \"17\"\n}",
        "tonic =\nprost =\"18",
    ];
    for manifest in manifests {
        for name in vec!["tonic", "prost", "", "ton"] {
            assert_eq!(
                extract_dependency_version(manifest, name),
                dependency_version_by_std(manifest, name),
                "{:?} in {:?}",
                name,
                manifest
            );
            let start = format!("{} {{", name);
            assert_eq!(
                extract_version_from_block(manifest, &start),
                block_version_by_std(manifest, &start),
                "block {:?} in {:?}",
                start,
                manifest
            );
        }
        assert_eq!(
            extract_version_from_block(manifest, ""),
            block_version_by_std(manifest, ""),
            "any block in {:?}",
            manifest
        );
    }
}
