use pydev_core::config::Config;
use pydev_core::pathenv::PathStatus;
use pydev_core::status::{
    detect, detect_extensions, detect_python, detect_uv, detect_vscode, ext_query_ids,
    installed_pythons, marketplace_entries, uv_latest, vscode_latest, Probe,
};

fn strings(v: &[&str]) -> Vec<String> {
    v.iter().map(|x| x.to_string()).collect()
}

fn empty_probe() -> Probe {
    Probe {
        uv_path: None,
        uv_exists: false,
        uv_version_output: None,
        uv_latest_body: None,
        python_listing: None,
        code_path: None,
        code_version_output: None,
        vscode_latest_body: None,
        extensions_listing: None,
        marketplace_body: None,
        path: None,
    }
}

#[test]
fn installed_python_versions_newest_first() {
    let out = "cpython-3.12.8-linux-x86_64-gnu  /p\ncpython-3.13.1-linux-x86_64-gnu  /p\n\
               cpython-3.12.8-linux-x86_64-gnu  /q\npypy-3.10.1-linux  /r\ncpython-abc-x /s\n\
               cpython-3.9.0-x /t\n";
    assert_eq!(installed_pythons(out), strings(&["3.13.1", "3.12.8", "3.9.0"]));
}

#[test]
fn python_request_satisfaction() {
    let mut c = Config::default();
    let listing = Some("cpython-3.12.8-linux\n".to_string());
    let st = detect_python(&c, &listing);
    assert_eq!(st.requested, "latest");
    assert!(st.satisfied);
    c.python.version = " 3.12 ".to_string();
    let st = detect_python(&c, &listing);
    assert_eq!(st.requested, "3.12");
    assert!(st.satisfied);
    c.python.version = "3.1".to_string();
    assert!(!detect_python(&c, &listing).satisfied);
    c.python.version = "".to_string();
    let none = detect_python(&c, &None);
    assert_eq!(none.requested, "latest");
    assert!(!none.satisfied);
    assert!(none.installed_versions.is_empty());
}

#[test]
fn latest_lookups_read_json() {
    assert_eq!(uv_latest(r#"{"tag_name": "v0.9.2", "x": 1}"#), Some("0.9.2".to_string()));
    assert_eq!(uv_latest(r#"{"tag_name": 5}"#), None);
    assert_eq!(uv_latest("not json"), None);
    assert_eq!(vscode_latest(r#"{"productVersion": "1.96.2", "name": "1.96"}"#), Some("1.96.2".to_string()));
    assert_eq!(vscode_latest(r#"{"name": "1.95.0"}"#), Some("1.95.0".to_string()));
    assert_eq!(vscode_latest(r#"{"productVersion": null, "name": "1.95.0"}"#), None);
}

#[test]
fn uv_tool_status() {
    let mut p = empty_probe();
    p.uv_path = Some("/h/.local/bin/uv".to_string());
    p.uv_exists = true;
    p.uv_version_output = Some("uv 0.9.2 (abc 2025-01-01)\n".to_string());
    p.uv_latest_body = Some(r#"{"tag_name":"0.9.10"}"#.to_string());
    let t = detect_uv(&p, true);
    assert!(t.installed);
    assert_eq!(t.location, Some("/h/.local/bin/uv".to_string()));
    assert_eq!(t.current, Some("0.9.2".to_string()));
    assert_eq!(t.latest, Some("0.9.10".to_string()));
    assert!(t.upgrade_available);
    let quiet = detect_uv(&p, false);
    assert_eq!(quiet.latest, None);
    assert!(!quiet.upgrade_available);
    p.uv_exists = false;
    let missing = detect_uv(&p, false);
    assert!(!missing.installed);
    assert_eq!(missing.location, None);
    assert_eq!(missing.current, None);
}

#[test]
fn vscode_tool_status() {
    let mut p = empty_probe();
    p.code_path = Some("/h/.local/bin/code".to_string());
    p.code_version_output = Some(" 1.95.3 \nabcdef\nx64\n".to_string());
    p.vscode_latest_body = Some(r#"{"productVersion":"1.96.0"}"#.to_string());
    let t = detect_vscode(&p, true);
    assert!(t.installed);
    assert_eq!(t.current, Some("1.95.3".to_string()));
    assert_eq!(t.latest, Some("1.96.0".to_string()));
    assert!(t.upgrade_available);
    let none = detect_vscode(&empty_probe(), true);
    assert!(!none.installed);
    assert_eq!(none.latest, None);
}

#[test]
fn extension_status() {
    let mut c = Config::default();
    c.language = "en".to_string();
    c.vscode.extensions = strings(&["ms-python.python", "Charliermarsh.Ruff", "ms-toolsai.jupyter"]);
    let listing = Some("MS-Python.Python@2024.1.0\n\n charliermarsh.ruff@2024.30.0 \nother.ext\n".to_string());
    assert_eq!(ext_query_ids(&c, &listing), strings(&["ms-python.python", "Charliermarsh.Ruff"]));
    let body = Some(
        r#"{"results":[{"extensions":[
            {"publisher":{"publisherName":"ms-python"},"extensionName":"python","versions":[{"version":"2024.2.0"}]},
            {"publisher":{"publisherName":"charliermarsh"},"extensionName":"ruff","versions":[{"version":"2024.30.0"}]},
            {"extensionName":"broken"}
        ]}]}"#
            .to_string(),
    );
    let exts = detect_extensions(&c, &listing, true, &body);
    assert_eq!(exts.len(), 3);
    assert_eq!(exts[0].id, "ms-python.python");
    assert!(exts[0].installed);
    assert_eq!(exts[0].version, Some("2024.1.0".to_string()));
    assert_eq!(exts[0].latest, Some("2024.2.0".to_string()));
    assert!(exts[0].upgrade_available);
    assert!(exts[1].installed);
    assert!(!exts[1].upgrade_available);
    assert!(!exts[2].installed);
    assert_eq!(exts[2].latest, None);
    let quiet = detect_extensions(&c, &listing, false, &body);
    assert_eq!(quiet[0].latest, None);
    assert_eq!(marketplace_entries(body.as_ref().unwrap()).len(), 2);
    assert_eq!(marketplace_entries("{}").len(), 0);
}

#[test]
fn whole_status() {
    let mut c = Config::default();
    c.language = "en".to_string();
    let mut p = empty_probe();
    p.path = Some(PathStatus { configured: true, pending_targets: Vec::new() });
    let st = detect(&c, false, &p);
    assert!(!st.uv.installed);
    assert!(!st.python.satisfied);
    assert!(!st.vscode.installed);
    assert_eq!(st.extensions.len(), c.vscode.extensions.len());
    assert!(st.path.configured);
    let unknown = detect(&c, false, &empty_probe());
    assert!(!unknown.path.configured);
    assert!(unknown.path.pending_targets.is_empty());
}

fn criterion(filter_type: u64, value: &str) -> serde_json::Value {
    let mut m = serde_json::Map::new();
    m.insert("filterType".to_string(), serde_json::Value::from(filter_type));
    m.insert("value".to_string(), serde_json::Value::from(value));
    serde_json::Value::Object(m)
}

#[test]
fn marketplace_query_body() {
    let ids = strings(&["ms-python.python", "we\"ird\\id\n\u{1}"]);
    let body = pydev_core::status::marketplace_query(&ids);
    let mut criteria = vec![criterion(8, "Microsoft.VisualStudio.Code")];
    for id in &ids {
        criteria.push(criterion(7, id));
    }
    let mut filter = serde_json::Map::new();
    filter.insert("criteria".to_string(), serde_json::Value::Array(criteria));
    filter.insert("pageNumber".to_string(), serde_json::Value::from(1u64));
    filter.insert("pageSize".to_string(), serde_json::Value::from(ids.len() as u64));
    let mut top = serde_json::Map::new();
    top.insert("filters".to_string(), serde_json::Value::Array(vec![serde_json::Value::Object(filter)]));
    top.insert("flags".to_string(), serde_json::Value::from(914u64));
    let want = serde_json::Value::Object(top);
    assert_eq!(serde_json::from_str::<serde_json::Value>(&body).unwrap(), want);
    assert_eq!(body, serde_json::to_string(&want).unwrap());
    assert_eq!(
        pydev_core::status::marketplace_query(&Vec::new()),
        "{\"filters\":[{\"criteria\":[{\"filterType\":8,\"value\":\"Microsoft.VisualStudio.Code\"}],\"pageNumber\":1,\"pageSize\":0}],\"flags\":914}"
    );
}
