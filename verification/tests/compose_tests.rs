use quibble::compose::ComposeFile;

#[test]
fn mappings() {
    let data = String::from(
        "version: \"3.9\"\n\nservices:\n  web:\n    image: nginx:latest\n    ports:\n      - \"80:80\"\n",
    );

    let mappings = ComposeFile::mappings(&data);

    assert_eq!(mappings.len(), 6);
    assert_eq!(mappings.get("version").unwrap_or(1), 0);
    assert_eq!(mappings.get("services").unwrap_or(1), 2);
    assert_eq!(mappings.get("services.web").unwrap_or(1), 3);
    assert_eq!(mappings.get("services.web.image").unwrap_or(1), 4);
    assert_eq!(mappings.get("services.web.ports").unwrap_or(1), 5);
    assert_eq!(mappings.get("services.web.ports[\"80:80\"]").unwrap_or(1), 6);
}

#[test]
fn mappings2() {
    let data = String::from(
        "version: \"3\"\nnetworks:\n  backend:\n    external: true\nservices:\n  web:\n    image: nginx:latest\n",
    );

    let mappings = ComposeFile::mappings(&data);

    assert_eq!(mappings.len(), 7);
    assert_eq!(mappings.get("version").unwrap_or(1), 0);

    assert_eq!(mappings.get("networks").unwrap_or(0), 1);
    assert_eq!(mappings.get("networks.backend").unwrap_or(0), 2);
    assert_eq!(mappings.get("networks.backend.external").unwrap_or(0), 3);

    assert_eq!(mappings.get("services").unwrap_or(1), 4);
    assert_eq!(mappings.get("services.web").unwrap_or(1), 5);
    assert_eq!(mappings.get("services.web.image").unwrap_or(1), 6);
}

#[test]
fn mappings_round_trip() {
    // Every key path of the structural model has an entry whose line,
    // 1-indexed, points at the text holding that key, including the
    // bracketed sequence-item form.
    let data = String::from(
        "version: \"3.9\"\n\nservices:\n  web:\n    image: nginx:latest\n    ports:\n      - \"80:80\"\n",
    );
    let lines: Vec<&str> = data.split('\n').collect();
    let mappings = ComposeFile::mappings(&data);

    for (key, text) in [
        ("version", "version"),
        ("services", "services"),
        ("services.web", "web"),
        ("services.web.image", "image"),
        ("services.web.ports", "ports"),
        ("services.web.ports[\"80:80\"]", "- \"80:80\""),
    ] {
        let line = mappings.get(key).expect(key) as usize;
        assert!(lines[line].contains(text), "{key} points at {line}");
    }
}

#[test]
fn mappings_skips_comments_and_duplicates() {
    let data = String::from("# header\nservices:\n  db:\n    image: postgres\n");
    let mappings = ComposeFile::mappings(&data);
    assert_eq!(mappings.get("services"), Some(1));
    assert_eq!(mappings.get("services.db"), Some(2));
    assert_eq!(mappings.get("services.db.image"), Some(3));
    assert_eq!(mappings.get("# header"), None);

    // A repeated key keeps one entry, at its later line.
    let dup = String::from("a: 1\na: 2\n");
    let m2 = ComposeFile::mappings(&dup);
    assert_eq!(m2.len(), 1);
    assert_eq!(m2.get("a"), Some(1));
}
