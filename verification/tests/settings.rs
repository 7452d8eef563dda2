use tab_runner::{load_config, save_config};

#[test]
fn a_missing_file_holds_nothing() {
    assert_eq!(load_config(None, "dockerPath"), Ok(String::new()));
}

#[test]
fn a_setting_is_read_from_the_stored_object() {
    let stored = "{\"dockerPath\": \"/usr/bin/docker\", \"count\": 3}";
    assert_eq!(load_config(Some(stored), "dockerPath"), Ok("/usr/bin/docker".to_string()));
    assert_eq!(load_config(Some(stored), "absent"), Ok(String::new()));
    assert_eq!(load_config(Some(stored), "count"), Ok(String::new()));
    assert_eq!(load_config(Some("[\"dockerPath\"]"), "dockerPath"), Ok(String::new()));
    assert_eq!(load_config(Some("\"dockerPath\""), "dockerPath"), Ok(String::new()));
}

#[test]
fn a_file_that_is_no_json_cannot_be_loaded() {
    match load_config(Some("{broken"), "k") {
        Err(why) => assert!(why.starts_with("Failed to parse configuration: ")),
        Ok(_) => panic!("loaded a broken file"),
    }
}

#[test]
fn saving_begins_a_new_file() {
    assert_eq!(
        save_config(None, "dockerPath".to_string(), "/x".to_string()),
        Ok("{\n  \"dockerPath\": \"/x\"\n}".to_string())
    );
    assert_eq!(
        save_config(Some("{broken"), "dockerPath".to_string(), "/x".to_string()),
        Ok("{\n  \"dockerPath\": \"/x\"\n}".to_string())
    );
}

#[test]
fn saving_keeps_the_other_settings() {
    let stored = "{\"a\": \"1\", \"b\": \"2\"}";
    let saved = save_config(Some(stored), "b".to_string(), "3".to_string()).unwrap();
    assert_eq!(saved, "{\n  \"a\": \"1\",\n  \"b\": \"3\"\n}");
    assert_eq!(load_config(Some(&saved), "a"), Ok("1".to_string()));
    assert_eq!(load_config(Some(&saved), "b"), Ok("3".to_string()));
    let saved = save_config(Some(&saved), "c".to_string(), "say \"hi\"".to_string()).unwrap();
    assert_eq!(load_config(Some(&saved), "c"), Ok("say \"hi\"".to_string()));
    assert_eq!(load_config(Some(&saved), "a"), Ok("1".to_string()));
}

#[test]
fn saving_leaves_a_file_that_is_no_object_as_it_is() {
    assert_eq!(save_config(Some("[1, 2]"), "k".to_string(), "v".to_string()), Ok("[\n  1,\n  2\n]".to_string()));
    assert_eq!(save_config(Some("7"), "k".to_string(), "v".to_string()), Ok("7".to_string()));
}
