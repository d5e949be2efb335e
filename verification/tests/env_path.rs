use xerve::env_path::{
    absolute_path_from, absolute_path_with, extended_path, get_absolute_path, get_permanent_path_command,
    path_list_contains, permanent_path_script, strip_verbatim_prefix,
};

#[test]
fn test_get_absolute_path() {
    let result = get_absolute_path("./src");
    assert!(result.is_ok());
    assert!(!result.unwrap().starts_with(r"\\?\"));
}

#[test]
fn absolute_path_of_a_missing_path_is_an_error() {
    let result = get_absolute_path("./no/such/place/anywhere");
    assert_eq!(result, Err("Path ./no/such/place/anywhere does not exist".to_string()));
}

#[test]
fn absolute_path_is_absolute() {
    let path = get_absolute_path(".").unwrap();
    assert!(std::path::Path::new(&path).is_absolute());
    assert!(!path.ends_with("/."));
}

#[test]
fn verbatim_prefix_is_removed_once() {
    assert_eq!(strip_verbatim_prefix(r"\\?\C:\xerve\resource"), r"C:\xerve\resource");
    assert_eq!(strip_verbatim_prefix(r"\\?\\\?\C:\x"), r"\\?\C:\x");
    assert_eq!(strip_verbatim_prefix(r"\\?\"), "");
}

#[test]
fn other_paths_are_left_alone() {
    assert_eq!(strip_verbatim_prefix("/usr/local/bin"), "/usr/local/bin");
    assert_eq!(strip_verbatim_prefix(r"C:\\?\x"), r"C:\\?\x");
    assert_eq!(strip_verbatim_prefix(r"\\?"), r"\\?");
    assert_eq!(strip_verbatim_prefix(""), "");
    assert_eq!(strip_verbatim_prefix(r"\\server\share"), r"\\server\share");
}

#[test]
fn resolved_paths_become_results() {
    assert_eq!(
        absolute_path_from(Ok(Some(r"\\?\D:\php".to_string()))),
        Ok(r"D:\php".to_string())
    );
    assert_eq!(absolute_path_from(Ok(Some("/opt/php".to_string()))), Ok("/opt/php".to_string()));
    assert_eq!(
        absolute_path_from(Ok(None)),
        Err("Failed to convert path to string".to_string())
    );
    assert_eq!(
        absolute_path_from(Err("permission denied".to_string())),
        Err("Failed to get absolute path: permission denied".to_string())
    );
}

#[test]
fn permanent_path_command_spells_the_directory_twice() {
    assert_eq!(
        get_permanent_path_command(r"C:\php"),
        "powershell -NoProfile -ExecutionPolicy Bypass -Command \"if (([Environment]::GetEnvironmentVariable('PATH', 'User') -split ';') -notcontains 'C:\\php') { $newPath = [Environment]::GetEnvironmentVariable('PATH', 'User') + ';C:\\php'; [Environment]::SetEnvironmentVariable('PATH', $newPath, 'User') }\""
    );
}

#[test]
fn permanent_path_script_is_the_command_without_its_shell() {
    let script = permanent_path_script("D:\\tools");
    assert_eq!(
        script,
        "if (([Environment]::GetEnvironmentVariable('PATH', 'User') -split ';') -notcontains 'D:\\tools') { $newPath = [Environment]::GetEnvironmentVariable('PATH', 'User') + ';D:\\tools'; [Environment]::SetEnvironmentVariable('PATH', $newPath, 'User') }"
    );
    assert_eq!(
        get_permanent_path_command("D:\\tools"),
        format!("powershell -NoProfile -ExecutionPolicy Bypass -Command \"{}\"", script)
    );
}

#[test]
fn a_directory_is_found_as_a_whole_entry() {
    let list = r"C:\WINDOWS\system32;C:\WINDOWS;C:\php";
    assert!(path_list_contains(list, r"C:\WINDOWS\system32"));
    assert!(path_list_contains(list, r"C:\WINDOWS"));
    assert!(path_list_contains(list, r"C:\php"));
    assert!(path_list_contains(r"C:\php", r"C:\php"));
}

#[test]
fn a_part_of_an_entry_is_not_an_entry() {
    let list = r"C:\WINDOWS\system32;C:\WINDOWS;C:\php";
    assert!(!path_list_contains(list, r"C:\WINDOWS\system"));
    assert!(!path_list_contains(list, r"WINDOWS"));
    assert!(!path_list_contains(list, r"C:\ph"));
    assert!(!path_list_contains(list, r"C:\WINDOWS;C:\php"));
    assert!(!path_list_contains(list, ";"));
    assert!(!path_list_contains(list, r"c:\php"));
}

#[test]
fn empty_entries_are_entries() {
    assert!(path_list_contains("", ""));
    assert!(path_list_contains("a;;b", ""));
    assert!(path_list_contains("a;", ""));
    assert!(path_list_contains(";a", ""));
    assert!(!path_list_contains("a;b", ""));
    assert!(!path_list_contains("", "a"));
}

#[test]
fn entries_beyond_ascii_are_compared_by_character() {
    let list = "C:\\données;C:\\straße";
    assert!(path_list_contains(list, "C:\\straße"));
    assert!(path_list_contains(list, "C:\\données"));
    assert!(!path_list_contains(list, "C:\\strasse"));
}

#[test]
fn a_search_path_is_extended_at_its_end() {
    assert_eq!(extended_path("", r"C:\php"), r"C:\php");
    assert_eq!(extended_path(r"C:\WINDOWS", r"C:\php"), r"C:\WINDOWS;C:\php");
    assert_eq!(extended_path("a;b", "c"), "a;b;c");
    assert!(path_list_contains(&extended_path("a;b", "c"), "c"));
}

#[test]
fn a_path_where_nothing_exists_is_an_error_whatever_resolving_gave() {
    let missing = Err("Path ./gone does not exist".to_string());
    assert_eq!(absolute_path_with("./gone", false, Ok(Some("/tmp/gone".to_string()))), missing);
    assert_eq!(absolute_path_with("./gone", false, Ok(None)), missing);
    assert_eq!(absolute_path_with("./gone", false, Err("not found".to_string())), missing);
}

#[test]
fn a_path_that_exists_gives_what_resolving_gave() {
    assert_eq!(
        absolute_path_with("./php", true, Ok(Some(r"\\?\C:\php".to_string()))),
        Ok(r"C:\php".to_string())
    );
    assert_eq!(
        absolute_path_with("./php", true, Ok(Some("/opt/php".to_string()))),
        Ok("/opt/php".to_string())
    );
    assert_eq!(
        absolute_path_with("./php", true, Ok(None)),
        Err("Failed to convert path to string".to_string())
    );
    assert_eq!(
        absolute_path_with("./php", true, Err("loop in links".to_string())),
        Err("Failed to get absolute path: loop in links".to_string())
    );
}
