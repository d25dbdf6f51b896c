use rusty_shell::environment::{search_bin, search_dirs, PATH_SEPARATOR};

#[test]
fn separator_is_a_colon() {
    assert_eq!(PATH_SEPARATOR, ':');
}

#[test]
fn search_dirs_splits_on_colons() {
    assert_eq!(search_dirs("/bin:/usr/bin"), vec!["/bin", "/usr/bin"]);
    assert_eq!(search_dirs("/bin"), vec!["/bin"]);
    assert_eq!(search_dirs(""), vec![""]);
    assert_eq!(search_dirs(":/bin::/x:"), vec!["", "/bin", "", "/x", ""]);
}

#[test]
fn search_dirs_agrees_with_split() {
    for paths in ["", ":", "a", "a:b", "a::b", ":a:", "/usr/local/bin:/usr/bin:/bin", "é:ü"] {
        let expected: Vec<String> = paths.split(':').map(String::from).collect();
        assert_eq!(search_dirs(paths), expected);
    }
}

#[test]
fn search_bin_takes_the_first_hit() {
    let probes = vec![None, Some("/usr/bin/ls".to_string()), Some("/bin/ls".to_string())];
    assert_eq!(search_bin(&probes), Some("/usr/bin/ls".to_string()));
}

#[test]
fn search_bin_finds_nothing_where_nothing_is() {
    assert_eq!(search_bin(&vec![None, None]), None);
    assert_eq!(search_bin(&vec![]), None);
}

#[test]
fn joining_the_directories_gives_the_path_back() {
    for paths in ["", ":", "a", "a:b", "a::b", ":a:", "/usr/local/bin:/usr/bin:/bin"] {
        let dirs = search_dirs(paths);
        assert_eq!(dirs.join(":"), paths);
        assert!(dirs.iter().all(|dir| !dir.contains(':')));
    }
}
