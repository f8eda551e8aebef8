use prompt_dir::anchor::{determine_anchor, get_git_dir, home_contains};
use prompt_dir::path::{segments_from, AbsPath, Anchor, AnchorError};

fn path(drive: &str, names: &[&str]) -> AbsPath {
    AbsPath {
        drive: drive.to_string(),
        segments: names.iter().map(|s| s.to_string()).collect(),
    }
}

fn strings(names: &[&str]) -> Vec<String> {
    names.iter().map(|s| s.to_string()).collect()
}

#[test]
fn git_dir_none_without_markers() {
    let p = path("", &["a", "b"]);
    assert_eq!(get_git_dir(&p, &vec![false, false, false]), None);
    assert_eq!(get_git_dir(&p, &vec![]), None);
}

#[test]
fn git_dir_takes_nearest_marker() {
    let p = path("", &["a", "b", "c"]);
    assert_eq!(get_git_dir(&p, &vec![false, true, false, true]), Some(3));
    assert_eq!(get_git_dir(&p, &vec![false, true, true, false]), Some(2));
    assert_eq!(get_git_dir(&p, &vec![true, false, false, false]), Some(0));
}

#[test]
fn git_dir_ignores_markers_below() {
    let p = path("", &["a"]);
    assert_eq!(get_git_dir(&p, &vec![false, false, true]), None);
}

#[test]
fn home_contains_itself_and_descendants() {
    let home = path("", &["home", "alice"]);
    assert!(home_contains(&path("", &["home", "alice"]), &home));
    assert!(home_contains(&path("", &["home", "alice", "x"]), &home));
    assert!(!home_contains(&path("", &["home", "alicia"]), &home));
    assert!(!home_contains(&path("", &["home"]), &home));
    assert!(!home_contains(&path("D:", &["home", "alice"]), &path("C:", &["home", "alice"])));
}

#[test]
fn segments_from_copies_the_tail() {
    let s = strings(&["a", "b", "c"]);
    assert_eq!(segments_from(&s, 1), strings(&["b", "c"]));
    assert_eq!(segments_from(&s, 3), strings(&[]));
}

#[test]
fn home_anchor_strips_home() {
    let home = path("", &["home", "alice"]);
    let p = path("", &["home", "alice", "projects", "deep"]);
    match determine_anchor(&p, &home, &vec![false; 5]) {
        Ok(Anchor::Home(rel)) => assert_eq!(rel, strings(&["projects", "deep"])),
        other => panic!("unexpected {:?}", other),
    }
}

#[test]
fn home_anchor_at_home_is_empty() {
    let home = path("", &["home", "alice"]);
    match determine_anchor(&home, &home, &vec![]) {
        Ok(Anchor::Home(rel)) => assert!(rel.is_empty()),
        other => panic!("unexpected {:?}", other),
    }
}

#[test]
fn repository_wins_over_home() {
    let home = path("", &["home", "alice"]);
    let p = path("", &["home", "alice", "code", "myrepo", "src"]);
    let markers = vec![false, false, false, false, true, false];
    match determine_anchor(&p, &home, &markers) {
        Ok(Anchor::Git(name, rel)) => {
            assert_eq!(name, "myrepo");
            assert_eq!(rel, strings(&["src"]));
        }
        other => panic!("unexpected {:?}", other),
    }
}

#[test]
fn repository_at_home_itself() {
    let home = path("", &["home", "alice"]);
    let p = path("", &["home", "alice", "notes"]);
    match determine_anchor(&p, &home, &vec![false, false, true, false]) {
        Ok(Anchor::Git(name, rel)) => {
            assert_eq!(name, "alice");
            assert_eq!(rel, strings(&["notes"]));
        }
        other => panic!("unexpected {:?}", other),
    }
}

#[test]
fn root_anchor_outside_home() {
    let home = path("", &["home", "alice"]);
    let p = path("", &["var", "data"]);
    match determine_anchor(&p, &home, &vec![false, false, false]) {
        Ok(Anchor::Root(drive, rel)) => {
            assert_eq!(drive, "");
            assert_eq!(rel, strings(&["var", "data"]));
        }
        other => panic!("unexpected {:?}", other),
    }
}

#[test]
fn root_anchor_keeps_drive_label() {
    let home = path("C:", &["Users", "alice"]);
    let p = path("D:", &["games"]);
    match determine_anchor(&p, &home, &vec![false, false]) {
        Ok(Anchor::Root(drive, rel)) => {
            assert_eq!(drive, "D:");
            assert_eq!(rel, strings(&["games"]));
        }
        other => panic!("unexpected {:?}", other),
    }
}

#[test]
fn marker_at_root_is_malformed() {
    let home = path("", &["home", "alice"]);
    let p = path("", &["home", "alice"]);
    assert!(matches!(
        determine_anchor(&p, &home, &vec![true, false, false]),
        Err(AnchorError::MalformedPath)
    ));
}
