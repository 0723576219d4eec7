use kondo_ui::paths::{is_under_home, path_absolute, path_userlocal};

const HOME: &str = "/home/user";

#[test]
fn path_below_home_is_shown_with_tilde() {
    assert_eq!(path_userlocal("/home/user/code/app".to_string(), HOME), "~/code/app");
}

#[test]
fn home_itself_is_shown_as_tilde() {
    assert_eq!(path_userlocal("/home/user".to_string(), HOME), "~");
}

#[test]
fn path_elsewhere_is_shown_as_it_is() {
    assert_eq!(path_userlocal("/opt/build/app".to_string(), HOME), "/opt/build/app");
    assert_eq!(path_userlocal("".to_string(), HOME), "");
    assert_eq!(path_userlocal("/home".to_string(), HOME), "/home");
}

#[test]
fn home_inside_a_path_is_not_replaced() {
    assert_eq!(path_userlocal("/mnt/home/user/app".to_string(), HOME), "/mnt/home/user/app");
}

#[test]
fn only_the_leading_home_is_replaced() {
    assert_eq!(
        path_userlocal("/home/user/backup/home/user/app".to_string(), HOME),
        "~/backup/home/user/app"
    );
}

#[test]
fn a_longer_name_that_begins_like_home_is_shown_as_it_is() {
    assert_eq!(path_userlocal("/home/username/app".to_string(), HOME), "/home/username/app");
    assert_eq!(path_userlocal("/home/user2/app".to_string(), "/home/u"), "/home/user2/app");
    assert_eq!(path_userlocal("/home/username".to_string(), HOME), "/home/username");
}

#[test]
fn below_home_means_home_or_home_and_a_slash() {
    assert!(is_under_home("/home/user", HOME));
    assert!(is_under_home("/home/user/", HOME));
    assert!(is_under_home("/home/user/code", HOME));
    assert!(!is_under_home("/home/username", HOME));
    assert!(!is_under_home("/home/use", HOME));
    assert!(!is_under_home("/mnt/home/user", HOME));
    assert!(!is_under_home("", HOME));
    assert!(is_under_home("", ""));
    assert!(is_under_home("/opt", ""));
    assert!(!is_under_home("opt", ""));
}

#[test]
fn a_home_that_ends_in_a_slash_is_only_itself() {
    assert_eq!(path_userlocal("/home/user/".to_string(), "/home/user/"), "~");
    assert_eq!(path_userlocal("/home/user/app".to_string(), "/home/user/"), "/home/user/app");
    assert_eq!(path_userlocal("/home/user//app".to_string(), "/home/user/"), "~/app");
}

#[test]
fn paths_are_compared_by_characters() {
    assert_eq!(path_userlocal("/home/zoë/über/app".to_string(), "/home/zoë"), "~/über/app");
    assert_eq!(path_userlocal("/home/zoe/app".to_string(), "/home/zoë"), "/home/zoe/app");
}

#[test]
fn empty_home_puts_a_tilde_in_front() {
    assert_eq!(path_userlocal("/opt/app".to_string(), ""), "~/opt/app");
}

#[test]
fn tilde_before_a_slash_becomes_home() {
    assert_eq!(path_absolute("~/code/app", HOME), "/home/user/code/app");
}

#[test]
fn tilde_alone_becomes_home() {
    assert_eq!(path_absolute("~", HOME), "/home/user");
}

#[test]
fn path_without_tilde_is_left_alone() {
    assert_eq!(path_absolute("/opt/build/app", HOME), "/opt/build/app");
    assert_eq!(path_absolute("", HOME), "");
    assert_eq!(path_absolute("code/~/app", HOME), "code/~/app");
}

#[test]
fn tilde_before_a_name_is_left_alone() {
    assert_eq!(path_absolute("~other/app", HOME), "~other/app");
}

#[test]
fn shown_path_comes_back() {
    let paths: [&str; 4] =
        ["/home/user", "/home/user/", "/home/user/code/app", "/home/user/a b/ü"];
    for path in paths {
        let shown = path_userlocal(path.to_string(), HOME);
        assert_eq!(path_absolute(&shown, HOME), path);
    }
}

#[test]
fn path_elsewhere_comes_back() {
    let paths: [&str; 3] = ["/opt/app", "/", "/mnt/home/user/app"];
    for path in paths {
        let shown = path_userlocal(path.to_string(), HOME);
        assert_eq!(shown, path);
        assert_eq!(path_absolute(&shown, HOME), path);
    }
}

#[test]
fn a_name_that_begins_like_home_comes_back() {
    let shown = path_userlocal("/home/username/app".to_string(), HOME);
    assert_eq!(path_absolute(&shown, HOME), "/home/username/app");
    let shown = path_userlocal("/home/user2/app".to_string(), "/home/u");
    assert_eq!(path_absolute(&shown, "/home/u"), "/home/user2/app");
}

#[test]
fn every_absolute_path_comes_back_whatever_home_is() {
    let homes: [&str; 5] = ["/home/user", "/home/u", "/", "", "/home/user/"];
    let paths: [&str; 7] =
        ["/", "/home", "/home/u", "/home/user", "/home/user/", "/home/user2/app", "//x"];
    for home in homes {
        for path in paths {
            let shown = path_userlocal(path.to_string(), home);
            assert_eq!(path_absolute(&shown, home), path);
        }
    }
}
