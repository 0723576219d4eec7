use kondo_ui::kind::{ProjectType, SerializableProjectType};
use kondo_ui::project::{Project, SerializableProject};
use kondo_ui::scan::{read, scan_many, ReadResponse, RootScan};
use kondo_ui::size::ProjectSize;

const HOME: &str = "/home/user";

fn found(kind: ProjectType, path: &str, artifact: u64) -> (Project, ProjectSize) {
    (
        Project { project_type: kind, path: path.to_string() },
        ProjectSize {
            artifact_size: artifact,
            non_artifact_size: 1,
            dirs: vec![("target".to_string(), artifact, true)],
        },
    )
}

fn wire(f: &(Project, ProjectSize)) -> SerializableProject {
    SerializableProject::of(&f.0, &f.1, HOME)
}

fn root(path: &str, found: Vec<(Project, ProjectSize)>) -> RootScan {
    RootScan { root: path.to_string(), found }
}

#[test]
fn projects_come_root_after_root() {
    let first = found(ProjectType::Cargo, "/home/user/a/one", 10);
    let second = found(ProjectType::Node, "/home/user/a/two", 20);
    let third = found(ProjectType::Maven, "/srv/b/three", 30);
    let scans = vec![
        root("/home/user/a", vec![first.clone(), second.clone()]),
        root("/srv/b", vec![third.clone()]),
    ];
    let response = read(Some(scans), HOME).unwrap();
    assert_eq!(response.projects, vec![wire(&first), wire(&second), wire(&third)]);
    assert_eq!(response.search_paths, vec!["~/a".to_string(), "/srv/b".to_string()]);
    assert_eq!(response.projects[0].path, "~/a/one");
    assert_eq!(response.projects[1].project_type, SerializableProjectType::Node);
    assert_eq!(response.projects[2].path, "/srv/b/three");
    assert_eq!(response.projects[2].size.artifact_size, 30);
}

#[test]
fn projects_are_not_sorted() {
    let z = found(ProjectType::Cargo, "/srv/z", 1);
    let a = found(ProjectType::Cargo, "/srv/a", 2);
    let m = found(ProjectType::Cargo, "/srv/m", 3);
    let projects = scan_many(vec![root("/srv", vec![z.clone(), a.clone(), m.clone()])], HOME);
    assert_eq!(projects, vec![wire(&z), wire(&a), wire(&m)]);
}

#[test]
fn a_root_without_projects_is_still_named() {
    let p = found(ProjectType::Unity, "/srv/game", 5);
    let scans = vec![
        root("/home/user/empty", Vec::new()),
        root("/srv", vec![p.clone()]),
        root("/home/user/also-empty", Vec::new()),
    ];
    let response = read(Some(scans), HOME).unwrap();
    assert_eq!(response.projects, vec![wire(&p)]);
    assert_eq!(
        response.search_paths,
        vec!["~/empty".to_string(), "/srv".to_string(), "~/also-empty".to_string()]
    );
}

#[test]
fn a_search_that_finds_nothing_has_an_answer() {
    let response = read(Some(vec![root("/home/user/code", Vec::new())]), HOME).unwrap();
    assert_eq!(
        response,
        ReadResponse { projects: Vec::new(), search_paths: vec!["~/code".to_string()] }
    );
}

#[test]
fn a_project_below_two_roots_stands_twice() {
    let p = found(ProjectType::Cargo, "/home/user/code/app", 9);
    let scans = vec![
        root("/home/user", vec![p.clone()]),
        root("/home/user/code", vec![p.clone()]),
    ];
    let response = read(Some(scans), HOME).unwrap();
    assert_eq!(response.projects, vec![wire(&p), wire(&p)]);
    assert_eq!(response.search_paths, vec!["~".to_string(), "~/code".to_string()]);
}

#[test]
fn choosing_nothing_is_told_apart_from_finding_nothing() {
    assert_eq!(read(None, HOME), Err("Pick aborted".to_string()));
}

#[test]
fn choosing_no_root_is_an_aborted_choice() {
    assert_eq!(read(Some(Vec::new()), HOME), Err("Pick aborted".to_string()));
}

#[test]
fn no_root_gives_no_project() {
    assert!(scan_many(Vec::new(), HOME).is_empty());
}

#[test]
fn a_root_beside_home_is_named_as_it_is() {
    let response = read(Some(vec![root("/home/username/code", Vec::new())]), HOME).unwrap();
    assert_eq!(response.search_paths, vec!["/home/username/code".to_string()]);
}
