use kondo_ui::kind::{ProjectType, SerializableProjectType};
use kondo_ui::project::{Project, SerializableProject, SerializableProjectSize};
use kondo_ui::size::ProjectSize;

const HOME: &str = "/home/user";

fn sizes() -> ProjectSize {
    ProjectSize {
        artifact_size: 2048,
        non_artifact_size: 10,
        dirs: vec![("target".to_string(), 2048, true), ("src".to_string(), 10, false)],
    }
}

fn project(kind: ProjectType, path: &str) -> Project {
    Project { project_type: kind, path: path.to_string() }
}

#[test]
fn a_project_is_handed_out_with_kind_shown_path_and_sizes() {
    let wire = SerializableProject::from(project(ProjectType::Cargo, "/home/user/code/app"), sizes(), HOME);
    assert_eq!(wire.project_type, SerializableProjectType::Cargo);
    assert_eq!(wire.path, "~/code/app");
    assert_eq!(wire.size, SerializableProjectSize::from(sizes()));
    assert_eq!(wire.size.artifact_size_pretty, "2.0KiB");
}

#[test]
fn a_project_elsewhere_keeps_its_path() {
    let wire = SerializableProject::from(project(ProjectType::Unreal, "/srv/game"), sizes(), HOME);
    assert_eq!(wire.project_type, SerializableProjectType::Unreal);
    assert_eq!(wire.path, "/srv/game");
}

#[test]
fn a_borrowed_project_is_handed_out_alike() {
    let p = project(ProjectType::Node, "/home/user/web");
    let s = sizes();
    assert_eq!(SerializableProject::of(&p, &s, HOME), SerializableProject::from(p.clone(), s.clone(), HOME));
}

#[test]
fn a_handed_out_project_is_taken_back() {
    let wire = SerializableProject {
        project_type: SerializableProjectType::Maven,
        path: "~/java/app".to_string(),
        size: SerializableProjectSize::from(sizes()),
    };
    assert_eq!(Project::from(wire, HOME), project(ProjectType::Maven, "/home/user/java/app"));
}

#[test]
fn a_project_with_an_absolute_path_is_taken_back_unchanged() {
    let wire = SerializableProject {
        project_type: SerializableProjectType::SBT,
        path: "/srv/scala".to_string(),
        size: SerializableProjectSize::from(sizes()),
    };
    assert_eq!(Project::from(wire, HOME), project(ProjectType::SBT, "/srv/scala"));
}

#[test]
fn a_project_below_home_comes_back() {
    let kinds: [ProjectType; 3] = [ProjectType::Cargo, ProjectType::Unity, ProjectType::Stack];
    let paths: [&str; 3] = ["/home/user", "/home/user/a", "/home/user/a/b c/d"];
    for kind in kinds {
        for path in paths {
            let before = project(kind, path);
            let wire = SerializableProject::from(before.clone(), sizes(), HOME);
            assert_eq!(Project::from(wire, HOME), before);
        }
    }
}

#[test]
fn a_project_elsewhere_comes_back() {
    let before = project(ProjectType::Node, "/srv/web");
    let wire = SerializableProject::from(before.clone(), sizes(), HOME);
    assert_eq!(Project::from(wire, HOME), before);
}

#[test]
fn a_project_beside_home_comes_back() {
    let before = project(ProjectType::Cargo, "/home/user2/app");
    let wire = SerializableProject::from(before.clone(), sizes(), "/home/u");
    assert_eq!(wire.path, "/home/user2/app");
    assert_eq!(Project::from(wire, "/home/u"), before);
}
