use kondo_ui::kind::{ProjectType, SerializableProjectType};

#[test]
fn each_scanned_kind_is_handed_out_under_its_name() {
    assert_eq!(SerializableProjectType::from(ProjectType::Cargo), SerializableProjectType::Cargo);
    assert_eq!(SerializableProjectType::from(ProjectType::Node), SerializableProjectType::Node);
    assert_eq!(SerializableProjectType::from(ProjectType::Unity), SerializableProjectType::Unity);
    assert_eq!(SerializableProjectType::from(ProjectType::Stack), SerializableProjectType::Stack);
    assert_eq!(SerializableProjectType::from(ProjectType::SBT), SerializableProjectType::SBT);
    assert_eq!(SerializableProjectType::from(ProjectType::Maven), SerializableProjectType::Maven);
    assert_eq!(SerializableProjectType::from(ProjectType::Unreal), SerializableProjectType::Unreal);
}

#[test]
fn each_handed_out_kind_is_taken_back_under_its_name() {
    assert_eq!(ProjectType::from(SerializableProjectType::Cargo), ProjectType::Cargo);
    assert_eq!(ProjectType::from(SerializableProjectType::Node), ProjectType::Node);
    assert_eq!(ProjectType::from(SerializableProjectType::Unity), ProjectType::Unity);
    assert_eq!(ProjectType::from(SerializableProjectType::Stack), ProjectType::Stack);
    assert_eq!(ProjectType::from(SerializableProjectType::SBT), ProjectType::SBT);
    assert_eq!(ProjectType::from(SerializableProjectType::Maven), ProjectType::Maven);
    assert_eq!(ProjectType::from(SerializableProjectType::Unreal), ProjectType::Unreal);
}

#[test]
fn kinds_come_back() {
    let kinds: [ProjectType; 7] = [
        ProjectType::Cargo,
        ProjectType::Node,
        ProjectType::Unity,
        ProjectType::Stack,
        ProjectType::SBT,
        ProjectType::Maven,
        ProjectType::Unreal,
    ];
    for kind in kinds {
        let wire: SerializableProjectType = kind.into();
        let back: ProjectType = wire.into();
        assert_eq!(back, kind);
    }
}

#[test]
fn kinds_are_found_by_name() {
    assert_eq!(ProjectType::from_name("Cargo"), Some(ProjectType::Cargo));
    assert_eq!(ProjectType::from_name("Node"), Some(ProjectType::Node));
    assert_eq!(ProjectType::from_name("Unity"), Some(ProjectType::Unity));
    assert_eq!(ProjectType::from_name("Stack"), Some(ProjectType::Stack));
    assert_eq!(ProjectType::from_name("SBT"), Some(ProjectType::SBT));
    assert_eq!(ProjectType::from_name("Maven"), Some(ProjectType::Maven));
    assert_eq!(ProjectType::from_name("Unreal"), Some(ProjectType::Unreal));
}

#[test]
fn a_name_of_no_kind_is_not_found() {
    assert_eq!(ProjectType::from_name(""), None);
    assert_eq!(ProjectType::from_name("cargo"), None);
    assert_eq!(ProjectType::from_name("Gradle"), None);
    assert_eq!(ProjectType::from_name("Python"), None);
    assert_eq!(ProjectType::from_name("Cargo "), None);
    assert_eq!(ProjectType::from_name("Sbt"), None);
}

#[test]
fn a_kind_is_found_by_its_own_name() {
    let kinds: [ProjectType; 7] = [
        ProjectType::Cargo,
        ProjectType::Node,
        ProjectType::Unity,
        ProjectType::Stack,
        ProjectType::SBT,
        ProjectType::Maven,
        ProjectType::Unreal,
    ];
    for kind in kinds {
        assert_eq!(ProjectType::from_name(&kind.name()), Some(kind));
    }
    assert_eq!(ProjectType::SBT.name(), "SBT");
    assert_eq!(ProjectType::Unreal.name(), "Unreal");
}

#[test]
fn the_scanner_names_its_kinds_alike() {
    assert_eq!(
        ProjectType::from_name(&format!("{:?}", kondo_lib::ProjectType::Cargo)),
        Some(ProjectType::Cargo)
    );
    assert_eq!(
        ProjectType::from_name(&format!("{:?}", kondo_lib::ProjectType::SBT)),
        Some(ProjectType::SBT)
    );
    assert_eq!(ProjectType::from_name(&format!("{:?}", kondo_lib::ProjectType::Gradle)), None);
}
