use kondo_ui::db::DatabaseBuilder;
use kondo_ui::locations::AppPaths;

#[test]
fn files_lie_below_the_data_and_home_directories() {
    let paths = AppPaths::new("/home/user/.local/share", "/home/user");
    assert_eq!(paths.base_path, "/home/user/.local/share/Kondo");
    assert_eq!(paths.logging_path, "/home/user/.local/share/Kondo/logs");
    assert_eq!(paths.data_folder_path, "/home/user/.local/share/Kondo");
    assert_eq!(paths.data_path, "/home/user/.local/share/Kondo/db.ron");
    assert_eq!(paths.user_config_folder_path, "/home/user/.kondo");
    assert_eq!(paths.user_config_path, "/home/user/.kondo/kondo.json");
}

#[test]
fn directories_are_made_in_order() {
    let paths = AppPaths::new("/data", "/home/user");
    assert_eq!(
        paths.directories(),
        vec![
            "/data/Kondo".to_string(),
            "/data/Kondo/logs".to_string(),
            "/data/Kondo".to_string(),
            "/home/user/.kondo".to_string(),
        ]
    );
}

#[test]
fn the_local_store_is_opened_at_its_usual_place() {
    let paths = AppPaths::new("/data", "/home/user");
    assert_eq!(DatabaseBuilder::new(&paths).path(), "/data/Kondo/db.ron");
}

#[test]
fn the_local_store_can_be_opened_elsewhere() {
    let paths = AppPaths::new("/data", "/home/user");
    let builder = DatabaseBuilder::new(&paths).with_path("/tmp/test.ron".to_string());
    assert_eq!(builder.path(), "/tmp/test.ron");
}
