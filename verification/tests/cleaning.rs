use kondo_ui::clean::{CleanAction, CleanEvent, CleanRun};

/// Directories below a project's root: those that are there, and those that
/// cannot be deleted.
struct Disk {
    present: Vec<String>,
    stuck: Vec<String>,
    removed: Vec<String>,
    probed: Vec<String>,
}

impl Disk {
    fn new(present: &[&str], stuck: &[&str]) -> Disk {
        Disk {
            present: present.iter().map(|s| s.to_string()).collect(),
            stuck: stuck.iter().map(|s| s.to_string()).collect(),
            removed: Vec::new(),
            probed: Vec::new(),
        }
    }

    fn run(&mut self, root: &str, dirs: &[&str]) -> Result<(), String> {
        let mut run = CleanRun::new(root.to_string(), dirs.iter().map(|s| s.to_string()).collect());
        assert_eq!(run.root(), root);
        loop {
            match run.action() {
                CleanAction::Probe(name) => {
                    assert_eq!(run.result(), None);
                    self.probed.push(name.clone());
                    run.advance(CleanEvent::Exists(self.present.contains(&name)));
                },
                CleanAction::Remove(name) => {
                    assert_eq!(run.result(), None);
                    if self.stuck.contains(&name) {
                        run.advance(CleanEvent::Removed(Err(format!("{}: permission denied", name))));
                    } else {
                        self.present.retain(|p| *p != name);
                        self.removed.push(name);
                        run.advance(CleanEvent::Removed(Ok(())));
                    }
                },
                CleanAction::Finish(result) => {
                    assert_eq!(run.result(), Some(result.clone()));
                    return result;
                },
            }
        }
    }
}

fn names(list: &[&str]) -> Vec<String> {
    list.iter().map(|s| s.to_string()).collect()
}

#[test]
fn every_directory_that_is_there_is_deleted_in_order() {
    let mut disk = Disk::new(&["Library", "Temp", "Build", "Assets"], &[]);
    let result = disk.run("/home/user/game", &["Library", "Temp", "Obj", "Logs", "Build"]);
    assert_eq!(result, Ok(()));
    assert_eq!(disk.probed, names(&["Library", "Temp", "Obj", "Logs", "Build"]));
    assert_eq!(disk.removed, names(&["Library", "Temp", "Build"]));
    assert_eq!(disk.present, names(&["Assets"]));
}

#[test]
fn a_directory_that_is_not_there_is_passed_over() {
    let mut disk = Disk::new(&["src"], &[]);
    assert_eq!(disk.run("/srv/app", &["target"]), Ok(()));
    assert!(disk.removed.is_empty());
    assert_eq!(disk.present, names(&["src"]));
}

#[test]
fn cleaning_twice_deletes_nothing_the_second_time() {
    let mut disk = Disk::new(&["target", ".xwin-cache", "src"], &[]);
    assert_eq!(disk.run("/srv/app", &["target", ".xwin-cache"]), Ok(()));
    assert_eq!(disk.removed, names(&["target", ".xwin-cache"]));
    disk.removed.clear();
    assert_eq!(disk.run("/srv/app", &["target", ".xwin-cache"]), Ok(()));
    assert!(disk.removed.is_empty());
    assert_eq!(disk.present, names(&["src"]));
}

#[test]
fn the_first_failure_ends_the_run() {
    let mut disk = Disk::new(&["Binaries", "Build", "Saved", "Intermediate"], &["Saved"]);
    let result =
        disk.run("/srv/game", &["Binaries", "Build", "Saved", "DerivedDataCache", "Intermediate"]);
    assert_eq!(result, Err("Saved: permission denied".to_string()));
    assert_eq!(disk.removed, names(&["Binaries", "Build"]));
    assert_eq!(disk.probed, names(&["Binaries", "Build", "Saved"]));
    assert_eq!(disk.present, names(&["Saved", "Intermediate"]));
}

#[test]
fn a_failure_on_the_first_directory_deletes_nothing() {
    let mut disk = Disk::new(&["target", "project/target"], &["target"]);
    let result = disk.run("/srv/scala", &["target", "project/target"]);
    assert_eq!(result, Err("target: permission denied".to_string()));
    assert!(disk.removed.is_empty());
    assert_eq!(disk.present, names(&["target", "project/target"]));
}

#[test]
fn a_stuck_directory_that_is_not_there_does_no_harm() {
    let mut disk = Disk::new(&["build"], &[".gradle"]);
    assert_eq!(disk.run("/srv/app", &["build", ".gradle"]), Ok(()));
    assert_eq!(disk.removed, names(&["build"]));
}

#[test]
fn a_run_over_no_directory_has_ended() {
    let run = CleanRun::new("/srv/app".to_string(), Vec::new());
    assert_eq!(run.action(), CleanAction::Finish(Ok(())));
    assert_eq!(run.result(), Some(Ok(())));
}

#[test]
fn the_steps_of_a_run() {
    let mut run = CleanRun::new("/srv/app".to_string(), names(&["target", "dist"]));
    assert_eq!(run.action(), CleanAction::Probe("target".to_string()));
    run.advance(CleanEvent::Exists(true));
    assert_eq!(run.action(), CleanAction::Remove("target".to_string()));
    run.advance(CleanEvent::Removed(Ok(())));
    assert_eq!(run.action(), CleanAction::Probe("dist".to_string()));
    run.advance(CleanEvent::Exists(false));
    assert_eq!(run.action(), CleanAction::Finish(Ok(())));
    assert_eq!(run.result(), Some(Ok(())));
}

#[test]
fn an_answer_that_was_not_asked_for_changes_nothing() {
    let mut run = CleanRun::new("/srv/app".to_string(), names(&["target"]));
    run.advance(CleanEvent::Removed(Ok(())));
    assert_eq!(run.action(), CleanAction::Probe("target".to_string()));
    run.advance(CleanEvent::Removed(Err("no".to_string())));
    assert_eq!(run.action(), CleanAction::Probe("target".to_string()));
    run.advance(CleanEvent::Exists(true));
    run.advance(CleanEvent::Exists(false));
    run.advance(CleanEvent::Exists(true));
    assert_eq!(run.action(), CleanAction::Remove("target".to_string()));
    run.advance(CleanEvent::Removed(Err("disk is read-only".to_string())));
    assert_eq!(run.action(), CleanAction::Finish(Err("disk is read-only".to_string())));
    run.advance(CleanEvent::Exists(true));
    run.advance(CleanEvent::Removed(Ok(())));
    assert_eq!(run.result(), Some(Err("disk is read-only".to_string())));
}

#[test]
fn a_name_given_twice_is_deleted_once() {
    let mut disk = Disk::new(&["target"], &[]);
    assert_eq!(disk.run("/srv/app", &["target", "target"]), Ok(()));
    assert_eq!(disk.removed, names(&["target"]));
    assert_eq!(disk.probed, names(&["target", "target"]));
}
