use orderly::actions::{copy_file, delete_file, get_file_name, move_file, sort_file_by_date};
use orderly::config::{create_example_rule, Action, Condition, Folder, FolderRule, Rule};
use orderly::effects::{Reply, Request, Step};
use orderly::engine::{handle_conditions, record_match, Scan, Stage, MAX_MOVEMENTS};
use orderly::error::{IoKind, OrderlyError};
use orderly::handlers::{
    execute_action, handle_copy, handle_delete, handle_move, handle_sort_by_date,
};
use orderly::pass::{advance, run_orderly, Pass};
use std::collections::{BTreeMap, BTreeSet};
use vstd::hash_map::StringHashMap;
use vstd::hash_set::StringHashSet;

// The folder in which the files of these tests live.
const TEST_DIR: &str = "/tmp/orderly";

// A file system in memory: regular files with their content and time of
// modification, and directories.
struct Disk {
    files: BTreeMap<String, (String, i64)>,
    dirs: BTreeSet<String>,
    rename_works: bool,
    requests: Vec<Request>,
}

fn parent_of(path: &str) -> String {
    match path.rfind('/') {
        Some(0) => "/".to_string(),
        Some(at) => path[..at].to_string(),
        None => "".to_string(),
    }
}

fn not_found() -> Reply {
    Reply::Failed(IoKind::NotFound, "No such file or directory".to_string())
}

impl Disk {
    fn is_present(&self, path: &str) -> bool {
        self.files.contains_key(path) || self.dirs.contains(path)
    }

    fn is_dir(&self, path: &str) -> bool {
        self.dirs.contains(path)
    }

    fn read_to_string(&self, path: &str) -> String {
        self.files[path].0.clone()
    }

    fn create_dir_all(&mut self, path: &str) -> Reply {
        let mut at = path.to_string();
        let mut missing: Vec<String> = Vec::new();
        while !at.is_empty() && at != "/" && !self.dirs.contains(&at) {
            if self.files.contains_key(&at) {
                return Reply::Failed(IoKind::Other, "Not a directory".to_string());
            }
            missing.push(at.clone());
            at = parent_of(&at);
        }
        for dir in missing {
            self.dirs.insert(dir);
        }
        Reply::Done
    }

    fn write(&mut self, from: &str, to: &str, remove: bool) -> Reply {
        if !self.files.contains_key(from) {
            return not_found();
        }
        if self.dirs.contains(to) {
            return Reply::Failed(IoKind::Other, "Is a directory".to_string());
        }
        if !self.dirs.contains(&parent_of(to)) {
            return not_found();
        }
        let file = self.files[from].clone();
        if remove {
            self.files.remove(from);
        }
        self.files.insert(to.to_string(), file);
        Reply::Done
    }

    fn perform(&mut self, request: &Request) -> Reply {
        self.requests.push(request.clone());
        match request {
            Request::Exists(path) => Reply::Flag(self.is_present(path)),
            Request::IsDir(path) => Reply::Flag(self.is_dir(path)),
            Request::IsFile(path) => Reply::Flag(self.files.contains_key(path)),
            Request::CreateDirAll(path) => self.create_dir_all(path),
            Request::Rename(from, to) => {
                if self.rename_works {
                    self.write(from, to, true)
                } else {
                    Reply::Failed(IoKind::Other, "Invalid cross-device link".to_string())
                }
            }
            Request::Copy(from, to) => self.write(from, to, false),
            Request::RemoveFile(path) | Request::Trash(path) => {
                match self.files.remove(path) {
                    Some(_) => Reply::Done,
                    None => not_found(),
                }
            }
            Request::Modified(path) => match self.files.get(path) {
                Some((_, modified)) => Reply::Modified(*modified, 0),
                None => not_found(),
            },
            Request::ReadDir(path) => Reply::Listing(
                self.files
                    .keys()
                    .chain(self.dirs.iter())
                    .filter(|child| parent_of(child) == *path)
                    .map(|child| Some(child.clone()))
                    .collect(),
            ),
            Request::FormatDate(secs, nanos, pattern) => {
                let local = chrono::DateTime::from_timestamp(*secs, *nanos)
                    .unwrap()
                    .with_timezone(&chrono::Local);
                let mut text = String::new();
                match local.format(pattern).write_to(&mut text) {
                    Ok(_) => Reply::Date(Some(text)),
                    Err(_) => Reply::Date(None),
                }
            }
        }
    }

    // Carries a plan out: performs what it asks for until it ends.
    fn run(&mut self, plan: impl Fn(&Vec<Reply>) -> Step) -> Result<(), OrderlyError> {
        let mut answers: Vec<Reply> = Vec::new();
        loop {
            match plan(&answers) {
                Step::Ask(request) => answers.push(self.perform(&request)),
                Step::Done => return Ok(()),
                Step::Failed(e) => return Err(e),
                Step::Continue => panic!("a plan never asks to come back"),
            }
            assert!(answers.len() <= 16, "a plan ends after a few requests");
        }
    }
}

// Helper function to create a file with content, modified just now
fn create_temp_file(disk: &mut Disk, dir: &str, name: &str, content: &str) -> String {
    let file_path = format!("{}/{}", dir, name);
    let now = chrono::Local::now().timestamp();
    disk.files
        .insert(file_path.clone(), (content.to_string(), now));
    file_path
}

// Helper function to create the folder of a test
fn setup_test_env() -> Disk {
    let mut disk = Disk {
        files: BTreeMap::new(),
        dirs: BTreeSet::new(),
        rename_works: true,
        requests: Vec::new(),
    };
    disk.create_dir_all(TEST_DIR);
    disk
}

fn in_test_dir(name: &str) -> String {
    format!("{}/{}", TEST_DIR, name)
}

// Helper functions to write a rule set down
fn condition(condition_type: &str, value: &str) -> Condition {
    Condition {
        condition_type: condition_type.to_string(),
        value: value.to_string(),
    }
}

fn action(action_type: &str, path: Option<&str>, pattern: Option<&str>) -> Action {
    Action {
        action_type: action_type.to_string(),
        path: path.map(|p| p.to_string()),
        pattern: pattern.map(|p| p.to_string()),
    }
}

fn rule(name: &str, conditions: Vec<Condition>, actions: Vec<Action>) -> FolderRule {
    FolderRule {
        name: name.to_string(),
        conditions,
        actions,
    }
}

fn folder(path: &str, rules: Vec<FolderRule>) -> Folder {
    Folder {
        path: path.to_string(),
        match_type: "all".to_string(),
        rules,
    }
}

fn rule_set(folders: Vec<Folder>) -> Rule {
    Rule {
        name: "Test rules".to_string(),
        description: "".to_string(),
        folders,
    }
}

// Runs one complete pass: performs what the engine asks for until it is done.
fn run_pass(disk: &mut Disk, config: &Rule, home: &str) -> (Pass, Vec<String>) {
    let mut pass = Pass::new();
    let mut log: Vec<String> = Vec::new();
    let mut reply = Reply::Nothing;
    let mut steps = 0;
    loop {
        match run_orderly(config, home, &mut pass, reply, &mut log) {
            Step::Ask(Request::FormatDate(..)) => panic!("dates are rendered by the engine"),
            Step::Ask(request) => reply = disk.perform(&request),
            Step::Continue => reply = Reply::Nothing,
            Step::Done => return (pass, log),
            Step::Failed(e) => panic!("a pass does not fail: {}", e.message()),
        }
        steps += 1;
        assert!(steps < 100_000, "a pass ends");
    }
}

fn renames(disk: &Disk) -> Vec<(String, String)> {
    disk.requests
        .iter()
        .filter_map(|request| match request {
            Request::Rename(from, to) => Some((from.clone(), to.clone())),
            _ => None,
        })
        .collect()
}

#[test]
fn test_get_file_name_valid_file() {
    let path = "/path/to/test_file.txt";
    let result = get_file_name(&path);
    assert!(result.is_ok());
    assert_eq!(result.unwrap(), "test_file.txt");
}

#[test]
fn test_get_file_name_with_extension() {
    let path = "/path/to/document.pdf";
    let result = get_file_name(&path);
    assert!(result.is_ok());
    assert_eq!(result.unwrap(), "document.pdf");
}

#[test]
fn test_get_file_name_no_extension() {
    let path = "/path/to/README";
    let result = get_file_name(&path);
    assert!(result.is_ok());
    assert_eq!(result.unwrap(), "README");
}

#[test]
fn test_get_file_name_root_path() {
    let path = "/";
    let result = get_file_name(&path);
    assert!(result.is_err());
    match result.unwrap_err() {
        OrderlyError::InvalidFile(_) => (),
        _ => panic!("Expected InvalidFile error"),
    }
}

#[test]
fn test_get_file_name_empty_path() {
    let path = "";
    let result = get_file_name(&path);
    assert!(result.is_err());
    match result.unwrap_err() {
        OrderlyError::InvalidFile(_) => (),
        _ => panic!("Expected InvalidFile error"),
    }
}

#[test]
fn test_move_file_to_directory() {
    let mut disk = setup_test_env();
    let src_file = create_temp_file(&mut disk, TEST_DIR, "source.txt", "test content");
    let dest_dir = in_test_dir("destination");
    disk.create_dir_all(&dest_dir);

    let result = disk.run(|answers| move_file(&src_file, &dest_dir, answers));

    assert!(result.is_ok());
    assert!(!disk.is_present(&src_file)); // Source should be moved
    assert!(disk.is_present(&format!("{}/source.txt", dest_dir))); // Destination should exist
}

#[test]
fn test_move_file_to_new_directory() {
    let mut disk = setup_test_env();
    let src_file = create_temp_file(&mut disk, TEST_DIR, "source.txt", "test content");
    let dest_dir = in_test_dir("new_destination");

    let result = disk.run(|answers| move_file(&src_file, &dest_dir, answers));

    assert!(result.is_ok());
    assert!(!disk.is_present(&src_file)); // Source should be moved
    assert!(disk.is_present(&dest_dir)); // Destination directory should be created
    assert!(disk.is_present(&format!("{}/source.txt", dest_dir))); // File should exist in destination
}

#[test]
fn test_move_file_with_specific_filename() {
    let mut disk = setup_test_env();
    let src_file = create_temp_file(&mut disk, TEST_DIR, "source.txt", "test content");
    let dest_file = in_test_dir("destination.txt");

    let result = disk.run(|answers| move_file(&src_file, &dest_file, answers));

    assert!(result.is_ok());
    assert!(!disk.is_present(&src_file)); // Source should be moved
    assert!(disk.is_present(&dest_file)); // Destination file should exist
}

#[test]
fn test_move_file_nonexistent_source() {
    let mut disk = setup_test_env();
    let nonexistent_file = in_test_dir("nonexistent.txt");
    let dest_dir = in_test_dir("destination");

    let result = disk.run(|answers| move_file(&nonexistent_file, &dest_dir, answers));

    assert!(result.is_err());
}

#[test]
fn test_copy_file_to_directory() {
    let mut disk = setup_test_env();
    let src_file = create_temp_file(&mut disk, TEST_DIR, "source.txt", "test content");
    let dest_dir = in_test_dir("destination");
    disk.create_dir_all(&dest_dir);

    let result = disk.run(|answers| copy_file(&src_file, &dest_dir, answers));

    assert!(result.is_ok());
    assert!(disk.is_present(&src_file)); // Source should still exist
    assert!(disk.is_present(&format!("{}/source.txt", dest_dir))); // Copy should exist in destination

    // Verify content is the same
    let original_content = disk.read_to_string(&src_file);
    let copied_content = disk.read_to_string(&format!("{}/source.txt", dest_dir));
    assert_eq!(original_content, copied_content);
}

#[test]
fn test_copy_file_to_new_directory() {
    let mut disk = setup_test_env();
    let src_file = create_temp_file(&mut disk, TEST_DIR, "source.txt", "test content");
    let dest_dir = in_test_dir("new_destination");

    let result = disk.run(|answers| copy_file(&src_file, &dest_dir, answers));

    assert!(result.is_ok());
    assert!(disk.is_present(&src_file)); // Source should still exist
    assert!(disk.is_present(&dest_dir)); // Destination directory should be created
    assert!(disk.is_present(&format!("{}/source.txt", dest_dir))); // Copy should exist
}

#[test]
fn test_copy_file_with_specific_filename() {
    let mut disk = setup_test_env();
    let src_file = create_temp_file(&mut disk, TEST_DIR, "source.txt", "test content");
    let dest_file = in_test_dir("destination.txt");

    let result = disk.run(|answers| copy_file(&src_file, &dest_file, answers));

    assert!(result.is_ok());
    assert!(disk.is_present(&src_file)); // Source should still exist
    assert!(disk.is_present(&dest_file)); // Destination file should exist
}

#[test]
fn test_copy_file_nonexistent_source() {
    let mut disk = setup_test_env();
    let nonexistent_file = in_test_dir("nonexistent.txt");
    let dest_dir = in_test_dir("destination");

    let result = disk.run(|answers| copy_file(&nonexistent_file, &dest_dir, answers));

    assert!(result.is_err());
}

#[test]
fn test_delete_file_existing() {
    let mut disk = setup_test_env();
    let test_file = create_temp_file(&mut disk, TEST_DIR, "to_delete.txt", "content");

    assert!(disk.is_present(&test_file));

    let result = disk.run(|answers| delete_file(&test_file, answers));

    assert!(result.is_ok());
    assert_eq!(disk.requests, vec![Request::Trash(test_file.clone())]);
}

#[test]
fn test_delete_file_nonexistent() {
    let mut disk = setup_test_env();
    let nonexistent_file = in_test_dir("nonexistent.txt");

    let result = disk.run(|answers| delete_file(&nonexistent_file, answers));

    assert!(result.is_err());
}

#[test]
fn test_sort_file_by_date_year_pattern() {
    let mut disk = setup_test_env();
    let src_file = create_temp_file(&mut disk, TEST_DIR, "document.txt", "test content");
    let base_dest = in_test_dir("sorted");

    let result = disk.run(|answers| sort_file_by_date(&src_file, &base_dest, "%Y", answers));

    assert!(result.is_ok());
    assert!(!disk.is_present(&src_file)); // Source should be moved

    // Check that a directory with current year was created
    let year = chrono::Local::now().format("%Y").to_string();
    let year_dir = format!("{}/{}", base_dest, year);
    assert!(disk.is_present(&year_dir));
    assert!(disk.is_present(&format!("{}/document.txt", year_dir)));
}

#[test]
fn test_sort_file_by_date_year_month_pattern() {
    let mut disk = setup_test_env();
    let src_file = create_temp_file(&mut disk, TEST_DIR, "photo.jpg", "image data");
    let base_dest = in_test_dir("photos");

    let result = disk.run(|answers| sort_file_by_date(&src_file, &base_dest, "%Y-%m", answers));

    assert!(result.is_ok());
    assert!(!disk.is_present(&src_file)); // Source should be moved

    // Check that a directory with current year-month was created
    let year_month = chrono::Local::now().format("%Y-%m").to_string();
    let date_dir = format!("{}/{}", base_dest, year_month);
    assert!(disk.is_present(&date_dir));
    assert!(disk.is_present(&format!("{}/photo.jpg", date_dir)));
}

#[test]
fn test_sort_file_by_date_full_date_pattern() {
    let mut disk = setup_test_env();
    let src_file = create_temp_file(&mut disk, TEST_DIR, "report.pdf", "report content");
    let base_dest = in_test_dir("reports");

    let result = disk.run(|answers| sort_file_by_date(&src_file, &base_dest, "%Y-%m-%d", answers));

    assert!(result.is_ok());
    assert!(!disk.is_present(&src_file)); // Source should be moved

    // Check that a directory with current date was created
    let date = chrono::Local::now().format("%Y-%m-%d").to_string();
    let date_dir = format!("{}/{}", base_dest, date);
    assert!(disk.is_present(&date_dir));
    assert!(disk.is_present(&format!("{}/report.pdf", date_dir)));
}

#[test]
fn test_sort_file_by_date_nonexistent_file() {
    let mut disk = setup_test_env();
    let nonexistent_file = in_test_dir("nonexistent.txt");
    let base_dest = in_test_dir("sorted");

    let result = disk.run(|answers| sort_file_by_date(&nonexistent_file, &base_dest, "%Y", answers));

    assert!(result.is_err());
}

#[test]
fn test_sort_file_by_date_custom_pattern() {
    let mut disk = setup_test_env();
    let src_file = create_temp_file(&mut disk, TEST_DIR, "backup.zip", "backup data");
    let base_dest = in_test_dir("backups");

    let result = disk.run(|answers| sort_file_by_date(&src_file, &base_dest, "%B_%Y", answers));

    assert!(result.is_ok());
    assert!(!disk.is_present(&src_file)); // Source should be moved

    // Check that a directory with month_year format was created
    let month_year = chrono::Local::now().format("%B_%Y").to_string();
    let date_dir = format!("{}/{}", base_dest, month_year);
    assert!(disk.is_present(&date_dir));
    assert!(disk.is_present(&format!("{}/backup.zip", date_dir)));
}

// Integration tests for combinations of operations
#[test]
fn test_multiple_file_operations() {
    let mut disk = setup_test_env();

    // Create multiple test files
    let file1 = create_temp_file(&mut disk, TEST_DIR, "file1.txt", "content1");
    let file2 = create_temp_file(&mut disk, TEST_DIR, "file2.txt", "content2");
    let file3 = create_temp_file(&mut disk, TEST_DIR, "file3.txt", "content3");

    let dest_dir = in_test_dir("organized");

    // Test multiple copy operations
    assert!(disk.run(|answers| copy_file(&file1, &dest_dir, answers)).is_ok());
    assert!(disk.run(|answers| copy_file(&file2, &dest_dir, answers)).is_ok());
    assert!(disk.run(|answers| copy_file(&file3, &dest_dir, answers)).is_ok());

    // Verify all files were copied
    assert!(disk.is_present(&file1) && disk.is_present(&format!("{}/file1.txt", dest_dir)));
    assert!(disk.is_present(&file2) && disk.is_present(&format!("{}/file2.txt", dest_dir)));
    assert!(disk.is_present(&file3) && disk.is_present(&format!("{}/file3.txt", dest_dir)));

    // Test moving the original files to another location
    let archive_dir = in_test_dir("archive");
    assert!(disk.run(|answers| move_file(&file1, &archive_dir, answers)).is_ok());
    assert!(disk.run(|answers| move_file(&file2, &archive_dir, answers)).is_ok());
    assert!(disk.run(|answers| move_file(&file3, &archive_dir, answers)).is_ok());

    // Verify files were moved
    assert!(!disk.is_present(&file1) && disk.is_present(&format!("{}/file1.txt", archive_dir)));
    assert!(!disk.is_present(&file2) && disk.is_present(&format!("{}/file2.txt", archive_dir)));
    assert!(!disk.is_present(&file3) && disk.is_present(&format!("{}/file3.txt", archive_dir)));
}

#[test]
fn test_edge_case_unicode_filename() {
    let mut disk = setup_test_env();
    let unicode_file = create_temp_file(&mut disk, TEST_DIR, "测试文件.txt", "unicode content");

    let result = get_file_name(&unicode_file);
    assert!(result.is_ok());
    assert_eq!(result.unwrap(), "测试文件.txt");

    let dest_dir = in_test_dir("unicode_dest");
    let copy_result = disk.run(|answers| copy_file(&unicode_file, &dest_dir, answers));
    assert!(copy_result.is_ok());
    assert!(disk.is_present(&format!("{}/测试文件.txt", dest_dir)));
}

#[test]
fn test_edge_case_special_characters_filename() {
    let mut disk = setup_test_env();
    let special_file = create_temp_file(
        &mut disk,
        TEST_DIR,
        "file with spaces & symbols!.txt",
        "special content",
    );

    let result = get_file_name(&special_file);
    assert!(result.is_ok());
    assert_eq!(result.unwrap(), "file with spaces & symbols!.txt");

    let dest_dir = in_test_dir("special_dest");
    let copy_result = disk.run(|answers| copy_file(&special_file, &dest_dir, answers));
    assert!(copy_result.is_ok());
    assert!(disk.is_present(&format!("{}/file with spaces & symbols!.txt", dest_dir)));
}

// The plans, request by request
#[test]
fn test_move_into_missing_folder_asks_in_order() {
    let mut disk = setup_test_env();
    disk.create_dir_all("src");
    let src_file = create_temp_file(&mut disk, "src", "a.txt", "alpha");

    let result = disk.run(|answers| move_file(&src_file, "dst", answers));

    assert_eq!(result, Ok(()));
    assert_eq!(
        disk.requests,
        vec![
            Request::Exists("dst".to_string()),
            Request::CreateDirAll("dst".to_string()),
            Request::IsDir("dst".to_string()),
            Request::Rename("src/a.txt".to_string(), "dst/a.txt".to_string()),
        ]
    );
    assert!(disk.is_dir("dst"));
    assert!(!disk.is_present("src/a.txt"));
    assert_eq!(disk.read_to_string("dst/a.txt"), "alpha");
}

#[test]
fn test_move_falls_back_to_copy_and_remove() {
    let mut disk = setup_test_env();
    disk.rename_works = false;
    disk.create_dir_all("src");
    disk.create_dir_all("dst");
    let src_file = create_temp_file(&mut disk, "src", "a.txt", "alpha");

    let result = disk.run(|answers| move_file(&src_file, "dst", answers));

    assert_eq!(result, Ok(()));
    assert_eq!(
        disk.requests,
        vec![
            Request::Exists("dst".to_string()),
            Request::IsDir("dst".to_string()),
            Request::Rename("src/a.txt".to_string(), "dst/a.txt".to_string()),
            Request::Copy("src/a.txt".to_string(), "dst/a.txt".to_string()),
            Request::RemoveFile("src/a.txt".to_string()),
        ]
    );
    assert!(!disk.is_present("src/a.txt"));
    assert_eq!(disk.read_to_string("dst/a.txt"), "alpha");
}

#[test]
fn test_move_fallback_is_tried_for_every_kind_of_failure() {
    for failure in [
        Reply::Failed(IoKind::NotFound, "gone".to_string()),
        Reply::Failed(IoKind::PermissionDenied, "denied".to_string()),
        Reply::Failed(IoKind::Other, "cross-device".to_string()),
        Reply::Flag(true),
        Reply::Nothing,
    ] {
        let answers = vec![Reply::Flag(true), Reply::Flag(false), failure];
        assert_eq!(
            move_file("a.txt", "b.txt", &answers),
            Step::Ask(Request::Copy("a.txt".to_string(), "b.txt".to_string()))
        );
    }
}

#[test]
fn test_move_reports_the_failure_of_the_fallback() {
    let denied = Reply::Failed(IoKind::PermissionDenied, "denied".to_string());
    let renamed = Reply::Failed(IoKind::Other, "cross-device".to_string());
    let start = vec![Reply::Flag(true), Reply::Flag(false), renamed];

    let mut copy_fails = start.clone();
    copy_fails.push(denied.clone());
    assert_eq!(
        move_file("a.txt", "b.txt", &copy_fails),
        Step::Failed(OrderlyError::IoError(
            IoKind::PermissionDenied,
            "denied".to_string()
        ))
    );

    let mut remove_fails = start.clone();
    remove_fails.push(Reply::Done);
    assert_eq!(
        move_file("a.txt", "b.txt", &remove_fails),
        Step::Ask(Request::RemoveFile("a.txt".to_string()))
    );
    remove_fails.push(denied);
    assert_eq!(
        move_file("a.txt", "b.txt", &remove_fails),
        Step::Failed(OrderlyError::IoError(
            IoKind::PermissionDenied,
            "denied".to_string()
        ))
    );
}

#[test]
fn test_move_reports_a_destination_that_cannot_be_created() {
    let answers = vec![
        Reply::Flag(false),
        Reply::Failed(IoKind::PermissionDenied, "read-only".to_string()),
    ];
    assert_eq!(
        move_file("a.txt", "/locked/dst", &answers),
        Step::Failed(OrderlyError::IoError(
            IoKind::PermissionDenied,
            "read-only".to_string()
        ))
    );
}

#[test]
fn test_move_of_a_nameless_source_into_a_folder_is_invalid() {
    let answers = vec![Reply::Flag(true), Reply::Flag(true)];
    for src in ["/", "", "..", "a/.."] {
        assert_eq!(
            move_file(src, "dst", &answers),
            Step::Failed(OrderlyError::InvalidFile(Some(src.to_string())))
        );
    }
}

#[test]
fn test_move_onto_a_file_keeps_the_destination_as_target() {
    let answers = vec![Reply::Flag(true), Reply::Flag(false)];
    assert_eq!(
        move_file("src/a.txt", "dst/b.txt", &answers),
        Step::Ask(Request::Rename(
            "src/a.txt".to_string(),
            "dst/b.txt".to_string()
        ))
    );
}

#[test]
fn test_copy_never_renames_or_removes() {
    let mut disk = setup_test_env();
    disk.rename_works = false;
    let src_file = create_temp_file(&mut disk, TEST_DIR, "a.txt", "alpha");
    let dest_dir = in_test_dir("copies");

    let result = disk.run(|answers| copy_file(&src_file, &dest_dir, answers));

    assert_eq!(result, Ok(()));
    assert_eq!(
        disk.requests,
        vec![
            Request::Exists(dest_dir.clone()),
            Request::CreateDirAll(dest_dir.clone()),
            Request::IsDir(dest_dir.clone()),
            Request::Copy(src_file.clone(), format!("{}/a.txt", dest_dir)),
        ]
    );
    assert_eq!(disk.read_to_string(&src_file), "alpha");
    assert_eq!(disk.read_to_string(&format!("{}/a.txt", dest_dir)), "alpha");
}

#[test]
fn test_delete_reports_the_trash_failure() {
    let answers = vec![Reply::Failed(IoKind::Other, "no trash here".to_string())];
    assert_eq!(
        delete_file("a.txt", &answers),
        Step::Failed(OrderlyError::TrashError("no trash here".to_string()))
    );
    assert_eq!(
        delete_file("a.txt", &vec![Reply::Flag(true)]),
        Step::Failed(OrderlyError::TrashError("unexpected reply".to_string()))
    );
}

#[test]
fn test_sort_by_date_builds_the_path_from_the_rendered_date() {
    let answers = vec![
        Reply::Modified(1_715_000_000, 0),
        Reply::Date(Some("2024/05".to_string())),
        Reply::Flag(true),
    ];
    assert_eq!(
        sort_file_by_date("in/photo.jpg", "base", "%Y/%m", &answers),
        Step::Ask(Request::Rename(
            "in/photo.jpg".to_string(),
            "base/2024/05/photo.jpg".to_string()
        ))
    );
}

#[test]
fn test_sort_by_date_asks_for_the_time_then_for_the_date() {
    assert_eq!(
        sort_file_by_date("in/photo.jpg", "base", "%Y/%m", &vec![]),
        Step::Ask(Request::Modified("in/photo.jpg".to_string()))
    );
    assert_eq!(
        sort_file_by_date(
            "in/photo.jpg",
            "base",
            "%Y/%m",
            &vec![Reply::Modified(1_715_000_000, 7)]
        ),
        Step::Ask(Request::FormatDate(1_715_000_000, 7, "%Y/%m".to_string()))
    );
    assert_eq!(
        sort_file_by_date(
            "in/photo.jpg",
            "base",
            "%Y/%m",
            &vec![
                Reply::Modified(1_715_000_000, 7),
                Reply::Date(Some("2024/05".to_string()))
            ]
        ),
        Step::Ask(Request::Exists("base/2024/05".to_string()))
    );
}

#[test]
fn test_sort_by_date_year_and_month_of_a_known_instant() {
    let mut disk = setup_test_env();
    let src_file = create_temp_file(&mut disk, TEST_DIR, "photo.jpg", "image data");
    // 2021-07-15 12:00:00 UTC: the same month in every time zone.
    disk.files.get_mut(&src_file).unwrap().1 = 1_626_350_400;

    let result = disk.run(|answers| sort_file_by_date(&src_file, "base", "%Y/%m", answers));

    assert_eq!(result, Ok(()));
    assert!(!disk.is_present(&src_file));
    assert_eq!(disk.read_to_string("base/2021/07/photo.jpg"), "image data");
}

#[test]
fn test_sort_by_date_rejects_a_pattern_that_cannot_be_rendered() {
    let mut disk = setup_test_env();
    let src_file = create_temp_file(&mut disk, TEST_DIR, "photo.jpg", "image data");

    let result = disk.run(|answers| sort_file_by_date(&src_file, "base", "%Y/%Q", answers));

    assert_eq!(
        result,
        Err(OrderlyError::InvalidPattern(Some("%Y/%Q".to_string())))
    );
    assert!(disk.is_present(&src_file));
    assert!(!disk.is_present("base"));
}

#[test]
fn test_sort_by_date_rejects_an_instant_out_of_range() {
    for (secs, nanos) in [
        (253_402_300_800, 0),
        (-62_167_219_201, 0),
        (0, 1_000_000_000),
        (i64::MAX, 0),
        (i64::MIN, 0),
    ] {
        assert_eq!(
            sort_file_by_date("a.txt", "base", "%Y", &vec![Reply::Modified(secs, nanos)]),
            Step::Failed(OrderlyError::IoError(
                IoKind::Other,
                "modification time out of range".to_string()
            ))
        );
    }
    for (secs, nanos) in [(253_402_300_799, 999_999_999), (-62_167_219_200, 0)] {
        assert_eq!(
            sort_file_by_date("a.txt", "base", "%Y", &vec![Reply::Modified(secs, nanos)]),
            Step::Ask(Request::FormatDate(secs, nanos, "%Y".to_string()))
        );
    }
}

#[test]
fn test_sort_by_date_of_a_nameless_source_fails_after_the_folder() {
    let answers = vec![
        Reply::Modified(0, 0),
        Reply::Date(Some("1970".to_string())),
        Reply::Flag(true),
    ];
    assert_eq!(
        sort_file_by_date("..", "base", "%Y", &answers),
        Step::Failed(OrderlyError::InvalidFile(Some("..".to_string())))
    );
}

// The engine: one rule over one folder
#[test]
fn test_rule_moves_the_matching_files_only() {
    let mut disk = setup_test_env();
    disk.create_dir_all("in");
    disk.create_dir_all("in/sub");
    create_temp_file(&mut disk, "in", "a.pdf", "alpha");
    create_temp_file(&mut disk, "in", "b.txt", "beta");
    create_temp_file(&mut disk, "in/sub", "c.pdf", "gamma");
    let config = rule_set(vec![folder(
        "in",
        vec![rule(
            "documents",
            vec![condition("extension", "pdf")],
            vec![action("move", Some("out"), None)],
        )],
    )]);

    let (pass, log) = run_pass(&mut disk, &config, "/home/u");

    assert_eq!(log, Vec::<String>::new());
    assert_eq!(disk.read_to_string("out/a.pdf"), "alpha");
    assert!(!disk.is_present("in/a.pdf"));
    assert!(disk.is_present("in/b.txt"));
    assert!(disk.is_present("in/sub/c.pdf"));
    assert!(pass.is_processed("in/a.pdf"));
    assert!(pass.is_processed("out"));
    assert!(!pass.is_processed("in/b.txt"));
    assert_eq!(pass.movements_of("in/a.pdf"), 1);
    assert_eq!(pass.movements_of("in/b.txt"), 0);
    assert_eq!(pass.movements_of("out"), 0);
}

#[test]
fn test_always_asks_for_the_file_kind_and_passes_folders_over() {
    let mut disk = setup_test_env();
    disk.create_dir_all("in/sub");
    create_temp_file(&mut disk, "in", "a", "alpha");
    let config = rule_set(vec![folder(
        "in",
        vec![rule(
            "everything",
            vec![condition("always", "")],
            vec![action("delete", None, None)],
        )],
    )]);

    let (pass, log) = run_pass(&mut disk, &config, "");

    assert_eq!(log, Vec::<String>::new());
    assert_eq!(
        disk.requests,
        vec![
            Request::Exists("in".to_string()),
            Request::ReadDir("in".to_string()),
            Request::IsFile("in/a".to_string()),
            Request::Trash("in/a".to_string()),
            Request::IsFile("in/sub".to_string()),
        ]
    );
    assert!(pass.is_processed("in/a"));
    assert!(!pass.is_processed("in/sub"));
}

#[test]
fn test_two_matching_conditions_run_the_actions_twice() {
    let mut disk = setup_test_env();
    disk.create_dir_all("in");
    disk.create_dir_all("out");
    create_temp_file(&mut disk, "in", "shot.png", "pixels");
    let config = rule_set(vec![folder(
        "in",
        vec![rule(
            "pictures",
            vec![
                condition("extension", "png"),
                condition("name", "other.png"),
                condition("name_contains", "shot"),
            ],
            vec![action("copy", Some("out"), None)],
        )],
    )]);

    let (pass, log) = run_pass(&mut disk, &config, "");

    assert_eq!(log, Vec::<String>::new());
    let copies = disk
        .requests
        .iter()
        .filter(|request| matches!(request, Request::Copy(..)))
        .count();
    assert_eq!(copies, 2);
    assert_eq!(pass.movements_of("in/shot.png"), 2);
}

#[test]
fn test_a_processed_file_is_passed_over_by_later_rules() {
    let mut disk = setup_test_env();
    disk.create_dir_all("in");
    create_temp_file(&mut disk, "in", "a.txt", "alpha");
    let config = rule_set(vec![
        folder(
            "in",
            vec![
                rule(
                    "keep a copy",
                    vec![condition("extension", "txt")],
                    vec![action("copy", Some("out"), None)],
                ),
                rule(
                    "throw away",
                    vec![condition("extension", "txt")],
                    vec![action("delete", None, None)],
                ),
            ],
        ),
        folder(
            "in",
            vec![rule(
                "throw away again",
                vec![condition("name_contains", "")],
                vec![action("delete", None, None)],
            )],
        ),
    ]);

    let (pass, log) = run_pass(&mut disk, &config, "");

    assert_eq!(log, Vec::<String>::new());
    assert!(disk.is_present("in/a.txt"));
    assert!(disk.is_present("out/a.txt"));
    assert_eq!(pass.movements_of("in/a.txt"), 1);
    assert!(!disk
        .requests
        .iter()
        .any(|request| matches!(request, Request::Trash(..))));
}

#[test]
fn test_a_failed_action_is_logged_and_the_next_one_runs() {
    let mut disk = setup_test_env();
    disk.create_dir_all("in");
    create_temp_file(&mut disk, "in", "a.txt", "alpha");
    let config = rule_set(vec![folder(
        "in",
        vec![rule(
            "several",
            vec![condition("name", "a.txt")],
            vec![
                action("move", None, None),
                action("zip", Some("out"), None),
                action("sort_by_date", Some("out"), None),
                action("sort_by_date", None, Some("%Y")),
                action("copy", Some("out"), None),
            ],
        )],
    )]);

    let (pass, log) = run_pass(&mut disk, &config, "");

    assert_eq!(
        log,
        vec![
            "Failed to execute action: Invalid path: None".to_string(),
            "Failed to execute action: Invalid action type: zip".to_string(),
            "Failed to execute action: Invalid pattern: None".to_string(),
            "Failed to execute action: Invalid path: None".to_string(),
        ]
    );
    assert_eq!(disk.read_to_string("out/a.txt"), "alpha");
    assert!(disk.is_present("in/a.txt"));
    assert!(!pass.is_ignored("several"));
}

#[test]
fn test_a_failed_operation_is_logged_twice_and_the_file_stays_processed() {
    let mut disk = setup_test_env();
    disk.create_dir_all("in");
    create_temp_file(&mut disk, "in", "a.txt", "alpha");
    create_temp_file(&mut disk, "", "blocked", "a file where a folder should be");
    let config = rule_set(vec![folder(
        "in",
        vec![rule(
            "blocked",
            vec![condition("name", "a.txt")],
            vec![action("move", Some("/blocked/out"), None)],
        )],
    )]);

    let (pass, log) = run_pass(&mut disk, &config, "");

    assert_eq!(
        log,
        vec![
            "Failed to move file: IO error: Not a directory".to_string(),
            "Failed to execute action: IO error: Not a directory".to_string(),
        ]
    );
    assert!(disk.is_present("in/a.txt"));
    assert!(pass.is_processed("in/a.txt"));
    assert!(!pass.is_processed("/blocked/out"));
    assert!(!pass.is_ignored("blocked"));
}

#[test]
fn test_a_leading_tilde_stands_for_the_home_folder() {
    let mut disk = setup_test_env();
    disk.create_dir_all("in");
    create_temp_file(&mut disk, "in", "song.mp3", "notes");
    create_temp_file(&mut disk, "in", "clip.mp4", "frames");
    let config = rule_set(vec![folder(
        "in",
        vec![
            rule(
                "music",
                vec![condition("extension", "mp3")],
                vec![action("move", Some("~/Music"), None)],
            ),
            rule(
                "videos",
                vec![condition("extension", "mp4")],
                vec![action("copy", Some("/data/~/Videos"), None)],
            ),
        ],
    )]);

    let (_, log) = run_pass(&mut disk, &config, "/home/u");

    assert_eq!(log, Vec::<String>::new());
    assert_eq!(disk.read_to_string("/home/u/Music/song.mp3"), "notes");
    assert_eq!(disk.read_to_string("/data/~/Videos/clip.mp4"), "frames");
}

// Cycle protection
#[test]
fn test_the_eleventh_match_of_a_path_aborts_the_rule() {
    let mut disk = setup_test_env();
    disk.create_dir_all("in");
    create_temp_file(&mut disk, "in", "a.txt", "alpha");
    create_temp_file(&mut disk, "in", "z.txt", "omega");
    let mut conditions = Vec::new();
    for _ in 0..12 {
        conditions.push(condition("name", "a.txt"));
    }
    let config = rule_set(vec![folder(
        "in",
        vec![
            rule("back and forth", conditions, vec![action("move", Some("in"), None)]),
            rule(
                "after",
                vec![condition("name", "z.txt")],
                vec![action("move", Some("out"), None)],
            ),
        ],
    )]);

    let (pass, log) = run_pass(&mut disk, &config, "");

    assert_eq!(MAX_MOVEMENTS, 10);
    assert_eq!(
        renames(&disk)
            .iter()
            .filter(|(from, _)| from == "in/a.txt")
            .count(),
        10
    );
    assert_eq!(pass.movements_of("in/a.txt"), 11);
    assert_eq!(
        log,
        vec![
            "Potential infinite loop detected for file: in/a.txt".to_string(),
            "Ignoring rule 'back and forth': Potential infinite loop detected for file: in/a.txt"
                .to_string(),
        ]
    );
    assert!(pass.is_ignored("back and forth"));
    assert!(disk.is_present("in/a.txt"));
    // The rule after it still ran.
    assert!(disk.is_present("out/z.txt"));
}

#[test]
fn test_record_match_counts_up_to_the_ceiling() {
    let mut processed = StringHashSet::new();
    let mut movements: StringHashMap<usize> = StringHashMap::new();
    for count in 1..=10 {
        assert_eq!(record_match("a", &mut processed, &mut movements), Ok(()));
        assert_eq!(movements.get("a"), Some(&count));
        assert_eq!(record_match("b", &mut processed, &mut movements), Ok(()));
    }
    assert_eq!(
        record_match("a", &mut processed, &mut movements),
        Err(OrderlyError::InfiniteLoop("a".to_string()))
    );
    assert_eq!(movements.get("a"), Some(&11));
    assert_eq!(
        record_match("a", &mut processed, &mut movements),
        Err(OrderlyError::InfiniteLoop("a".to_string()))
    );
    assert_eq!(movements.get("a"), Some(&12));
    assert_eq!(movements.get("b"), Some(&10));
    assert!(processed.contains("a"));
    assert!(processed.contains("b"));
    assert!(!processed.contains("c"));
}

#[test]
fn test_record_match_does_not_overflow() {
    let mut processed = StringHashSet::new();
    let mut movements: StringHashMap<usize> = StringHashMap::new();
    movements.insert("a".to_string(), usize::MAX);
    assert_eq!(
        record_match("a", &mut processed, &mut movements),
        Err(OrderlyError::InfiniteLoop("a".to_string()))
    );
    assert_eq!(movements.get("a"), Some(&usize::MAX));
}

// Pass isolation
#[test]
fn test_a_file_put_back_is_matched_again_in_the_next_pass() {
    let mut disk = setup_test_env();
    disk.create_dir_all("in");
    create_temp_file(&mut disk, "in", "a.txt", "alpha");
    let config = rule_set(vec![folder(
        "in",
        vec![rule(
            "out with it",
            vec![condition("always", "")],
            vec![action("move", Some("out"), None)],
        )],
    )]);

    let (first, _) = run_pass(&mut disk, &config, "");
    assert!(first.is_processed("in/a.txt"));
    assert!(disk.is_present("out/a.txt"));
    assert!(!disk.is_present("in/a.txt"));

    // Put the file back by hand.
    let file = disk.files.remove("out/a.txt").unwrap();
    disk.files.insert("in/a.txt".to_string(), file);
    disk.requests.clear();

    let (second, log) = run_pass(&mut disk, &config, "");
    assert_eq!(log, Vec::<String>::new());
    assert_eq!(second.movements_of("in/a.txt"), 1);
    assert_eq!(
        renames(&disk),
        vec![("in/a.txt".to_string(), "out/a.txt".to_string())]
    );
    assert!(disk.is_present("out/a.txt"));
}

#[test]
fn test_a_new_pass_starts_blank() {
    let pass = Pass::new();
    for path in ["", "a", "in/a.txt"] {
        assert!(!pass.is_processed(path));
        assert!(!pass.is_ignored(path));
        assert_eq!(pass.movements_of(path), 0);
    }
    assert_eq!(pass.folder, 0);
    assert_eq!(pass.rule, 0);
    assert_eq!(pass.scan.stage, Stage::Start);
}

// Failures stay where they arise
#[test]
fn test_an_unknown_condition_kind_fails_only_its_rule() {
    let mut disk = setup_test_env();
    disk.create_dir_all("first");
    disk.create_dir_all("second");
    create_temp_file(&mut disk, "first", "a.txt", "alpha");
    create_temp_file(&mut disk, "second", "b.txt", "beta");
    let config = rule_set(vec![
        folder(
            "first",
            vec![rule(
                "broken",
                vec![condition("name", "a.txt"), condition("size", "10")],
                vec![action("delete", None, None)],
            )],
        ),
        folder(
            "second",
            vec![rule(
                "sound",
                vec![condition("name", "b.txt")],
                vec![action("move", Some("out"), None)],
            )],
        ),
    ]);

    let (pass, log) = run_pass(&mut disk, &config, "");

    assert_eq!(
        log,
        vec!["Ignoring rule 'broken': Unknown condition type: size".to_string()]
    );
    assert!(pass.is_ignored("broken"));
    assert!(!pass.is_ignored("sound"));
    // Nothing was asked for the broken rule, not even whether its folder exists.
    assert_eq!(disk.requests[0], Request::Exists("second".to_string()));
    assert!(disk.is_present("first/a.txt"));
    assert_eq!(disk.read_to_string("out/b.txt"), "beta");
}

#[test]
fn test_a_missing_folder_fails_only_its_rule() {
    let mut disk = setup_test_env();
    disk.create_dir_all("there");
    create_temp_file(&mut disk, "there", "b.txt", "beta");
    let config = rule_set(vec![
        folder(
            "nowhere",
            vec![
                rule(
                    "lost",
                    vec![condition("always", "")],
                    vec![action("delete", None, None)],
                ),
                rule(
                    "lost too",
                    vec![condition("always", "")],
                    vec![action("delete", None, None)],
                ),
            ],
        ),
        folder(
            "there",
            vec![rule(
                "found",
                vec![condition("always", "")],
                vec![action("move", Some("out"), None)],
            )],
        ),
    ]);

    let (pass, log) = run_pass(&mut disk, &config, "");

    assert_eq!(
        log,
        vec![
            "Ignoring rule 'lost': Directory does not exist: nowhere".to_string(),
            "Ignoring rule 'lost too': Directory does not exist: nowhere".to_string(),
        ]
    );
    assert!(pass.is_ignored("lost"));
    assert!(pass.is_ignored("lost too"));
    assert!(!disk.is_present("nowhere"));
    assert_eq!(disk.read_to_string("out/b.txt"), "beta");
}

#[test]
fn test_a_rule_named_like_a_failed_one_is_not_begun() {
    let mut disk = setup_test_env();
    disk.create_dir_all("there");
    create_temp_file(&mut disk, "there", "b.txt", "beta");
    let config = rule_set(vec![
        folder(
            "nowhere",
            vec![rule(
                "tidy",
                vec![condition("always", "")],
                vec![action("delete", None, None)],
            )],
        ),
        folder(
            "there",
            vec![rule(
                "tidy",
                vec![condition("always", "")],
                vec![action("delete", None, None)],
            )],
        ),
    ]);

    let (_, log) = run_pass(&mut disk, &config, "");

    assert_eq!(
        log,
        vec!["Ignoring rule 'tidy': Directory does not exist: nowhere".to_string()]
    );
    assert_eq!(disk.requests, vec![Request::Exists("nowhere".to_string())]);
    assert!(disk.is_present("there/b.txt"));
}

#[test]
fn test_a_folder_that_cannot_be_listed_fails_its_rule() {
    let config = rule_set(vec![folder(
        "in",
        vec![rule(
            "tidy",
            vec![condition("always", "")],
            vec![action("delete", None, None)],
        )],
    )]);
    let mut pass = Pass::new();
    let mut log: Vec<String> = Vec::new();

    assert_eq!(
        advance(&config, "", &mut pass, Reply::Nothing, &mut log),
        Step::Ask(Request::Exists("in".to_string()))
    );
    assert_eq!(
        advance(&config, "", &mut pass, Reply::Flag(true), &mut log),
        Step::Ask(Request::ReadDir("in".to_string()))
    );
    assert_eq!(
        advance(
            &config,
            "",
            &mut pass,
            Reply::Failed(IoKind::PermissionDenied, "Permission denied".to_string()),
            &mut log
        ),
        Step::Continue
    );
    assert_eq!(
        log,
        vec!["Ignoring rule 'tidy': Failed to read directory in: Permission denied".to_string()]
    );
    assert!(pass.is_ignored("tidy"));
    assert_eq!(
        advance(&config, "", &mut pass, Reply::Nothing, &mut log),
        Step::Continue
    );
    assert_eq!(
        advance(&config, "", &mut pass, Reply::Nothing, &mut log),
        Step::Done
    );
}

#[test]
fn test_an_entry_whose_path_is_not_text_is_passed_over() {
    let tidy = rule(
        "tidy",
        vec![condition("name_contains", "")],
        vec![action("delete", None, None)],
    );
    let mut scan = Scan::new();
    let mut processed = StringHashSet::new();
    let mut movements: StringHashMap<usize> = StringHashMap::new();
    let mut log: Vec<String> = Vec::new();
    let mut replies = vec![
        Reply::Nothing,
        Reply::Flag(true),
        Reply::Listing(vec![None, Some("in/a".to_string()), None]),
    ];
    replies.reverse();
    let mut asked: Vec<Request> = Vec::new();
    let mut steps = 0;
    loop {
        let reply = replies.pop().unwrap_or(Reply::Done);
        match handle_conditions(
            "in",
            &tidy,
            "",
            &mut scan,
            &mut processed,
            &mut movements,
            reply,
            &mut log,
        ) {
            Step::Ask(request) => asked.push(request),
            Step::Continue => replies.push(Reply::Nothing),
            Step::Done => break,
            Step::Failed(e) => panic!("{}", e.message()),
        }
        steps += 1;
        assert!(steps < 100);
    }
    assert_eq!(
        asked,
        vec![
            Request::Exists("in".to_string()),
            Request::ReadDir("in".to_string()),
            Request::Trash("in/a".to_string()),
        ]
    );
    assert_eq!(log, Vec::<String>::new());
    assert!(processed.contains("in/a"));
    assert_eq!(processed.len(), 1);
}

// Dates
#[test]
fn test_the_engine_renders_dates_itself() {
    let mut disk = setup_test_env();
    disk.create_dir_all("in");
    let photo = create_temp_file(&mut disk, "in", "photo.jpg", "pixels");
    // 2021-07-15 12:00:00 UTC: the same month in every time zone.
    disk.files.get_mut(&photo).unwrap().1 = 1_626_350_400;
    let config = rule_set(vec![folder(
        "in",
        vec![rule(
            "by month",
            vec![condition("extension", "jpg")],
            vec![action("sort_by_date", Some("~/Pictures"), Some("%Y/%m"))],
        )],
    )]);

    let (pass, log) = run_pass(&mut disk, &config, "/home/u");

    assert_eq!(log, Vec::<String>::new());
    assert_eq!(
        disk.read_to_string("/home/u/Pictures/2021/07/photo.jpg"),
        "pixels"
    );
    assert!(!disk.is_present("in/photo.jpg"));
    assert!(pass.is_processed("/home/u/Pictures/photo.jpg"));
    assert!(!disk
        .requests
        .iter()
        .any(|request| matches!(request, Request::FormatDate(..))));
}

#[test]
fn test_the_engine_reports_a_pattern_that_cannot_be_rendered() {
    let mut disk = setup_test_env();
    disk.create_dir_all("in");
    create_temp_file(&mut disk, "in", "photo.jpg", "pixels");
    let config = rule_set(vec![folder(
        "in",
        vec![rule(
            "by month",
            vec![condition("extension", "jpg")],
            vec![action("sort_by_date", Some("sorted"), Some("%Y/%"))],
        )],
    )]);

    let (_, log) = run_pass(&mut disk, &config, "");

    assert_eq!(
        log,
        vec![
            "Failed to sort file by date: Invalid pattern: Some(\"%Y/%\")".to_string(),
            "Failed to execute action: Invalid pattern: Some(\"%Y/%\")".to_string(),
        ]
    );
    assert!(disk.is_present("in/photo.jpg"));
    assert!(!disk.is_present("sorted"));
}

// The handlers
#[test]
fn test_handlers_mark_the_destination_when_they_are_done() {
    let done = vec![Reply::Flag(true), Reply::Flag(true), Reply::Done];
    let mut log: Vec<String> = Vec::new();

    let mut processed = StringHashSet::new();
    let to_music = action("move", Some("~/Music"), None);
    assert_eq!(
        handle_move("in/a.mp3", &to_music, "/home/u", &done, &mut processed, &mut log),
        Step::Done
    );
    assert!(processed.contains("/home/u/Music"));
    assert_eq!(processed.len(), 1);

    let mut processed = StringHashSet::new();
    assert_eq!(
        handle_copy("in/a.mp3", &to_music, "/home/u", &done, &mut processed, &mut log),
        Step::Done
    );
    assert!(processed.contains("/home/u/Music"));
    assert_eq!(processed.len(), 1);

    let mut processed = StringHashSet::new();
    let by_year = action("sort_by_date", Some("~/Music"), Some("%Y"));
    let sorted = vec![
        Reply::Modified(0, 0),
        Reply::Date(Some("1970".to_string())),
        Reply::Flag(true),
        Reply::Done,
    ];
    assert_eq!(
        handle_sort_by_date("in/a.mp3", &by_year, "/home/u", &sorted, &mut processed, &mut log),
        Step::Done
    );
    assert!(processed.contains("/home/u/Music/a.mp3"));
    assert_eq!(processed.len(), 1);

    assert_eq!(log, Vec::<String>::new());
}

#[test]
fn test_handlers_mark_nothing_before_they_are_done() {
    let mut log: Vec<String> = Vec::new();
    let mut processed = StringHashSet::new();
    let to_music = action("move", Some("Music"), None);
    let mut answers: Vec<Reply> = Vec::new();
    for (reply, request) in [
        (Reply::Flag(true), Request::Exists("Music".to_string())),
        (Reply::Flag(true), Request::IsDir("Music".to_string())),
        (
            Reply::Failed(IoKind::Other, "busy".to_string()),
            Request::Rename("a.mp3".to_string(), "Music/a.mp3".to_string()),
        ),
        (
            Reply::Done,
            Request::Copy("a.mp3".to_string(), "Music/a.mp3".to_string()),
        ),
    ] {
        assert_eq!(
            handle_move("a.mp3", &to_music, "", &answers, &mut processed, &mut log),
            Step::Ask(request)
        );
        assert_eq!(processed.len(), 0);
        answers.push(reply);
    }
    assert_eq!(log, Vec::<String>::new());
}

#[test]
fn test_handlers_log_their_failures() {
    let failed = Reply::Failed(IoKind::NotFound, "gone".to_string());
    let mut processed = StringHashSet::new();
    let mut log: Vec<String> = Vec::new();

    assert_eq!(
        handle_delete("a", &vec![failed.clone()], &mut log),
        Step::Failed(OrderlyError::TrashError("gone".to_string()))
    );
    let moving = vec![Reply::Flag(false), failed.clone()];
    let gone = Step::Failed(OrderlyError::IoError(IoKind::NotFound, "gone".to_string()));
    assert_eq!(
        handle_move("a", &action("move", Some("b"), None), "", &moving, &mut processed, &mut log),
        gone
    );
    assert_eq!(
        handle_copy("a", &action("copy", Some("b"), None), "", &moving, &mut processed, &mut log),
        gone
    );
    assert_eq!(
        handle_sort_by_date(
            "a",
            &action("sort_by_date", Some("b"), Some("%Y")),
            "",
            &vec![failed],
            &mut processed,
            &mut log
        ),
        gone
    );
    assert_eq!(
        log,
        vec![
            "Failed to delete file: Trash error: gone".to_string(),
            "Failed to move file: IO error: gone".to_string(),
            "Failed to copy file: IO error: gone".to_string(),
            "Failed to sort file by date: IO error: gone".to_string(),
        ]
    );
    assert_eq!(processed.len(), 0);
}

#[test]
fn test_handlers_refuse_missing_fields_without_a_log_line() {
    let mut processed = StringHashSet::new();
    let mut log: Vec<String> = Vec::new();
    let no_path = Step::Failed(OrderlyError::InvalidPath(None));
    assert_eq!(
        handle_move("a", &action("move", None, Some("%Y")), "", &vec![], &mut processed, &mut log),
        no_path
    );
    assert_eq!(
        handle_copy("a", &action("copy", None, None), "", &vec![], &mut processed, &mut log),
        no_path
    );
    assert_eq!(
        handle_sort_by_date(
            "a",
            &action("sort_by_date", None, None),
            "",
            &vec![],
            &mut processed,
            &mut log
        ),
        no_path
    );
    assert_eq!(
        handle_sort_by_date(
            "a",
            &action("sort_by_date", Some("b"), None),
            "",
            &vec![],
            &mut processed,
            &mut log
        ),
        Step::Failed(OrderlyError::InvalidPattern(None))
    );
    assert_eq!(log, Vec::<String>::new());
    assert_eq!(processed.len(), 0);
}

#[test]
fn test_execute_action_goes_by_the_kind() {
    let mut processed = StringHashSet::new();
    let mut log: Vec<String> = Vec::new();
    let none: Vec<Reply> = Vec::new();
    for (kind, request) in [
        ("delete", Request::Trash("a".to_string())),
        ("move", Request::Exists("b".to_string())),
        ("copy", Request::Exists("b".to_string())),
        ("sort_by_date", Request::Modified("a".to_string())),
    ] {
        assert_eq!(
            execute_action(
                "a",
                &action(kind, Some("b"), Some("%Y")),
                "",
                &none,
                &mut processed,
                &mut log
            ),
            Step::Ask(request)
        );
    }
    for kind in ["", "Move", "remove", "sort-by-date"] {
        assert_eq!(
            execute_action(
                "a",
                &action(kind, Some("b"), Some("%Y")),
                "",
                &none,
                &mut processed,
                &mut log
            ),
            Step::Failed(OrderlyError::InvalidActionType(kind.to_string()))
        );
    }
    assert_eq!(log, Vec::<String>::new());
}

// The example rule set, end to end
#[test]
fn test_the_example_rules_sort_a_desktop() {
    let mut disk = setup_test_env();
    disk.create_dir_all("test_folder/Desktop");
    disk.create_dir_all("test_folder/Downloads");
    disk.create_dir_all("test_folder/Pictures");
    create_temp_file(&mut disk, "test_folder/Downloads", "song.mp3", "notes");
    create_temp_file(&mut disk, "test_folder/Downloads", "clip.mkv", "frames");
    create_temp_file(&mut disk, "test_folder/Downloads", "report.pdf", "words");
    create_temp_file(&mut disk, "test_folder/Downloads", "unknown.bin", "bits");
    create_temp_file(&mut disk, "test_folder/Pictures", "wallpaper_hd.jpg", "pixels");
    create_temp_file(&mut disk, "test_folder/Pictures", "screenshot_1.png", "pixels");
    let holiday = create_temp_file(&mut disk, "test_folder/Pictures", "holiday.gif", "pixels");
    // 2021-07-15 12:00:00 UTC: the same month in every time zone.
    disk.files.get_mut(&holiday).unwrap().1 = 1_626_350_400;
    create_temp_file(&mut disk, "test_folder/Desktop", "notes.txt", "list");

    let (_, log) = run_pass(&mut disk, &create_example_rule(), "/home/u");

    assert_eq!(log, Vec::<String>::new());
    let mut files: Vec<&str> = disk.files.keys().map(|path| path.as_str()).collect();
    files.sort();
    assert_eq!(
        files,
        vec![
            "test_folder/Documents/notes.txt",
            "test_folder/Documents/report.pdf",
            "test_folder/Downloads/unknown.bin",
            "test_folder/Music/song.mp3",
            "test_folder/Pictures/2021/Jul/holiday.gif",
            "test_folder/Pictures/Screenshots/screenshot_1.png",
            "test_folder/Pictures/Wallpapers/wallpaper_hd.jpg",
            "test_folder/Videos/clip.mkv",
        ]
    );
}
