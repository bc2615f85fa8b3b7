use senvy::memory::MemoryStore;
use senvy::store::{finish, object_path, plan, FsEvent, StorageAction};
use senvy::task::{FileTask, FileTaskKind, FileTaskReturnType, StoreError};
use senvy::types::{Project, ProjectEntry, Var};

fn create(store: &mut MemoryStore, timestamp: u128, project: Project) -> Result<bool, StoreError> {
    match store.execute(FileTask::CreateConfig(timestamp, project)) {
        FileTaskReturnType::CreateReturn(r) => r,
        _ => unreachable!(),
    }
}

fn read(store: &mut MemoryStore, name: &str) -> Result<Option<ProjectEntry>, StoreError> {
    match store.execute(FileTask::ReadConfig(name.to_string())) {
        FileTaskReturnType::ReadReturn(r) => r,
        _ => unreachable!(),
    }
}

fn update(store: &mut MemoryStore, timestamp: u128, project: Project) -> Result<bool, StoreError> {
    match store.execute(FileTask::UpdateConfig(timestamp, project)) {
        FileTaskReturnType::UpdateReturn(r) => r,
        _ => unreachable!(),
    }
}

fn delete(store: &mut MemoryStore, name: &str) -> Result<bool, StoreError> {
    match store.execute(FileTask::DeleteConfig(name.to_string())) {
        FileTaskReturnType::DeleteReturn(r) => r,
        _ => unreachable!(),
    }
}

#[test]
fn files_create_file() {
    let mut store = MemoryStore::new();
    let data = Project {
        name: "test-name".to_string(),
        vars: vec![Var { name: "port".to_string(), value: "8080".to_string() }],
        path: "./.env".to_string(),
    };
    let res = create(&mut store, 123, data.clone());

    // file that doesn't exist
    assert_eq!(res.unwrap(), true);

    // creating already existing file
    let res = create(&mut store, 123, data);
    assert_eq!(res.unwrap(), false);
}

#[test]
fn files_read_file() {
    let mut store = MemoryStore::new();
    let data = Project {
        name: "test-read".to_string(),
        vars: vec![Var { name: "port".to_string(), value: "8080".to_string() }],
        path: "./.env".to_string(),
    };
    let _ = create(&mut store, 123, data.clone()).unwrap();

    let data = ProjectEntry { timestamp: 123, vars: data.vars, path: "./.env".to_string() };

    // reading an existing file
    let res = read(&mut store, "test-read");
    assert_eq!(Some(data), res.unwrap());

    // reading file that doesn't exist
    let res = read(&mut store, "test-read-not-existing");
    assert_eq!(None, res.unwrap());
}

#[test]
fn update_file() {
    let mut store = MemoryStore::new();
    let mut data = Project {
        name: "test-update".to_string(),
        vars: vec![Var { name: "port".to_string(), value: "8080".to_string() }],
        path: "./.env".to_string(),
    };
    let _ = create(&mut store, 123, data.clone()).unwrap();

    // updating existing file
    data.vars.push(Var { name: "new-var".to_string(), value: "new".to_string() });
    let res = update(&mut store, 125, data.clone()).unwrap();
    assert_eq!(res, true);

    // checking if data was updated
    let read_data = read(&mut store, "test-update").unwrap();
    let expected_data = ProjectEntry { timestamp: 125, vars: data.vars.clone(), path: "./.env".to_string() };
    assert_eq!(Some(expected_data), read_data);

    // updating file that doesn't exist
    data.name = "test-update-wrong-name".to_string();
    let res = update(&mut store, 125, data).unwrap();
    assert_eq!(false, res);
}

#[test]
fn delete_file() {
    let mut store = MemoryStore::new();
    // deleting file that doesn't exist
    let res = delete(&mut store, "test-delete").unwrap();
    assert_eq!(false, res);

    let data = Project {
        name: "test-delete".to_string(),
        vars: vec![Var { name: "port".to_string(), value: "8080".to_string() }],
        path: "./.env".to_string(),
    };
    let _ = create(&mut store, 123, data.clone()).unwrap();

    // deleting file that does exist
    let res = delete(&mut store, "test-delete").unwrap();
    assert_eq!(true, res);
}

fn project_p() -> Project {
    Project {
        name: "p".to_string(),
        path: "/e".to_string(),
        vars: vec![Var { name: "A".to_string(), value: "B".to_string() }],
    }
}

#[test]
fn create_twice_keeps_first_data() {
    let mut store = MemoryStore::new();
    assert_eq!(create(&mut store, 1, project_p()), Ok(true));
    let mut other = project_p();
    other.path = "/other".to_string();
    assert_eq!(create(&mut store, 2, other), Ok(false));
    let entry = read(&mut store, "p").unwrap().unwrap();
    assert_eq!(entry.timestamp, 1);
    assert_eq!(entry.path, "/e");
}

#[test]
fn update_missing_creates_nothing() {
    let mut store = MemoryStore::new();
    assert_eq!(update(&mut store, 5, project_p()), Ok(false));
    assert_eq!(store.len(), 0);
    assert_eq!(read(&mut store, "p"), Ok(None));
}

#[test]
fn delete_missing_answers_false() {
    let mut store = MemoryStore::new();
    assert_eq!(delete(&mut store, "p"), Ok(false));
    assert_eq!(store.len(), 0);
}

#[test]
fn create_then_read_round_trip() {
    let mut store = MemoryStore::new();
    assert_eq!(create(&mut store, 123, project_p()), Ok(true));
    let expected = ProjectEntry {
        timestamp: 123,
        path: "/e".to_string(),
        vars: vec![Var { name: "A".to_string(), value: "B".to_string() }],
    };
    assert_eq!(read(&mut store, "p"), Ok(Some(expected)));
}

#[test]
fn object_path_is_under_data_dir() {
    assert_eq!(object_path("test-name"), "data/test-name");
    assert_eq!(object_path(""), "data/");
}

#[test]
fn plan_builds_the_stored_entry() {
    match plan(FileTask::UpdateConfig(7, project_p())) {
        StorageAction::Overwrite(name, entry) => {
            assert_eq!(name, "p");
            assert_eq!(entry.timestamp, 7);
            assert_eq!(entry.path, "/e");
            assert_eq!(entry.vars, project_p().vars);
        },
        other => panic!("unexpected action {:?}", other),
    }
    assert!(matches!(plan(FileTask::ReadConfig("q".to_string())), StorageAction::Load(n) if n == "q"));
    assert!(matches!(plan(FileTask::DeleteConfig("q".to_string())), StorageAction::Remove(n) if n == "q"));
}

#[test]
fn finish_maps_each_answer() {
    assert!(matches!(finish(FileTaskKind::Create, FsEvent::Done), FileTaskReturnType::CreateReturn(Ok(true))));
    assert!(matches!(finish(FileTaskKind::Create, FsEvent::Exists), FileTaskReturnType::CreateReturn(Ok(false))));
    assert!(matches!(
        finish(FileTaskKind::Create, FsEvent::Failed(StoreError::Io)),
        FileTaskReturnType::CreateReturn(Err(StoreError::Io))
    ));
    assert!(matches!(finish(FileTaskKind::Read, FsEvent::Missing), FileTaskReturnType::ReadReturn(Ok(None))));
    assert!(matches!(
        finish(FileTaskKind::Read, FsEvent::Failed(StoreError::Encoding)),
        FileTaskReturnType::ReadReturn(Err(StoreError::Encoding))
    ));
    assert!(matches!(finish(FileTaskKind::Update, FsEvent::Missing), FileTaskReturnType::UpdateReturn(Ok(false))));
    assert!(matches!(finish(FileTaskKind::Update, FsEvent::Done), FileTaskReturnType::UpdateReturn(Ok(true))));
    assert!(matches!(finish(FileTaskKind::Delete, FsEvent::Missing), FileTaskReturnType::DeleteReturn(Ok(false))));
    assert!(matches!(finish(FileTaskKind::Delete, FsEvent::Done), FileTaskReturnType::DeleteReturn(Ok(true))));
    assert!(FsEvent::Exists.fits(FileTaskKind::Create));
    assert!(!FsEvent::Exists.fits(FileTaskKind::Delete));
    assert!(!FsEvent::Done.fits(FileTaskKind::Read));
}
