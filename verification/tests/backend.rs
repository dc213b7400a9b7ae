use av1_operator::host::{HeartbeatResult, Host, HostId, HostState};
use av1_operator::http::Pagination;
use av1_operator::id::IdGenerator;
use av1_operator::registry::{Registry, RegistryError};
use av1_operator::repository::{
    HostIdent, MemoryRepository, PageList, Repository, StorageError,
};
use av1_operator::enroll::Phase;
use av1_operator::ssh::HostBuilder;

struct Broken;

fn down() -> StorageError {
    StorageError { detail: "backend is down".to_string() }
}

impl Repository for Broken {
    fn get(&self, _ident: &HostIdent) -> Result<Option<Host>, StorageError> {
        Err(down())
    }

    fn list(&self, _page: &Pagination) -> Result<PageList<Host>, StorageError> {
        Err(down())
    }

    fn save(&mut self, _host: &Host) -> Result<(), StorageError> {
        Err(down())
    }

    fn update(&mut self, _host: &Host) -> Result<(), StorageError> {
        Err(down())
    }
}

#[test]
fn a_failing_backend_surfaces_as_storage_error() {
    let mut registry = Registry::new(Broken, IdGenerator::new(1), 18989);
    let builder = HostBuilder::new("web1".to_string(), "10.0.0.5".to_string());
    match registry.enroll(builder, Phase::Done) {
        Err(RegistryError::Storage(e)) => assert_eq!(e.detail, "backend is down"),
        other => panic!("unexpected {other:?}"),
    }
    let host = Host {
        id: HostId(1),
        name: "a".to_string(),
        ip: "10.0.0.1".to_string(),
        state: HostState::Running,
    };
    assert!(matches!(registry.record(host), Err(RegistryError::Storage(_))));
    assert!(matches!(registry.probe(HostId(1)), Err(RegistryError::NotFound)));
    assert!(matches!(registry.load(10), Err(RegistryError::Storage(_))));
    assert_eq!(registry.list(&Pagination::default()).total, 0);
}

struct Forgetful {
    inner: MemoryRepository,
}

impl Repository for Forgetful {
    fn get(&self, ident: &HostIdent) -> Result<Option<Host>, StorageError> {
        self.inner.get(ident)
    }

    fn list(&self, page: &Pagination) -> Result<PageList<Host>, StorageError> {
        self.inner.list(page)
    }

    fn save(&mut self, host: &Host) -> Result<(), StorageError> {
        self.inner.save(host)
    }

    fn update(&mut self, _host: &Host) -> Result<(), StorageError> {
        Err(down())
    }
}

#[test]
fn a_change_that_the_backend_refuses_has_not_happened() {
    let repo = Forgetful { inner: MemoryRepository::new() };
    let mut registry = Registry::new(repo, IdGenerator::new(1), 18989);
    let builder = HostBuilder::new("web1".to_string(), "10.0.0.5".to_string());
    let id = registry.enroll(builder, Phase::Done).unwrap();
    let failed = HeartbeatResult::from_reply(Err("timeout".to_string()));
    assert!(matches!(registry.refresh(id, &failed), Err(RegistryError::Storage(_))));
    assert_eq!(registry.get(id).unwrap().state, HostState::Running);
}
