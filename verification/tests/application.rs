use av1_operator::application::{
    checkout_command, clone_command, list, script_command, AppDir, AppId, AppScripts,
    AppVersionPo, ApplicaionPo, Application, CreateAppParams,
};
use av1_operator::id::IdGenerator;

fn po(id: i64, name: &str) -> ApplicaionPo {
    ApplicaionPo { id: AppId(id), name: name.to_string(), git_url: format!("git://{name}") }
}

fn version(hash: &str, app: i64) -> AppVersionPo {
    AppVersionPo { hash: hash.to_string(), app_id: AppId(app) }
}

fn hashes(app: &Application) -> Vec<String> {
    app.versions.iter().map(|v| v.hash.clone()).collect()
}

#[test]
fn app_dir_layout() {
    let dir = AppDir("/data/apps/demo".to_string());
    assert_eq!(dir.code_dir(), "/data/apps/demo/code");
    assert_eq!(dir.build_out_dir(), "/data/apps/demo/build-out");
    assert_eq!(dir.build_script_path(), "/data/apps/demo/build.sh");
    assert_eq!(dir.install_script_path(), "/data/apps/demo/install.sh");
}

#[test]
fn new_application_has_no_versions() {
    let params = CreateAppParams {
        name: "demo".to_string(),
        git: "git://demo".to_string(),
        scripts: AppScripts { build: "make".to_string(), install: "make install".to_string() },
    };
    let mut ids = IdGenerator::new(3);
    let id = AppId::next_id(&mut ids);
    let app = Application::new(id, params.name, params.git);
    assert_eq!(app.id, id);
    assert_eq!(app.name, "demo");
    assert_eq!(app.git, "git://demo");
    assert!(app.versions.is_empty());
    let stored = ApplicaionPo::from(&app);
    assert_eq!(stored.id, id);
    assert_eq!(stored.name, "demo");
    assert_eq!(stored.git_url, "git://demo");
}

#[test]
fn from_rows_takes_every_version_in_order() {
    let app = Application::from_rows(po(1, "demo"), &vec![version("aa", 1), version("bb", 2)]);
    assert_eq!(app.id, AppId(1));
    assert_eq!(app.name, "demo");
    assert_eq!(app.git, "git://demo");
    assert_eq!(hashes(&app), vec!["aa", "bb"]);
}

#[test]
fn list_groups_versions_by_application() {
    let apps = vec![po(1, "one"), po(2, "two"), po(3, "three")];
    let versions =
        vec![version("a1", 1), version("b1", 2), version("a2", 1), version("x", 9), version("a3", 1)];
    let page = list(&apps, 17, &versions);
    assert_eq!(page.total, 17);
    assert_eq!(page.data.len(), 3);
    assert_eq!(page.data[0].name, "one");
    assert_eq!(hashes(&page.data[0]), vec!["a3", "a2", "a1"]);
    assert_eq!(hashes(&page.data[1]), vec!["b1"]);
    assert!(page.data[2].versions.is_empty());
    assert_eq!(page.data[2].git, "git://three");
}

#[test]
fn list_gives_versions_to_the_first_of_equal_ids() {
    let apps = vec![po(1, "one"), po(1, "again")];
    let page = list(&apps, 2, &vec![version("a1", 1)]);
    assert_eq!(hashes(&page.data[0]), vec!["a1"]);
    assert!(page.data[1].versions.is_empty());
    let empty = list(&Vec::new(), 0, &vec![version("a1", 1)]);
    assert_eq!(empty.total, 0);
    assert!(empty.data.is_empty());
}

#[test]
fn application_commands() {
    let cmd = clone_command("git://demo", "/data/apps/demo/code");
    assert_eq!(cmd.program, "git");
    assert_eq!(cmd.args, vec!["clone", "git://demo", "/data/apps/demo/code"]);
    assert_eq!(cmd.cwd, None);
    let cmd = checkout_command("abc123", "/code");
    assert_eq!(cmd.program, "git");
    assert_eq!(cmd.args, vec!["checkout", "abc123", "/code"]);
    assert_eq!(cmd.cwd, Some("/code".to_string()));
    let cmd = script_command("set -e\necho hello", "/code");
    assert_eq!(cmd.program, "bash");
    assert_eq!(cmd.args, vec!["-c", "set -e\necho hello"]);
    assert_eq!(cmd.cwd, Some("/code".to_string()));
}
