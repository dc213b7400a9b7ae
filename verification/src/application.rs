//! Applications that are built from a git checkout: their records, their
//! working directories and the commands that fetch and build them.

use crate::command::{texts, Command, CommandModel};
use crate::id::IdGenerator;
use crate::repository::PageList;
use crate::text::{join, joined};
use vstd::prelude::*;

verus! {

/// Opaque identifier of an application.
#[derive(Debug, Clone, Copy, PartialEq, Eq, Hash, Structural)]
pub struct AppId(pub i64);

impl AppId {
    /// A fresh identifier from `ids`: above every identifier that `ids`
    /// has issued before.
    pub fn next_id(ids: &mut IdGenerator) -> (id: AppId)
        ensures
            final(ids).node_identity() == old(ids).node_identity(),
            final(ids).last_issued() == Some(id.0),
            old(ids).last_issued() matches Some(prev) ==> id.0 >= prev && (prev < i64::MAX ==> id.0
                > prev),
    {
        AppId(ids.next())
    }
}

/// One built version of an application, named by its commit.
#[derive(Debug)]
pub struct AppVersioned {
    pub hash: String,
}

/// An application with the versions built of it.
#[derive(Debug)]
pub struct Application {
    pub id: AppId,
    pub name: String,
    pub git: String,
    pub versions: Vec<AppVersioned>,
}

/// What an [`Application`] is, as plain values.
pub struct ApplicationModel {
    pub id: AppId,
    pub name: Seq<char>,
    pub git: Seq<char>,
    pub versions: Seq<Seq<char>>,
}

/// The commit of each version, in order.
pub open spec fn version_hashes(versions: Seq<AppVersioned>) -> Seq<Seq<char>> {
    Seq::new(versions.len(), |i: int| versions[i].hash@)
}

impl View for Application {
    type V = ApplicationModel;

    open spec fn view(&self) -> ApplicationModel {
        ApplicationModel {
            id: self.id,
            name: self.name@,
            git: self.git@,
            versions: version_hashes(self.versions@),
        }
    }
}

/// The scripts that build and install an application.
#[derive(Debug)]
pub struct AppScripts {
    pub build: String,
    pub install: String,
}

/// What an operator gives to create an application.
#[derive(Debug)]
pub struct CreateAppParams {
    pub name: String,
    pub git: String,
    pub scripts: AppScripts,
}

/// The working directory of one application.
#[derive(Debug)]
pub struct AppDir(pub String);

impl View for AppDir {
    type V = Seq<char>;

    open spec fn view(&self) -> Seq<char> {
        self.0@
    }
}

impl AppDir {
    /// Where the checkout lives.
    pub fn code_dir(&self) -> (path: String)
        ensures
            path@ == joined(self@, "code"@),
    {
        join(self.0.as_str(), "code")
    }

    /// Where build results go.
    pub fn build_out_dir(&self) -> (path: String)
        ensures
            path@ == joined(self@, "build-out"@),
    {
        join(self.0.as_str(), "build-out")
    }

    /// The build script.
    pub fn build_script_path(&self) -> (path: String)
        ensures
            path@ == joined(self@, "build.sh"@),
    {
        join(self.0.as_str(), "build.sh")
    }

    /// The install script.
    pub fn install_script_path(&self) -> (path: String)
        ensures
            path@ == joined(self@, "install.sh"@),
    {
        join(self.0.as_str(), "install.sh")
    }
}

/// The stored form of an application, without its versions.
#[derive(Debug)]
pub struct ApplicaionPo {
    pub id: AppId,
    pub name: String,
    pub git_url: String,
}

/// The stored form of one version.
#[derive(Debug)]
pub struct AppVersionPo {
    pub hash: String,
    pub app_id: AppId,
}

/// The commits among `versions[from..]` that belong to the application
/// `id`, the last stored first.
pub open spec fn hashes_from(versions: Seq<AppVersionPo>, id: AppId, from: int) -> Seq<Seq<char>>
    decreases versions.len() - from,
{
    if from < 0 || from >= versions.len() {
        Seq::empty()
    } else if versions[from].app_id == id {
        hashes_from(versions, id, from + 1).push(versions[from].hash@)
    } else {
        hashes_from(versions, id, from + 1)
    }
}

/// Whether an earlier one of `apps` than the one at `at` has its
/// identifier.
pub open spec fn listed_before(apps: Seq<ApplicaionPo>, at: int) -> bool {
    exists|j: int| 0 <= j < at && (#[trigger] apps[j]).id == apps[at].id
}

/// The application that the stored record at `at` stands for on a page:
/// it carries the versions stored for its identifier, the last stored
/// first. Should an identifier occur twice on a page, only its first
/// record carries them.
pub open spec fn assembled(apps: Seq<ApplicaionPo>, versions: Seq<AppVersionPo>, at: int)
    -> ApplicationModel {
    ApplicationModel {
        id: apps[at].id,
        name: apps[at].name@,
        git: apps[at].git_url@,
        versions: if listed_before(apps, at) {
            Seq::empty()
        } else {
            hashes_from(versions, apps[at].id, 0)
        },
    }
}

impl ApplicaionPo {
    /// The stored form of `app`.
    pub fn from(app: &Application) -> (po: ApplicaionPo)
        ensures
            po.id == app.id,
            po.name@ == app.name@,
            po.git_url@ == app.git@,
    {
        ApplicaionPo { id: app.id, name: app.name.clone(), git_url: app.git.clone() }
    }
}

impl Application {
    /// An application of which nothing has been built yet.
    pub fn new(id: AppId, name: String, git: String) -> (app: Application)
        ensures
            app@ == (ApplicationModel { id, name: name@, git: git@, versions: Seq::empty() }),
    {
        let app = Application { id, name, git, versions: Vec::new() };
        assert(version_hashes(app.versions@) =~= Seq::<Seq<char>>::empty());
        app
    }

    /// The application that a stored record and the given stored versions
    /// stand for. Every version given is taken, in order.
    pub fn from_rows(po: ApplicaionPo, versions: &Vec<AppVersionPo>) -> (app: Application)
        ensures
            app@ == (ApplicationModel {
                id: po.id,
                name: po.name@,
                git: po.git_url@,
                versions: Seq::new(versions.len() as nat, |i: int| versions@[i].hash@),
            }),
    {
        let mut built: Vec<AppVersioned> = Vec::new();
        let mut i: usize = 0;
        while i < versions.len()
            invariant
                i <= versions.len(),
                built.len() == i,
                forall|j: int| 0 <= j < i ==> built@[j].hash@ == versions@[j].hash@,
            decreases versions.len() - i,
        {
            built.push(AppVersioned { hash: versions[i].hash.clone() });
            i = i + 1;
        }
        assert(version_hashes(built@) =~= Seq::new(
            versions.len() as nat,
            |i: int| versions@[i].hash@,
        ));
        Application { id: po.id, name: po.name, git: po.git_url, versions: built }
    }
}

fn versions_of(versions: &Vec<AppVersionPo>, id: AppId) -> (built: Vec<AppVersioned>)
    ensures
        version_hashes(built@) == hashes_from(versions@, id, 0),
{
    let mut built: Vec<AppVersioned> = Vec::new();
    let mut j: usize = versions.len();
    assert(version_hashes(built@) =~= hashes_from(versions@, id, j as int));
    while j > 0
        invariant
            j <= versions.len(),
            version_hashes(built@) == hashes_from(versions@, id, j as int),
        decreases j,
    {
        j = j - 1;
        if versions[j].app_id == id {
            built.push(AppVersioned { hash: versions[j].hash.clone() });
            assert(version_hashes(built@) =~= hashes_from(versions@, id, j as int));
        }
    }
    built
}

fn seen_before(apps: &Vec<ApplicaionPo>, at: usize) -> (b: bool)
    requires
        at < apps.len(),
    ensures
        b == listed_before(apps@, at as int),
{
    let mut j: usize = 0;
    while j < at
        invariant
            j <= at < apps.len(),
            forall|k: int| 0 <= k < j ==> apps@[k].id != apps@[at as int].id,
        decreases at - j,
    {
        if apps[j].id == apps[at].id {
            return true;
        }
        j = j + 1;
    }
    false
}

/// One page of applications, put together from the stored records of the
/// page, the total that came with them, and the stored versions of the
/// applications on it.
pub fn list(apps: &Vec<ApplicaionPo>, total: i64, versions: &Vec<AppVersionPo>) -> (page: PageList<
    Application,
>)
    ensures
        page.total == total,
        page.data.len() == apps.len(),
        forall|i: int|
            0 <= i < apps.len() ==> (#[trigger] page.data@[i])@ == assembled(apps@, versions@, i),
{
    let mut data: Vec<Application> = Vec::new();
    let mut i: usize = 0;
    while i < apps.len()
        invariant
            i <= apps.len(),
            data.len() == i,
            forall|k: int| 0 <= k < i ==> (#[trigger] data@[k])@ == assembled(apps@, versions@, k),
        decreases apps.len() - i,
    {
        let built = if seen_before(apps, i) {
            let none: Vec<AppVersioned> = Vec::new();
            assert(version_hashes(none@) =~= Seq::<Seq<char>>::empty());
            none
        } else {
            versions_of(versions, apps[i].id)
        };
        data.push(
            Application {
                id: apps[i].id,
                name: apps[i].name.clone(),
                git: apps[i].git_url.clone(),
                versions: built,
            },
        );
        i = i + 1;
    }
    PageList { total, data }
}

/// Fetching the sources at `git` into `code_dir`.
pub open spec fn clone_command_of(git: Seq<char>, code_dir: Seq<char>) -> CommandModel {
    CommandModel { program: "git"@, args: seq!["clone"@, git, code_dir], cwd: None }
}

/// Checking out the commit `hash`, inside `code_dir`.
pub open spec fn checkout_command_of(hash: Seq<char>, code_dir: Seq<char>) -> CommandModel {
    CommandModel {
        program: "git"@,
        args: seq!["checkout"@, hash, code_dir],
        cwd: Some(code_dir),
    }
}

/// Running `script` with bash, inside `code_dir`.
pub open spec fn script_command_of(script: Seq<char>, code_dir: Seq<char>) -> CommandModel {
    CommandModel { program: "bash"@, args: seq!["-c"@, script], cwd: Some(code_dir) }
}

/// The command that fetches an application's sources.
pub fn clone_command(git: &str, code_dir: &str) -> (command: Command)
    ensures
        command@ == clone_command_of(git@, code_dir@),
{
    let mut args: Vec<String> = Vec::new();
    args.push(String::from_str("clone"));
    args.push(String::from_str(git));
    args.push(String::from_str(code_dir));
    assert(texts(args@) =~= clone_command_of(git@, code_dir@).args);
    Command::new(String::from_str("git"), args)
}

/// The command that checks out one commit of an application.
pub fn checkout_command(hash: &str, code_dir: &str) -> (command: Command)
    ensures
        command@ == checkout_command_of(hash@, code_dir@),
{
    let mut args: Vec<String> = Vec::new();
    args.push(String::from_str("checkout"));
    args.push(String::from_str(hash));
    args.push(String::from_str(code_dir));
    assert(texts(args@) =~= checkout_command_of(hash@, code_dir@).args);
    Command::new(String::from_str("git"), args).current_dir(String::from_str(code_dir))
}

/// The command that runs a build or install script.
pub fn script_command(script: &str, code_dir: &str) -> (command: Command)
    ensures
        command@ == script_command_of(script@, code_dir@),
{
    let mut args: Vec<String> = Vec::new();
    args.push(String::from_str("-c"));
    args.push(String::from_str(script));
    assert(texts(args@) =~= script_command_of(script@, code_dir@).args);
    Command::new(String::from_str("bash"), args).current_dir(String::from_str(code_dir))
}

} // verus!
