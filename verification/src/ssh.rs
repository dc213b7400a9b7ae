//! Reaching a host over ssh: what is known of it before enrollment, where
//! its key lives, and the commands that probe it, run on it and copy to
//! it.

use crate::command::{texts, Command, CommandModel};
use crate::settings::{
    ssh_global_dir_of, ssh_key_dir_of, ssh_key_tmp_dir_of, DataDir, Settings,
};
use crate::text::{concat2, concat3, decimal, decimal_string, is_absolute, join, joined};
use vstd::prelude::*;

verus! {

/// What is known of a host before it is enrolled.
#[derive(Debug)]
pub struct HostBuilder {
    pub name: String,
    pub ip: String,
    pub port: u16,
    pub user: String,
    pub key: Option<String>,
}

/// What a [`HostBuilder`] is, as plain values.
pub struct HostBuilderModel {
    pub name: Seq<char>,
    pub ip: Seq<char>,
    pub port: u16,
    pub user: Seq<char>,
    pub key: Option<Seq<char>>,
}

impl View for HostBuilder {
    type V = HostBuilderModel;

    open spec fn view(&self) -> HostBuilderModel {
        HostBuilderModel {
            name: self.name@,
            ip: self.ip@,
            port: self.port,
            user: self.user@,
            key: match self.key {
                Some(key) => Some(key@),
                None => None,
            },
        }
    }
}

/// A request to enroll a host. Port, user and key may be left out.
#[derive(Debug)]
pub struct CreateHostParams {
    pub name: String,
    pub ip: String,
    pub port: Option<u16>,
    pub user: Option<String>,
    pub key: Option<String>,
}

/// What enrollment needs to know of the controller's own installation.
#[derive(Debug)]
pub struct Site {
    /// The data root.
    pub data_dir: DataDir,
    /// The port on which agents listen.
    pub agent_port: u16,
    /// The directory that holds the agent's service-unit descriptor.
    pub config_dir: String,
}

/// What a [`Site`] is, as plain values.
pub struct SiteModel {
    pub data_root: Seq<char>,
    pub agent_port: u16,
    pub config_dir: Seq<char>,
}

impl View for Site {
    type V = SiteModel;

    open spec fn view(&self) -> SiteModel {
        SiteModel {
            data_root: self.data_dir@,
            agent_port: self.agent_port,
            config_dir: self.config_dir@,
        }
    }
}

/// `user@address`, as ssh and scp name the remote side.
pub open spec fn ssh_url_of(b: HostBuilderModel) -> Seq<char> {
    b.user + "@"@ + b.ip
}

/// The file name of a per-host key.
pub open spec fn key_file_of(ip: Seq<char>) -> Seq<char> {
    "id_"@ + ip
}

/// The fallback key.
pub open spec fn global_key_path_of(root: Seq<char>) -> Seq<char> {
    joined(ssh_global_dir_of(root), "id_rsa"@)
}

/// Where a supplied key is staged until it has proved itself.
pub open spec fn tmp_key_path_of(root: Seq<char>, ip: Seq<char>) -> Seq<char> {
    joined(ssh_key_tmp_dir_of(root), key_file_of(ip))
}

/// Where a proven per-host key lives.
pub open spec fn committed_key_path_of(root: Seq<char>, ip: Seq<char>) -> Seq<char> {
    joined(ssh_key_dir_of(root), key_file_of(ip))
}

/// The key that setup commands authenticate with: the host's committed key
/// if one was supplied, the fallback key otherwise. Never the staged one.
pub open spec fn identity_of(root: Seq<char>, b: HostBuilderModel) -> Seq<char> {
    if b.key is Some {
        committed_key_path_of(root, b.ip)
    } else {
        global_key_path_of(root)
    }
}

/// The probe: a remote `exit 0` that changes nothing, never prompts, gives
/// up connecting after five seconds and accepts the host key as it comes.
pub open spec fn probe_command_of(key_path: Seq<char>, b: HostBuilderModel) -> CommandModel {
    CommandModel {
        program: "ssh"@,
        args: seq![
            "-q"@,
            "-o"@,
            "BatchMode=yes"@,
            "-o"@,
            "StrictHostKeyChecking=no"@,
            "-o"@,
            "ConnectTimeout=5"@,
            "-p"@,
            decimal(b.port as nat),
            "-i"@,
            key_path,
            ssh_url_of(b),
            "exit 0"@,
        ],
        cwd: None,
    }
}

/// Running `line` on the host.
pub open spec fn remote_command_of(root: Seq<char>, b: HostBuilderModel, line: Seq<char>)
    -> CommandModel {
    CommandModel {
        program: "ssh"@,
        args: seq![
            "-i"@,
            identity_of(root, b),
            "-p"@,
            decimal(b.port as nat),
            ssh_url_of(b),
            line,
        ],
        cwd: None,
    }
}

/// Copying the local `src` to `dst` on the host.
pub open spec fn copy_command_of(
    root: Seq<char>,
    b: HostBuilderModel,
    src: Seq<char>,
    dst: Seq<char>,
) -> CommandModel {
    CommandModel {
        program: "scp"@,
        args: seq![
            "-O"@,
            "-i"@,
            identity_of(root, b),
            "-r"@,
            "-P"@,
            decimal(b.port as nat),
            src,
            ssh_url_of(b) + ":"@ + dst,
        ],
        cwd: None,
    }
}

fn push_text(v: &mut Vec<String>, s: &str)
    ensures
        texts(final(v)@) == texts(old(v)@).push(s@),
{
    v.push(String::from_str(s));
    assert(texts(v@) =~= texts(old(v)@).push(s@));
}

impl CreateHostParams {
    /// The builder for this request: port 22 and user `root` where the
    /// request names none, the fallback key where it brings none.
    pub fn into_builder(self) -> (b: HostBuilder)
        ensures
            b@ == (HostBuilderModel {
                name: self.name@,
                ip: self.ip@,
                port: match self.port {
                    Some(port) => port,
                    None => 22,
                },
                user: match self.user {
                    Some(user) => user@,
                    None => "root"@,
                },
                key: match self.key {
                    Some(key) => Some(key@),
                    None => None,
                },
            }),
    {
        let mut builder = HostBuilder::new(self.name, self.ip);
        if let Some(port) = self.port {
            builder = builder.port(port);
        }
        if let Some(user) = self.user {
            builder = builder.user(user);
        }
        if let Some(key) = self.key {
            builder = builder.key(key);
        }
        builder
    }
}

impl Site {
    /// The site that `settings` describes, with the service-unit
    /// descriptor kept in `config_dir`.
    pub fn new(settings: &Settings, config_dir: &str) -> (site: Site)
        ensures
            site@ == (SiteModel {
                data_root: settings.data_dir@,
                agent_port: settings.envoy.port,
                config_dir: config_dir@,
            }),
    {
        Site {
            data_dir: DataDir(settings.data_dir.0.clone()),
            agent_port: settings.envoy.port,
            config_dir: String::from_str(config_dir),
        }
    }

    /// The path of the fallback key.
    pub fn ssh_global_key_path(&self) -> (path: String)
        ensures
            path@ == global_key_path_of(self@.data_root),
    {
        let dir = self.data_dir.ssh_global_dir();
        join(dir.as_str(), "id_rsa")
    }
}

impl HostBuilder {
    /// A host to enroll as `root` on port 22 with the fallback key.
    pub fn new(name: String, ip: String) -> (b: HostBuilder)
        ensures
            b@ == (HostBuilderModel {
                name: name@,
                ip: ip@,
                port: 22,
                user: "root"@,
                key: None,
            }),
    {
        HostBuilder { name, ip, port: 22, user: String::from_str("root"), key: None }
    }

    /// The same, reached on another ssh port.
    pub fn port(self, port: u16) -> (b: HostBuilder)
        ensures
            b@ == (HostBuilderModel { port, ..self@ }),
    {
        HostBuilder { name: self.name, ip: self.ip, port, user: self.user, key: self.key }
    }

    /// The same, logged into as another user.
    pub fn user(self, user: String) -> (b: HostBuilder)
        ensures
            b@ == (HostBuilderModel { user: user@, ..self@ }),
    {
        HostBuilder { name: self.name, ip: self.ip, port: self.port, user, key: self.key }
    }

    /// The same, with a key of its own.
    pub fn key(self, key: String) -> (b: HostBuilder)
        ensures
            b@ == (HostBuilderModel { key: Some(key@), ..self@ }),
    {
        HostBuilder {
            name: self.name,
            ip: self.ip,
            port: self.port,
            user: self.user,
            key: Some(key),
        }
    }

    /// `user@address`.
    pub fn ssh_url(&self) -> (url: String)
        ensures
            url@ == ssh_url_of(self@),
    {
        concat3(self.user.as_str(), "@", self.ip.as_str())
    }

    /// Where this host's key is staged.
    pub fn ssh_key_tmp_path(&self, site: &Site) -> (path: String)
        ensures
            path@ == tmp_key_path_of(site@.data_root, self@.ip),
    {
        let dir = site.data_dir.ssh_key_tmp_dir();
        let file = concat2("id_", self.ip.as_str());
        join(dir.as_str(), file.as_str())
    }

    /// The key that setup commands authenticate with.
    pub fn ssh_key_path(&self, site: &Site) -> (path: String)
        ensures
            path@ == identity_of(site@.data_root, self@),
    {
        if self.key.is_none() {
            return site.ssh_global_key_path();
        }
        self.ssh_committed_key_path(site)
    }

    /// Where this host's key lives once it has proved itself.
    pub fn ssh_committed_key_path(&self, site: &Site) -> (path: String)
        ensures
            path@ == committed_key_path_of(site@.data_root, self@.ip),
    {
        let dir = site.data_dir.ssh_key_dir();
        let file = concat2("id_", self.ip.as_str());
        join(dir.as_str(), file.as_str())
    }

    /// The probe of this host with the key at `key_path`.
    pub fn test_ssh_conn(&self, key_path: &str) -> (command: Command)
        ensures
            command@ == probe_command_of(key_path@, self@),
    {
        let port = decimal_string(self.port as u64);
        let url = self.ssh_url();
        let mut args: Vec<String> = Vec::new();
        push_text(&mut args, "-q");
        push_text(&mut args, "-o");
        push_text(&mut args, "BatchMode=yes");
        push_text(&mut args, "-o");
        push_text(&mut args, "StrictHostKeyChecking=no");
        push_text(&mut args, "-o");
        push_text(&mut args, "ConnectTimeout=5");
        push_text(&mut args, "-p");
        push_text(&mut args, port.as_str());
        push_text(&mut args, "-i");
        push_text(&mut args, key_path);
        push_text(&mut args, url.as_str());
        push_text(&mut args, "exit 0");
        assert(texts(args@) =~= probe_command_of(key_path@, self@).args);
        Command::new(String::from_str("ssh"), args)
    }

    /// The command that runs `line` on this host.
    pub fn run_ssh_cmd(&self, site: &Site, line: &str) -> (command: Command)
        ensures
            command@ == remote_command_of(site@.data_root, self@, line@),
    {
        let port = decimal_string(self.port as u64);
        let identity = self.ssh_key_path(site);
        let url = self.ssh_url();
        let mut args: Vec<String> = Vec::new();
        push_text(&mut args, "-i");
        push_text(&mut args, identity.as_str());
        push_text(&mut args, "-p");
        push_text(&mut args, port.as_str());
        push_text(&mut args, url.as_str());
        push_text(&mut args, line);
        assert(texts(args@) =~= remote_command_of(site@.data_root, self@, line@).args);
        Command::new(String::from_str("ssh"), args)
    }

    /// The command that copies the local `src` to `dst` on this host.
    pub fn scp(&self, site: &Site, src: &str, dst: &str) -> (command: Command)
        ensures
            command@ == copy_command_of(site@.data_root, self@, src@, dst@),
    {
        let target = concat3(self.ssh_url().as_str(), ":", dst);
        let port = decimal_string(self.port as u64);
        let identity = self.ssh_key_path(site);
        let mut args: Vec<String> = Vec::new();
        push_text(&mut args, "-O");
        push_text(&mut args, "-i");
        push_text(&mut args, identity.as_str());
        push_text(&mut args, "-r");
        push_text(&mut args, "-P");
        push_text(&mut args, port.as_str());
        push_text(&mut args, src);
        push_text(&mut args, target.as_str());
        assert(texts(args@) =~= copy_command_of(site@.data_root, self@, src@, dst@).args);
        Command::new(String::from_str("scp"), args)
    }
}

/// The staging path is never the identity of a setup command: a key is
/// used for setup only from its permanent path.
pub proof fn lemma_staged_key_is_never_the_identity(root: Seq<char>, b: HostBuilderModel)
    ensures
        identity_of(root, b) != tmp_key_path_of(root, b.ip),
{
    reveal_strlit("ssh");
    reveal_strlit("tmp");
    reveal_strlit("keys");
    reveal_strlit("global");
    reveal_strlit("id_");
    reveal_strlit("id_rsa");
    let slash = seq!['/'];
    let s = joined(root, "ssh"@);
    assert(!is_absolute("ssh"@));
    assert(s =~= root + "ssh"@ || s =~= root + slash + "ssh"@);
    assert(s.len() >= 3);
    assert(s.last() == 'h');
    let n = s.len() as int;
    let file = key_file_of(b.ip);
    assert(file[0] == 'i');
    assert(!is_absolute(file));

    let t = ssh_key_tmp_dir_of(root);
    assert(t =~= s + slash + "tmp"@);
    assert(t.last() == 'p');
    let staged = tmp_key_path_of(root, b.ip);
    assert(staged =~= t + slash + file);
    assert(staged[n + 1] == 't');

    if b.key is Some {
        let k = ssh_key_dir_of(root);
        assert(k =~= s + slash + "keys"@);
        assert(k.last() == 's');
        let committed = committed_key_path_of(root, b.ip);
        assert(committed =~= k + slash + file);
        assert(committed[n + 1] == 'k');
    } else {
        let g = ssh_global_dir_of(root);
        assert(g =~= s + slash + "global"@);
        assert(g.last() == 'l');
        assert(!is_absolute("id_rsa"@));
        let fallback = global_key_path_of(root);
        assert(fallback =~= g + slash + "id_rsa"@);
        assert(fallback[n + 1] == 'g');
    }
}

/// Keys of different hosts never share a file: two addresses that differ
/// have different staging paths and different permanent paths, so
/// enrollments of different hosts cannot disturb each other.
pub proof fn lemma_key_paths_do_not_collide(root: Seq<char>, ip1: Seq<char>, ip2: Seq<char>)
    requires
        ip1 != ip2,
    ensures
        tmp_key_path_of(root, ip1) != tmp_key_path_of(root, ip2),
        committed_key_path_of(root, ip1) != committed_key_path_of(root, ip2),
{
    reveal_strlit("ssh");
    reveal_strlit("tmp");
    reveal_strlit("keys");
    reveal_strlit("id_");
    let slash = seq!['/'];
    let s = joined(root, "ssh"@);
    assert(!is_absolute("ssh"@));
    assert(s =~= root + "ssh"@ || s =~= root + slash + "ssh"@);
    assert(s.last() == 'h');
    let t = ssh_key_tmp_dir_of(root);
    assert(t =~= s + slash + "tmp"@);
    assert(t.last() == 'p');
    let k = ssh_key_dir_of(root);
    assert(k =~= s + slash + "keys"@);
    assert(k.last() == 's');
    let f1 = key_file_of(ip1);
    let f2 = key_file_of(ip2);
    assert(f1[0] == 'i' && f2[0] == 'i');
    assert(!is_absolute(f1) && !is_absolute(f2));
    let head_t = t + slash + "id_"@;
    let head_k = k + slash + "id_"@;
    assert(tmp_key_path_of(root, ip1) =~= head_t + ip1);
    assert(tmp_key_path_of(root, ip2) =~= head_t + ip2);
    assert(committed_key_path_of(root, ip1) =~= head_k + ip1);
    assert(committed_key_path_of(root, ip2) =~= head_k + ip2);
    if head_t + ip1 == head_t + ip2 {
        assert((head_t + ip1).subrange(head_t.len() as int, (head_t + ip1).len() as int) =~= ip1);
        assert((head_t + ip2).subrange(head_t.len() as int, (head_t + ip2).len() as int) =~= ip2);
        assert(false);
    }
    if head_k + ip1 == head_k + ip2 {
        assert((head_k + ip1).subrange(head_k.len() as int, (head_k + ip1).len() as int) =~= ip1);
        assert((head_k + ip2).subrange(head_k.len() as int, (head_k + ip2).len() as int) =~= ip2);
        assert(false);
    }
}

} // verus!
