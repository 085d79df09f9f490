//! Directory layout of a `systemd-nspawn` test container and the command lines that set
//! up, start, query and stop it.
use vstd::prelude::*;
use crate::nix::string_views;
use crate::path::{join_path, law_path_join_parts, path_join};

verus! {

/// Where the files of the container `name` live, below the scratch directory `tmp`:
/// `<tmp>/containers/<name>` holds `root`, `profiles` and `gcroots`, and the system
/// profile is `profiles/system`.
pub struct NspawnLayout {
    name: String,
    container_dir: String,
    root: String,
    profiles: String,
    gcroots: String,
    system_profile: String,
}

/// The directory of the container `name` below the scratch directory `tmp`.
pub open spec fn container_dir_spec(tmp: Seq<char>, name: Seq<char>) -> Seq<char> {
    path_join(path_join(tmp, "containers"@), name)
}

impl NspawnLayout {
    /// The machine name of the container.
    pub closed spec fn name_view(&self) -> Seq<char> {
        self.name@
    }

    /// The directory that holds everything of the container.
    pub closed spec fn container_dir_view(&self) -> Seq<char> {
        self.container_dir@
    }

    /// The container's root file system.
    pub closed spec fn root_view(&self) -> Seq<char> {
        self.root@
    }

    /// The directory mounted as the container's Nix profiles.
    pub closed spec fn profiles_view(&self) -> Seq<char> {
        self.profiles@
    }

    /// The directory mounted as the container's Nix garbage-collector roots.
    pub closed spec fn gcroots_view(&self) -> Seq<char> {
        self.gcroots@
    }

    /// The profile that is set to the system to boot.
    pub closed spec fn system_profile_view(&self) -> Seq<char> {
        self.system_profile@
    }

    /// The layout of the container `name` below the scratch directory `tmp`.
    pub fn new(tmp: &str, name: &str) -> (res: Self)
        ensures
            res.name_view() == name@,
            res.container_dir_view() == container_dir_spec(tmp@, name@),
            res.root_view() == path_join(container_dir_spec(tmp@, name@), "root"@),
            res.profiles_view() == path_join(container_dir_spec(tmp@, name@), "profiles"@),
            res.gcroots_view() == path_join(container_dir_spec(tmp@, name@), "gcroots"@),
            res.system_profile_view() == path_join(
                path_join(container_dir_spec(tmp@, name@), "profiles"@),
                "system"@,
            ),
    {
        let containers = join_path(tmp, "containers");
        let container_dir = join_path(containers.as_str(), name);
        let root = join_path(container_dir.as_str(), "root");
        let profiles = join_path(container_dir.as_str(), "profiles");
        let gcroots = join_path(container_dir.as_str(), "gcroots");
        let system_profile = join_path(profiles.as_str(), "system");
        NspawnLayout {
            name: String::from_str(name),
            container_dir,
            root,
            profiles,
            gcroots,
            system_profile,
        }
    }

    /// The machine name of the container.
    pub fn name(&self) -> (res: &str)
        ensures
            res@ == self.name_view(),
    {
        self.name.as_str()
    }

    /// The directory that holds everything of the container.
    pub fn container_dir(&self) -> (res: &str)
        ensures
            res@ == self.container_dir_view(),
    {
        self.container_dir.as_str()
    }

    /// The container's root file system.
    pub fn root(&self) -> (res: &str)
        ensures
            res@ == self.root_view(),
    {
        self.root.as_str()
    }

    /// The directory mounted as the container's Nix profiles.
    pub fn profiles(&self) -> (res: &str)
        ensures
            res@ == self.profiles_view(),
    {
        self.profiles.as_str()
    }

    /// The directory mounted as the container's Nix garbage-collector roots.
    pub fn gcroots(&self) -> (res: &str)
        ensures
            res@ == self.gcroots_view(),
    {
        self.gcroots.as_str()
    }

    /// The profile that is set to the system to boot.
    pub fn system_profile(&self) -> (res: &str)
        ensures
            res@ == self.system_profile_view(),
    {
        self.system_profile.as_str()
    }
}

/// The arguments of `nix-env` that point the profile `profile` at the store path
/// `artifact`.
pub open spec fn nix_env_set_args_spec(profile: Seq<char>, artifact: Seq<char>) -> Seq<Seq<char>> {
    seq!["-p"@, profile, "--set"@, artifact]
}

/// Builds the arguments of `nix-env` that point `profile` at `artifact`.
pub fn nix_env_set_args(profile: &str, artifact: &str) -> (res: Vec<String>)
    ensures
        string_views(res@) == nix_env_set_args_spec(profile@, artifact@),
        res@.len() == 4,
        res@[1]@ == profile@,
        res@[3]@ == artifact@,
{
    let mut res: Vec<String> = Vec::new();
    res.push(String::from_str("-p"));
    res.push(String::from_str(profile));
    res.push(String::from_str("--set"));
    res.push(String::from_str(artifact));
    assert(string_views(res@) =~= nix_env_set_args_spec(profile@, artifact@));
    res
}

/// A read-write bind mount of the host directory `source` at `target`, with the user
/// namespace's id mapping: `--bind=<source>:<target>:idmap`.
pub open spec fn bind_arg_spec(source: Seq<char>, target: Seq<char>) -> Seq<char> {
    "--bind="@ + source + ":"@ + target + ":idmap"@
}

/// Builds the `systemd-nspawn` argument that binds `source` at `target`.
pub fn bind_arg(source: &str, target: &str) -> (res: String)
    ensures
        res@ == bind_arg_spec(source@, target@),
{
    String::from_str("--bind=").concat(source).concat(":").concat(target).concat(":idmap")
}

/// The arguments of `systemd-nspawn` that boot the container laid out as `layout`:
/// named after the container, on its root directory, in the current unit, with private
/// users and network, signalling readiness, with the host's Nix store and database
/// mounted read-only and its own profiles and garbage-collector roots mounted
/// read-write, running the init of its system profile.
pub open spec fn nspawn_args_spec(layout: NspawnLayout) -> Seq<Seq<char>> {
    seq![
        "--machine"@,
        layout.name_view(),
        "--directory"@,
        layout.root_view(),
        "--keep-unit"@,
        "--private-users=pick"@,
        "--private-users-ownership=auto"@,
        "--private-network"@,
        "--notify-ready=yes"@,
        "--boot"@,
        "--bind-ro=/nix/store:/nix/store:idmap"@,
        "--bind-ro=/nix/var/nix/db:/nix/var/nix/db:idmap"@,
        "--bind-ro=/nix/var/nix/db:/nix/var/nix/daemon-socket:idmap"@,
        bind_arg_spec(layout.profiles_view(), "/nix/var/nix/profiles"@),
        bind_arg_spec(layout.gcroots_view(), "/nix/var/nix/gcroots"@),
        "/nix/var/nix/profiles/system/init"@,
    ]
}

/// Builds the arguments of `systemd-nspawn` that boot the container laid out as
/// `layout`.
pub fn nspawn_args(layout: &NspawnLayout) -> (res: Vec<String>)
    ensures
        string_views(res@) == nspawn_args_spec(*layout),
        res@.len() == 16,
        res@[1]@ == layout.name_view(),
        res@[3]@ == layout.root_view(),
{
    let mut res: Vec<String> = Vec::new();
    res.push(String::from_str("--machine"));
    res.push(String::from_str(layout.name()));
    res.push(String::from_str("--directory"));
    res.push(String::from_str(layout.root()));
    res.push(String::from_str("--keep-unit"));
    res.push(String::from_str("--private-users=pick"));
    res.push(String::from_str("--private-users-ownership=auto"));
    res.push(String::from_str("--private-network"));
    res.push(String::from_str("--notify-ready=yes"));
    res.push(String::from_str("--boot"));
    res.push(String::from_str("--bind-ro=/nix/store:/nix/store:idmap"));
    res.push(String::from_str("--bind-ro=/nix/var/nix/db:/nix/var/nix/db:idmap"));
    res.push(String::from_str("--bind-ro=/nix/var/nix/db:/nix/var/nix/daemon-socket:idmap"));
    res.push(bind_arg(layout.profiles(), "/nix/var/nix/profiles"));
    res.push(bind_arg(layout.gcroots(), "/nix/var/nix/gcroots"));
    res.push(String::from_str("/nix/var/nix/profiles/system/init"));
    assert(string_views(res@) =~= nspawn_args_spec(*layout));
    res
}

/// The arguments of `machinectl` that run its command `command` on the machine
/// `machine`.
pub open spec fn machinectl_args_spec(command: Seq<char>, machine: Seq<char>) -> Seq<Seq<char>> {
    seq![command, machine]
}

/// Builds the arguments of `machinectl` that run `command` (such as `status` or
/// `terminate`) on `machine`.
pub fn machinectl_args(command: &str, machine: &str) -> (res: Vec<String>)
    ensures
        string_views(res@) == machinectl_args_spec(command@, machine@),
        res@.len() == 2,
        res@[0]@ == command@,
        res@[1]@ == machine@,
{
    let mut res: Vec<String> = Vec::new();
    res.push(String::from_str(command));
    res.push(String::from_str(machine));
    assert(string_views(res@) =~= machinectl_args_spec(command@, machine@));
    res
}

/// The bind argument names the whole source directory and the whole target, in that
/// order, between the fixed `--bind=`, `:` and `:idmap`.
pub proof fn law_bind_arg_parts(source: Seq<char>, target: Seq<char>)
    ensures
        ({
            let a = bind_arg_spec(source, target);
            let s = source.len() as int;
            let t = target.len() as int;
            &&& a.len() == 7 + s + 1 + t + 6
            &&& a.subrange(0, 7) == seq!['-', '-', 'b', 'i', 'n', 'd', '=']
            &&& a.subrange(7, 7 + s) == source
            &&& a[7 + s] == ':'
            &&& a.subrange(8 + s, 8 + s + t) == target
            &&& a.subrange(8 + s + t, 14 + s + t) == seq![':', 'i', 'd', 'm', 'a', 'p']
        }),
{
    reveal_strlit("--bind=");
    reveal_strlit(":");
    reveal_strlit(":idmap");
    let a = bind_arg_spec(source, target);
    let s = source.len() as int;
    let t = target.len() as int;
    assert(a.subrange(0, 7) =~= seq!['-', '-', 'b', 'i', 'n', 'd', '=']);
    assert(a.subrange(7, 7 + s) =~= source);
    assert(a.subrange(8 + s, 8 + s + t) =~= target);
    assert(a.subrange(8 + s + t, 14 + s + t) =~= seq![':', 'i', 'd', 'm', 'a', 'p']);
}

/// The container is booted under its own name, the very name that `machinectl` is
/// later given to query or stop it; it boots from its root directory, and its profiles
/// and garbage-collector roots are the directories bound into it.
pub proof fn law_nspawn_args_name_container(layout: NspawnLayout, command: Seq<char>)
    ensures
        nspawn_args_spec(layout).len() == 16,
        nspawn_args_spec(layout)[0] == "--machine"@,
        nspawn_args_spec(layout)[1] == layout.name_view(),
        nspawn_args_spec(layout)[1] == machinectl_args_spec(command, layout.name_view())[1],
        nspawn_args_spec(layout)[2] == "--directory"@,
        nspawn_args_spec(layout)[3] == layout.root_view(),
        nspawn_args_spec(layout)[13].subrange(7, 7 + layout.profiles_view().len() as int)
            == layout.profiles_view(),
        nspawn_args_spec(layout)[14].subrange(7, 7 + layout.gcroots_view().len() as int)
            == layout.gcroots_view(),
{
    law_bind_arg_parts(layout.profiles_view(), "/nix/var/nix/profiles"@);
    law_bind_arg_parts(layout.gcroots_view(), "/nix/var/nix/gcroots"@);
}

/// `nix-env` is pointed at the given profile and given store path, both unchanged.
pub proof fn law_nix_env_set_args_parts(profile: Seq<char>, artifact: Seq<char>)
    ensures
        nix_env_set_args_spec(profile, artifact).len() == 4,
        nix_env_set_args_spec(profile, artifact)[0] == "-p"@,
        nix_env_set_args_spec(profile, artifact)[1] == profile,
        nix_env_set_args_spec(profile, artifact)[2] == "--set"@,
        nix_env_set_args_spec(profile, artifact)[3] == artifact,
{
}

/// `machinectl` is given the command and then the machine, both unchanged.
pub proof fn law_machinectl_args_parts(command: Seq<char>, machine: Seq<char>)
    ensures
        machinectl_args_spec(command, machine).len() == 2,
        machinectl_args_spec(command, machine)[0] == command,
        machinectl_args_spec(command, machine)[1] == machine,
{
}

/// A container's directory ends with its whole name; for a relative name it lies
/// below the `containers` directory of the scratch directory.
pub proof fn law_container_dir_parts(tmp: Seq<char>, name: Seq<char>)
    ensures
        ({
            let d = container_dir_spec(tmp, name);
            let c = path_join(tmp, "containers"@);
            &&& d.len() >= name.len()
            &&& d.subrange(d.len() - name.len(), d.len() as int) == name
            &&& !(name.len() > 0 && name[0] == '/') ==> d.subrange(0, c.len() as int) == c
        }),
{
    law_path_join_parts(path_join(tmp, "containers"@), name);
}

} // verus!
