//! The argument vocabulary of the external tool.
//!
//! Each operation of the library issues exactly one of these invocations;
//! the spec functions state the full token sequence, and the builders
//! construct it. The vocabulary is stable: it must match the external tool
//! exactly, token for token.

use vstd::prelude::*;
use vstd::slice::slice_index_get;
use vstd::string::*;

use crate::location::Location;

verus! {

/// `launch <image> <qualified-name> -e -n lxdbr0`: create an ephemeral
/// instance attached to the default bridge network.
pub open spec fn launch_cmd(base: Seq<char>, qname: Seq<char>) -> Seq<Seq<char>> {
    seq!["launch"@, base, qname, "-e"@, "-n"@, "lxdbr0"@]
}

/// `exec <qualified-name> --mode=non-interactive -n -- dhclient`: the
/// network probe run right after launch, forcing a DHCP lease so that later
/// operations do not race the instance's network coming up.
pub open spec fn probe_cmd(qname: Seq<char>) -> Seq<Seq<char>> {
    seq!["exec"@, qname, "--mode=non-interactive"@, "-n"@, "--"@, "dhclient"@]
}

/// `exec <qualified-name> -- <tokens...>`: run a command inside the
/// instance, non-interactively, with no output capture.
pub open spec fn exec_cmd(qname: Seq<char>, command: Seq<Seq<char>>) -> Seq<Seq<char>> {
    seq!["exec"@, qname, "--"@] + command
}

/// `config device add <qualified-name> <device-name> disk source=<path>
/// path=<path>`: attach a host directory as a disk device.
pub open spec fn mount_cmd(
    qname: Seq<char>,
    device: Seq<char>,
    source: Seq<char>,
    dest: Seq<char>,
) -> Seq<Seq<char>> {
    seq![
        "config"@,
        "device"@,
        "add"@,
        qname,
        device,
        "disk"@,
        "source="@ + source,
        "path="@ + dest,
    ]
}

/// `<qualified-name>/<path>`: how a path inside an instance is addressed.
/// A path that already starts with the separator is appended as it stands,
/// so that an absolute guest path yields a single separator.
pub open spec fn guest_path(qname: Seq<char>, path: Seq<char>) -> Seq<char> {
    if path.len() > 0 && path[0] == '/' {
        qname + path
    } else {
        qname + "/"@ + path
    }
}

/// `file push [-r] <host-path> <qualified-name>/<dest>`: transfer a file
/// (or, recursively, a directory tree) into the instance.
pub open spec fn push_cmd(
    qname: Seq<char>,
    source: Seq<char>,
    dest: Seq<char>,
    recursive: bool,
) -> Seq<Seq<char>> {
    if recursive {
        seq!["file"@, "push"@, "-r"@, source, guest_path(qname, dest)]
    } else {
        seq!["file"@, "push"@, source, guest_path(qname, dest)]
    }
}

/// `file pull [-r] <qualified-name>/<src> <host-path>`: transfer a file
/// (or, recursively, a directory tree) out of the instance.
pub open spec fn pull_cmd(
    qname: Seq<char>,
    source: Seq<char>,
    dest: Seq<char>,
    recursive: bool,
) -> Seq<Seq<char>> {
    if recursive {
        seq!["file"@, "pull"@, "-r"@, guest_path(qname, source), dest]
    } else {
        seq!["file"@, "pull"@, guest_path(qname, source), dest]
    }
}

/// `snapshot <qualified-name> <snapshot-name>`: capture the instance.
pub open spec fn snapshot_cmd(qname: Seq<char>, sname: Seq<char>) -> Seq<Seq<char>> {
    seq!["snapshot"@, qname, sname]
}

/// `publish <qualified-container>/<snapshot> --alias <alias>`: store a
/// snapshot as a reusable image.
pub open spec fn publish_cmd(full_snapshot: Seq<char>, alias: Seq<char>) -> Seq<Seq<char>> {
    seq!["publish"@, full_snapshot, "--alias"@, alias]
}

/// `delete <qualified-name>`: remove a resource.
pub open spec fn delete_cmd(name: Seq<char>) -> Seq<Seq<char>> {
    seq!["delete"@, name]
}

/// `stop <qualified-name>`: stop an instance; an ephemeral instance is
/// thereby also deleted.
pub open spec fn stop_cmd(name: Seq<char>) -> Seq<Seq<char>> {
    seq!["stop"@, name]
}

/// `list [<remote>:] [<name>$] --format json`: list instances, optionally
/// scoped to one name. The filter is anchored so it cannot match a mere
/// prefix of another instance's name.
pub open spec fn list_cmd(l: Location, filter: Option<Seq<char>>) -> Seq<Seq<char>> {
    let scope = match l {
        Location::Local => Seq::<Seq<char>>::empty(),
        Location::Remote(host) => seq![host@ + ":"@],
    };
    let name = match filter {
        None => Seq::<Seq<char>>::empty(),
        Some(n) => seq![n + "$"@],
    };
    seq!["list"@] + scope + name + seq!["--format"@, "json"@]
}

/// `image list [<remote>:] [<name>] --format json`: list images, optionally
/// scoped to one alias or fingerprint.
pub open spec fn image_list_cmd(l: Location, filter: Option<Seq<char>>) -> Seq<Seq<char>> {
    let scope = match l {
        Location::Local => Seq::<Seq<char>>::empty(),
        Location::Remote(host) => seq![host@ + ":"@],
    };
    let name = match filter {
        None => Seq::<Seq<char>>::empty(),
        Some(n) => seq![n],
    };
    seq!["image"@, "list"@] + scope + name + seq!["--format"@, "json"@]
}

/// Append one token to an argument list under construction.
fn push_token(v: &mut Vec<String>, s: &str)
    ensures
        final(v).deep_view() == old(v).deep_view().push(s@),
{
    v.push(s.to_owned());
    proof {
        assert(v.deep_view() =~~= old(v).deep_view().push(s@));
    }
}

/// Build the launch invocation.
pub fn launch_args(base: &str, qname: &str) -> (r: Vec<String>)
    ensures
        r.deep_view() == launch_cmd(base@, qname@),
{
    let mut v: Vec<String> = Vec::new();
    v.push("launch".to_owned());
    v.push(base.to_owned());
    v.push(qname.to_owned());
    v.push("-e".to_owned());
    v.push("-n".to_owned());
    v.push("lxdbr0".to_owned());
    proof {
        assert(v.deep_view() =~= launch_cmd(base@, qname@));
    }
    v
}

/// Build the network-probe invocation.
pub fn probe_args(qname: &str) -> (r: Vec<String>)
    ensures
        r.deep_view() == probe_cmd(qname@),
{
    let mut v: Vec<String> = Vec::new();
    v.push("exec".to_owned());
    v.push(qname.to_owned());
    v.push("--mode=non-interactive".to_owned());
    v.push("-n".to_owned());
    v.push("--".to_owned());
    v.push("dhclient".to_owned());
    proof {
        assert(v.deep_view() =~= probe_cmd(qname@));
    }
    v
}

/// Build the in-instance exec invocation.
pub fn exec_args(qname: &str, command: &[&str]) -> (r: Vec<String>)
    ensures
        r.deep_view() == exec_cmd(qname@, command.deep_view()),
{
    let mut v: Vec<String> = Vec::new();
    v.push("exec".to_owned());
    v.push(qname.to_owned());
    v.push("--".to_owned());
    let ghost head = v.deep_view();
    proof {
        assert(head =~= seq!["exec"@, qname@, "--"@]);
    }
    let mut i: usize = 0;
    while i < command.len()
        invariant
            i <= command.len(),
            v.deep_view() == head + command.deep_view().take(i as int),
        decreases command.len() - i,
    {
        let token: &&str = slice_index_get(command, i);
        push_token(&mut v, *token);
        proof {
            assert(command.deep_view()[i as int] == command@[i as int].deep_view());
            assert((head + command.deep_view().take(i as int)).push(
                command.deep_view()[i as int],
            ) =~= head + command.deep_view().take(i + 1 as int));
        }
        i += 1;
    }
    proof {
        assert(command.deep_view().take(command.len() as int) =~= command.deep_view());
    }
    v
}

/// Build the mount invocation.
pub fn mount_args(qname: &str, device: &str, source: &str, dest: &str) -> (r: Vec<String>)
    ensures
        r.deep_view() == mount_cmd(qname@, device@, source@, dest@),
{
    let mut v: Vec<String> = Vec::new();
    v.push("config".to_owned());
    v.push("device".to_owned());
    v.push("add".to_owned());
    v.push(qname.to_owned());
    v.push(device.to_owned());
    v.push("disk".to_owned());
    let mut src: String = "source=".to_owned();
    src.append(source);
    v.push(src);
    let mut pth: String = "path=".to_owned();
    pth.append(dest);
    v.push(pth);
    proof {
        assert(v.deep_view() =~= mount_cmd(qname@, device@, source@, dest@));
    }
    v
}

/// Build the in-instance address of a guest path.
pub fn join_guest_path(qname: &str, path: &str) -> (r: String)
    ensures
        r@ == guest_path(qname@, path@),
{
    let mut s = qname.to_owned();
    if path.unicode_len() > 0 && path.get_char(0) == '/' {
        s.append(path);
    } else {
        s.append("/");
        s.append(path);
    }
    s
}

/// Build the push invocation.
pub fn push_args(qname: &str, source: &str, dest: &str, recursive: bool) -> (r: Vec<String>)
    ensures
        r.deep_view() == push_cmd(qname@, source@, dest@, recursive),
{
    let mut v: Vec<String> = Vec::new();
    v.push("file".to_owned());
    v.push("push".to_owned());
    if recursive {
        v.push("-r".to_owned());
    }
    v.push(source.to_owned());
    v.push(join_guest_path(qname, dest));
    proof {
        assert(v.deep_view() =~= push_cmd(qname@, source@, dest@, recursive));
    }
    v
}

/// Build the pull invocation.
pub fn pull_args(qname: &str, source: &str, dest: &str, recursive: bool) -> (r: Vec<String>)
    ensures
        r.deep_view() == pull_cmd(qname@, source@, dest@, recursive),
{
    let mut v: Vec<String> = Vec::new();
    v.push("file".to_owned());
    v.push("pull".to_owned());
    if recursive {
        v.push("-r".to_owned());
    }
    v.push(join_guest_path(qname, source));
    v.push(dest.to_owned());
    proof {
        assert(v.deep_view() =~= pull_cmd(qname@, source@, dest@, recursive));
    }
    v
}

/// Build the snapshot invocation.
pub fn snapshot_args(qname: &str, sname: &str) -> (r: Vec<String>)
    ensures
        r.deep_view() == snapshot_cmd(qname@, sname@),
{
    let mut v: Vec<String> = Vec::new();
    v.push("snapshot".to_owned());
    v.push(qname.to_owned());
    v.push(sname.to_owned());
    proof {
        assert(v.deep_view() =~= snapshot_cmd(qname@, sname@));
    }
    v
}

/// Build the publish invocation.
pub fn publish_args(full_snapshot: &str, alias: &str) -> (r: Vec<String>)
    ensures
        r.deep_view() == publish_cmd(full_snapshot@, alias@),
{
    let mut v: Vec<String> = Vec::new();
    v.push("publish".to_owned());
    v.push(full_snapshot.to_owned());
    v.push("--alias".to_owned());
    v.push(alias.to_owned());
    proof {
        assert(v.deep_view() =~= publish_cmd(full_snapshot@, alias@));
    }
    v
}

/// Build the delete invocation.
pub fn delete_args(name: &str) -> (r: Vec<String>)
    ensures
        r.deep_view() == delete_cmd(name@),
{
    let mut v: Vec<String> = Vec::new();
    v.push("delete".to_owned());
    v.push(name.to_owned());
    proof {
        assert(v.deep_view() =~= delete_cmd(name@));
    }
    v
}

/// Build the stop invocation.
pub fn stop_args(name: &str) -> (r: Vec<String>)
    ensures
        r.deep_view() == stop_cmd(name@),
{
    let mut v: Vec<String> = Vec::new();
    v.push("stop".to_owned());
    v.push(name.to_owned());
    proof {
        assert(v.deep_view() =~= stop_cmd(name@));
    }
    v
}

/// Build the instance-listing invocation.
pub fn list_args(l: &Location, filter: Option<&str>) -> (r: Vec<String>)
    ensures
        r.deep_view() == list_cmd(*l, match filter {
            None => None,
            Some(n) => Some(n@),
        }),
{
    let mut v: Vec<String> = Vec::new();
    v.push("list".to_owned());
    match l {
        Location::Local => {},
        Location::Remote(host) => {
            let mut scope = host.clone();
            scope.append(":");
            v.push(scope);
        },
    }
    match filter {
        None => {},
        Some(n) => {
            let mut name = n.to_owned();
            name.append("$");
            v.push(name);
        },
    }
    v.push("--format".to_owned());
    v.push("json".to_owned());
    proof {
        assert(v.deep_view() =~= list_cmd(*l, match filter {
            None => None,
            Some(n) => Some(n@),
        }));
    }
    v
}

/// Build the image-listing invocation.
pub fn image_list_args(l: &Location, filter: Option<&str>) -> (r: Vec<String>)
    ensures
        r.deep_view() == image_list_cmd(*l, match filter {
            None => None,
            Some(n) => Some(n@),
        }),
{
    let mut v: Vec<String> = Vec::new();
    v.push("image".to_owned());
    v.push("list".to_owned());
    match l {
        Location::Local => {},
        Location::Remote(host) => {
            let mut scope = host.clone();
            scope.append(":");
            v.push(scope);
        },
    }
    match filter {
        None => {},
        Some(n) => {
            v.push(n.to_owned());
        },
    }
    v.push("--format".to_owned());
    v.push("json".to_owned());
    proof {
        assert(v.deep_view() =~= image_list_cmd(*l, match filter {
            None => None,
            Some(n) => Some(n@),
        }));
    }
    v
}

} // verus!
