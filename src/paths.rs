//! Where the signer's files live, computed from the directories that the
//! caller looked up (the home directory, and on Windows the roaming
//! application data directory).

use vstd::prelude::*;
use crate::text::views_of;

verus! {

/// The platform family, chosen once when the application is built.
#[derive(PartialEq, Eq, Structural, Clone, Copy, Debug)]
pub enum Platform {
    Linux,
    MacOs,
    Windows,
}

/// Named pipe that the daemon listens on under Windows.
pub const PIPE_NAME: &'static str = "\\\\.\\pipe\\noorsigner";

pub open spec fn separator(p: Platform) -> char {
    if p == Platform::Windows {
        '\\'
    } else {
        '/'
    }
}

pub open spec fn is_separator(p: Platform, c: char) -> bool {
    c == '/' || (p == Platform::Windows && c == '\\')
}

/// `name`, a relative component, appended to `base`; a separator is put
/// between them unless `base` is empty or already ends with one.
pub open spec fn join_spec(p: Platform, base: Seq<char>, name: Seq<char>) -> Seq<char> {
    if base.len() == 0 || is_separator(p, base.last()) {
        base + name
    } else {
        base.push(separator(p)) + name
    }
}

pub open spec fn binary_file_name(p: Platform) -> Seq<char> {
    if p == Platform::Windows {
        "noorsigner.exe"@
    } else {
        "noorsigner"@
    }
}

pub open spec fn base_path_spec(p: Platform, home: Seq<char>) -> Seq<char> {
    join_spec(p, home, ".noornote"@)
}

pub open spec fn binary_path_spec(p: Platform, home: Seq<char>) -> Seq<char> {
    join_spec(p, join_spec(p, base_path_spec(p, home), "bin"@), binary_file_name(p))
}

pub open spec fn data_path_spec(p: Platform, home: Seq<char>, app_data: Seq<char>) -> Seq<char> {
    if p == Platform::Windows {
        join_spec(p, app_data, "NoorSigner"@)
    } else {
        join_spec(p, home, ".noorsigner"@)
    }
}

pub open spec fn sidecar_file_spec(p: Platform, target_triple: Seq<char>) -> Seq<char> {
    if p == Platform::Windows {
        "noorsigner-"@ + target_triple + ".exe"@
    } else {
        "noorsigner-"@ + target_triple
    }
}

/// Where a bundled copy of the binary may be found, in the order searched:
/// beside the executable, the system library directory of a Linux package,
/// the resources of a macOS bundle, and a development checkout.
pub open spec fn sidecar_candidates_spec(p: Platform, exe_dir: Seq<char>, file: Seq<char>) -> Seq<Seq<char>> {
    seq![
        join_spec(p, exe_dir, file),
        join_spec(p, "/usr/lib/noornote"@, file),
        join_spec(p, join_spec(p, exe_dir, "../Resources"@), file),
        join_spec(p, join_spec(p, exe_dir, "../../binaries"@), file),
    ]
}

/// Appends the relative component `name` to `base`.
pub fn join_path(platform: Platform, base: &str, name: &str) -> (r: String)
    ensures
        r@ == join_spec(platform, base@, name@),
{
    let n = base.unicode_len();
    let needs_separator = if n == 0 {
        false
    } else {
        let c = base.get_char(n - 1);
        !(c == '/' || (matches!(platform, Platform::Windows) && c == '\\'))
    };
    if !needs_separator {
        String::from_str(base).concat(name)
    } else if matches!(platform, Platform::Windows) {
        let r = String::from_str(base).concat("\\").concat(name);
        proof {
            reveal_strlit("\\");
        }
        assert(r@ =~= join_spec(platform, base@, name@));
        r
    } else {
        let r = String::from_str(base).concat("/").concat(name);
        proof {
            reveal_strlit("/");
        }
        assert(r@ =~= join_spec(platform, base@, name@));
        r
    }
}

/// The application's own directory under the home directory.
pub fn get_noornote_base_path(platform: Platform, home: &str) -> (r: String)
    ensures
        r@ == base_path_spec(platform, home@),
{
    join_path(platform, home, ".noornote")
}

/// Where the daemon binary is installed: `bin` under the application's
/// directory.
pub fn get_noorsigner_path(platform: Platform, home: &str) -> (r: String)
    ensures
        r@ == binary_path_spec(platform, home@),
{
    let base = get_noornote_base_path(platform, home);
    let bin = join_path(platform, base.as_str(), "bin");
    let file = if matches!(platform, Platform::Windows) {
        "noorsigner.exe"
    } else {
        "noorsigner"
    };
    join_path(platform, bin.as_str(), file)
}

/// The daemon's own data directory, which holds the trust session.
pub fn get_noorsigner_data_path(platform: Platform, home: &str, app_data: &str) -> (r: String)
    ensures
        r@ == data_path_spec(platform, home@, app_data@),
{
    if matches!(platform, Platform::Windows) {
        join_path(platform, app_data, "NoorSigner")
    } else {
        join_path(platform, home, ".noorsigner")
    }
}

/// The trust session record.
pub fn trust_session_path(platform: Platform, home: &str, app_data: &str) -> (r: String)
    ensures
        r@ == join_spec(platform, data_path_spec(platform, home@, app_data@), "trust_session"@),
{
    let data = get_noorsigner_data_path(platform, home, app_data);
    join_path(platform, data.as_str(), "trust_session")
}

/// The daemon endpoint: a socket in the daemon's directory, or on Windows
/// the well-known named pipe.
pub fn get_socket_path(platform: Platform, home: &str) -> (r: String)
    ensures
        platform == Platform::Windows ==> r@ == PIPE_NAME@,
        platform != Platform::Windows ==> r@ == join_spec(platform, join_spec(platform, home@, ".noorsigner"@),
            "noorsigner.sock"@),
{
    if matches!(platform, Platform::Windows) {
        String::from_str(PIPE_NAME)
    } else {
        let dir = join_path(platform, home, ".noorsigner");
        join_path(platform, dir.as_str(), "noorsigner.sock")
    }
}

/// The file name of the bundled binary built for `target_triple`.
pub fn sidecar_file_name(platform: Platform, target_triple: &str) -> (r: String)
    ensures
        r@ == sidecar_file_spec(platform, target_triple@),
{
    let name = String::from_str("noorsigner-").concat(target_triple);
    if matches!(platform, Platform::Windows) {
        name.concat(".exe")
    } else {
        name
    }
}

/// The places to look for the bundled binary `file`, in order.
pub fn sidecar_candidates(platform: Platform, exe_dir: &str, file: &str) -> (r: Vec<String>)
    ensures
        views_of(r@) == sidecar_candidates_spec(platform, exe_dir@, file@),
{
    let mut r: Vec<String> = Vec::new();
    r.push(join_path(platform, exe_dir, file));
    r.push(join_path(platform, "/usr/lib/noornote", file));
    let resources = join_path(platform, exe_dir, "../Resources");
    r.push(join_path(platform, resources.as_str(), file));
    let binaries = join_path(platform, exe_dir, "../../binaries");
    r.push(join_path(platform, binaries.as_str(), file));
    assert(views_of(r@) =~= sidecar_candidates_spec(platform, exe_dir@, file@));
    r
}

} // verus!
