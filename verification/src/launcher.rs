//! Launch resolution: which executable or script to run, in which working
//! directory, with which interpreter and which child environment.
//!
//! Resolution order, first match wins: a packaged (possibly just staged)
//! executable at one of several platform-specific candidate paths; in
//! development mode only, a script found by walking a bounded number of
//! ancestor directories; otherwise a hard failure — the supervisor refuses
//! to guess further. The filesystem probes (does this path exist?) are the
//! caller's; every path, order and choice is fixed here.

use vstd::prelude::*;
use crate::decimal::{spec_decimal, u16_to_string};
use crate::ports::first_true_index;
use crate::text::str_eq;

verus! {

/// The platform's separator inside a path.
pub open spec fn spec_path_sep(windows: bool) -> Seq<char> {
    if windows {
        "\\"@
    } else {
        "/"@
    }
}

/// The platform's separator between the entries of a search-path list.
pub open spec fn spec_path_list_sep(windows: bool) -> Seq<char> {
    if windows {
        ";"@
    } else {
        ":"@
    }
}

/// `base`, the platform separator, then `child`.
pub open spec fn spec_path_join(base: Seq<char>, child: Seq<char>, windows: bool) -> Seq<char> {
    base + spec_path_sep(windows) + child
}

/// Join one relative component onto a base path.
pub fn path_join(base: &str, child: &str, windows: bool) -> (r: String)
    ensures
        r@ == spec_path_join(base@, child@, windows),
{
    let mut out = base.to_owned();
    if windows {
        out.append("\\");
    } else {
        out.append("/");
    }
    out.append(child);
    proof {
        assert(out@ =~= spec_path_join(base@, child@, windows));
    }
    out
}

/// The view of an optional string argument.
pub open spec fn opt_view(o: Option<&str>) -> Option<Seq<char>> {
    match o {
        Some(s) => Some(s@),
        None => None,
    }
}

/// Name of the directory a packaged backend unpacks to.
pub open spec fn spec_backend_dir_name() -> Seq<char> {
    "superAutoCutVideoBackend"@
}

/// Name of the backend executable on each platform.
pub open spec fn spec_exe_name(windows: bool) -> Seq<char> {
    if windows {
        "superAutoCutVideoBackend.exe"@
    } else {
        "superAutoCutVideoBackend"@
    }
}

/// Name of the bundled backend archive.
pub open spec fn spec_archive_name() -> Seq<char> {
    "superAutoCutVideoBackend.zip"@
}

/// The packaged backend's directory name, as executable data.
pub fn backend_dir_name() -> (s: &'static str)
    ensures
        s@ == spec_backend_dir_name(),
{
    "superAutoCutVideoBackend"
}

/// The backend executable's file name, as executable data.
pub fn backend_exe_name(windows: bool) -> (s: &'static str)
    ensures
        s@ == spec_exe_name(windows),
{
    if windows {
        "superAutoCutVideoBackend.exe"
    } else {
        "superAutoCutVideoBackend"
    }
}

/// The bundled archive's file name, as executable data.
pub fn backend_archive_name() -> (s: &'static str)
    ensures
        s@ == spec_archive_name(),
{
    "superAutoCutVideoBackend.zip"
}

/// Name of the backend's private temp directory.
pub fn backend_tmp_dir_name() -> (s: &'static str)
    ensures
        s@ == "super_auto_cut_backend_tmp"@,
{
    "super_auto_cut_backend_tmp"
}

/// Development prefers running the backend from source only while no
/// packaged artifact is present and the operator did not force the packaged
/// one.
pub fn prefer_dev_script(dev_mode: bool, force_packaged: bool, archive_exists: bool, folder_exists: bool) -> (b: bool)
    ensures
        b == (dev_mode && !force_packaged && !archive_exists && !folder_exists),
{
    dev_mode && !force_packaged && !archive_exists && !folder_exists
}

/// The packaged executable inside the unpacked directory under `root`.
pub open spec fn spec_primary_dir_path(root: Seq<char>, windows: bool) -> Seq<char> {
    spec_path_join(
        spec_path_join(root, spec_backend_dir_name(), windows),
        spec_exe_name(windows),
        windows,
    )
}

/// The packaged executable directly under `root`.
pub open spec fn spec_primary_file_path(root: Seq<char>, windows: bool) -> Seq<char> {
    spec_path_join(root, spec_exe_name(windows), windows)
}

/// The four packaged locations relative to one ancestor directory of the
/// running executable.
pub open spec fn spec_anc_group(anc: Seq<char>, windows: bool) -> Seq<Seq<char>> {
    let tauri_res = spec_path_join(
        spec_path_join(anc, "src-tauri"@, windows),
        "resources"@,
        windows,
    );
    let res = spec_path_join(anc, "resources"@, windows);
    seq![
        spec_path_join(tauri_res, spec_exe_name(windows), windows),
        spec_path_join(res, spec_exe_name(windows), windows),
        spec_path_join(
            spec_path_join(tauri_res, spec_backend_dir_name(), windows),
            spec_exe_name(windows),
            windows,
        ),
        spec_path_join(
            spec_path_join(res, spec_backend_dir_name(), windows),
            spec_exe_name(windows),
            windows,
        ),
    ]
}

/// The candidates contributed by a list of ancestor directories, four each,
/// in ancestor order.
pub open spec fn spec_ancestor_paths(ancestors: Seq<Seq<char>>, windows: bool) -> Seq<Seq<char>> {
    Seq::new(ancestors.len() * 4, |i: int| spec_anc_group(ancestors[i / 4], windows)[i % 4])
}

/// Extending the ancestor list by one appends that ancestor's four paths.
proof fn lemma_ancestor_paths_snoc(ancestors: Seq<Seq<char>>, i: int, windows: bool)
    requires
        0 <= i < ancestors.len(),
    ensures
        spec_ancestor_paths(ancestors.take(i + 1), windows) == spec_ancestor_paths(
            ancestors.take(i),
            windows,
        ) + spec_anc_group(ancestors[i], windows),
{
    let lhs = spec_ancestor_paths(ancestors.take(i + 1), windows);
    let rhs = spec_ancestor_paths(ancestors.take(i), windows) + spec_anc_group(
        ancestors[i],
        windows,
    );
    assert(spec_anc_group(ancestors[i], windows).len() == 4);
    assert forall|j: int| 0 <= j < lhs.len() implies lhs[j] == rhs[j] by {
        if j < 4 * i {
            assert(0 <= j / 4 < i);
            assert(ancestors.take(i + 1)[j / 4] == ancestors.take(i)[j / 4]);
        } else {
            assert(j / 4 == i);
            assert(j % 4 == j - 4 * i);
            assert(ancestors.take(i + 1)[i] == ancestors[i]);
        }
    }
    assert(lhs =~= rhs);
}

/// The two packaged locations under a directory's bundled `resources`.
pub open spec fn spec_dir_resource_paths(d: Seq<char>, windows: bool) -> Seq<Seq<char>> {
    let res = spec_path_join(d, "resources"@, windows);
    seq![
        spec_path_join(res, spec_exe_name(windows), windows),
        spec_path_join(
            spec_path_join(res, spec_backend_dir_name(), windows),
            spec_exe_name(windows),
            windows,
        ),
    ]
}

/// Everywhere a packaged backend executable may stand, in probe order: the
/// staged one first, then the resource root, then beside the running
/// executable, then up its ancestor directories (the caller passes the
/// ancestors of the executable's directory, nearest first, bounded).
pub open spec fn spec_executable_candidates(
    staged: Option<Seq<char>>,
    root: Seq<char>,
    exe_dir: Option<Seq<char>>,
    ancestors: Seq<Seq<char>>,
    windows: bool,
) -> Seq<Seq<char>> {
    (match staged {
        Some(p) => seq![p],
        None => Seq::<Seq<char>>::empty(),
    }) + seq![spec_primary_dir_path(root, windows), spec_primary_file_path(root, windows)]
        + (match exe_dir {
        Some(d) => spec_dir_resource_paths(d, windows),
        None => Seq::<Seq<char>>::empty(),
    }) + spec_ancestor_paths(ancestors, windows)
}

/// Build the packaged-executable candidate list.
pub fn executable_candidates(
    staged: Option<&str>,
    resource_root: &str,
    exe_dir: Option<&str>,
    ancestors: &Vec<String>,
    windows: bool,
) -> (r: Vec<String>)
    ensures
        r.deep_view() == spec_executable_candidates(
            opt_view(staged),
            resource_root@,
            opt_view(exe_dir),
            ancestors.deep_view(),
            windows,
        ),
{
    let ghost goal_prefix: Seq<Seq<char>> = (match opt_view(staged) {
        Some(p) => seq![p],
        None => Seq::<Seq<char>>::empty(),
    }) + seq![
        spec_primary_dir_path(resource_root@, windows),
        spec_primary_file_path(resource_root@, windows),
    ] + (match opt_view(exe_dir) {
        Some(d) => spec_dir_resource_paths(d, windows),
        None => Seq::<Seq<char>>::empty(),
    });
    let mut r: Vec<String> = Vec::new();
    match staged {
        Some(p) => { r.push(p.to_owned()); },
        None => {},
    }
    let dir_path = path_join(resource_root, backend_dir_name(), windows);
    r.push(path_join(dir_path.as_str(), backend_exe_name(windows), windows));
    r.push(path_join(resource_root, backend_exe_name(windows), windows));
    match exe_dir {
        Some(d) => {
            let res = path_join(d, "resources", windows);
            r.push(path_join(res.as_str(), backend_exe_name(windows), windows));
            let res_dir = path_join(res.as_str(), backend_dir_name(), windows);
            r.push(path_join(res_dir.as_str(), backend_exe_name(windows), windows));
        },
        None => {},
    }
    proof {
        assert(r.deep_view() =~= goal_prefix);
    }
    let mut i: usize = 0;
    while i < ancestors.len()
        invariant
            i <= ancestors@.len(),
            r.deep_view() =~= goal_prefix + spec_ancestor_paths(
                ancestors.deep_view().take(i as int),
                windows,
            ),
        decreases ancestors@.len() - i,
    {
        let anc: &String = &ancestors[i];
        proof {
            assert(ancestors.deep_view()[i as int] == anc@);
        }
        let ghost before: Seq<Seq<char>> = r.deep_view();
        let tauri_dir = path_join(anc.as_str(), "src-tauri", windows);
        let tauri_res = path_join(tauri_dir.as_str(), "resources", windows);
        let res = path_join(anc.as_str(), "resources", windows);
        let c0 = path_join(tauri_res.as_str(), backend_exe_name(windows), windows);
        let c1 = path_join(res.as_str(), backend_exe_name(windows), windows);
        let tauri_res_dir = path_join(tauri_res.as_str(), backend_dir_name(), windows);
        let c2 = path_join(tauri_res_dir.as_str(), backend_exe_name(windows), windows);
        let res_dir = path_join(res.as_str(), backend_dir_name(), windows);
        let c3 = path_join(res_dir.as_str(), backend_exe_name(windows), windows);
        let ghost group: Seq<Seq<char>> = seq![c0@, c1@, c2@, c3@];
        r.push(c0);
        r.push(c1);
        r.push(c2);
        r.push(c3);
        proof {
            assert(group =~= spec_anc_group(ancestors.deep_view()[i as int], windows));
            assert(r.deep_view() =~= before + group);
            lemma_ancestor_paths_snoc(ancestors.deep_view(), i as int, windows);
            assert(r.deep_view() =~= goal_prefix + spec_ancestor_paths(
                ancestors.deep_view().take(i as int + 1),
                windows,
            ));
        }
        i = i + 1;
    }
    proof {
        assert(ancestors.deep_view().take(ancestors@.len() as int) =~= ancestors.deep_view());
        assert(r.deep_view() =~= spec_executable_candidates(
            opt_view(staged),
            resource_root@,
            opt_view(exe_dir),
            ancestors.deep_view(),
            windows,
        ));
    }
    r
}

/// The first candidate whose existence probe came back true.
pub fn select_first_existing(candidates: &Vec<String>, exists_flags: &Vec<bool>) -> (r: Option<
    String,
>)
    requires
        exists_flags@.len() == candidates@.len(),
    ensures
        match first_true_index(exists_flags@, 0) {
            Some(i) => r matches Some(s) && s@ == candidates@[i]@,
            None => r is None,
        },
{
    let mut i: usize = 0;
    while i < exists_flags.len()
        invariant
            i <= exists_flags@.len(),
            exists_flags@.len() == candidates@.len(),
            first_true_index(exists_flags@, 0) == first_true_index(exists_flags@, i as int),
        decreases exists_flags@.len() - i,
    {
        if exists_flags[i] {
            return Some(candidates[i].clone());
        }
        i = i + 1;
    }
    None
}

/// The executable a launch will use: the first existing candidate, or the
/// primary packaged path as the default (the boolean reports which case).
pub fn select_executable(candidates: &Vec<String>, exists_flags: &Vec<bool>, fallback_idx: usize) -> (r: (
    String,
    bool,
))
    requires
        exists_flags@.len() == candidates@.len(),
        fallback_idx < candidates@.len(),
    ensures
        match first_true_index(exists_flags@, 0) {
            Some(i) => r.0@ == candidates@[i]@ && r.1,
            None => r.0@ == candidates@[fallback_idx as int]@ && !r.1,
        },
{
    match select_first_existing(candidates, exists_flags) {
        Some(s) => (s, true),
        None => (candidates[fallback_idx].clone(), false),
    }
}

/// What kind of launch a start request performs.
#[derive(Clone, Copy, Debug, PartialEq, Eq, Structural)]
pub enum LaunchKind {
    /// Run the packaged executable.
    Packaged,
    /// Run the development script through an interpreter.
    DevScript,
    /// Nothing runnable was found: the start call fails with a resolution
    /// error and is not retried.
    NotFound,
}

/// The resolution ladder: a packaged executable that exists wins unless the
/// development script is preferred; otherwise development mode may fall back
/// to the script; otherwise the request fails.
pub open spec fn spec_launch_kind(prefer_dev: bool, exe_exists: bool, dev_mode: bool) -> LaunchKind {
    if !prefer_dev && exe_exists {
        LaunchKind::Packaged
    } else if dev_mode {
        LaunchKind::DevScript
    } else {
        LaunchKind::NotFound
    }
}

/// Decide what kind of launch to perform.
pub fn launch_kind(prefer_dev: bool, exe_exists: bool, dev_mode: bool) -> (k: LaunchKind)
    ensures
        k == spec_launch_kind(prefer_dev, exe_exists, dev_mode),
{
    if !prefer_dev && exe_exists {
        LaunchKind::Packaged
    } else if dev_mode {
        LaunchKind::DevScript
    } else {
        LaunchKind::NotFound
    }
}

/// The packaged backend runs in its executable's own directory, falling
/// back to the resource root when that directory cannot be named.
pub fn packaged_working_dir(exe_parent: Option<String>, resource_root: &str) -> (d: String)
    ensures
        d@ == match exe_parent {
            Some(p) => p@,
            None => resource_root@,
        },
{
    match exe_parent {
        Some(p) => p,
        None => resource_root.to_owned(),
    }
}

/// The development script's location relative to each ancestor directory of
/// the search roots, in search order.
pub open spec fn spec_script_candidates(ancestors: Seq<Seq<char>>, windows: bool) -> Seq<
    Seq<char>,
> {
    Seq::new(
        ancestors.len(),
        |i: int|
            spec_path_join(
                spec_path_join(ancestors[i], "backend"@, windows),
                "main.py"@,
                windows,
            ),
    )
}

/// Build the development-script candidate list from the ancestors of the
/// search roots (resource directory, running executable, working directory),
/// nearest first, bounded by the caller.
pub fn script_candidates(ancestors: &Vec<String>, windows: bool) -> (r: Vec<String>)
    ensures
        r.deep_view() == spec_script_candidates(ancestors.deep_view(), windows),
{
    let mut r: Vec<String> = Vec::new();
    let mut i: usize = 0;
    while i < ancestors.len()
        invariant
            i <= ancestors@.len(),
            r.deep_view() =~= spec_script_candidates(
                ancestors.deep_view().take(i as int),
                windows,
            ),
        decreases ancestors@.len() - i,
    {
        let anc: &String = &ancestors[i];
        proof {
            assert(ancestors.deep_view()[i as int] == anc@);
        }
        let ghost before: Seq<Seq<char>> = r.deep_view();
        let backend_dir = path_join(anc.as_str(), "backend", windows);
        let cand = path_join(backend_dir.as_str(), "main.py", windows);
        let ghost cand_view: Seq<char> = cand@;
        r.push(cand);
        proof {
            assert(r.deep_view() =~= before + seq![cand_view]);
            assert forall|j: int|
                0 <= j < i as int + 1 implies (before + seq![cand_view])[j]
                == spec_script_candidates(ancestors.deep_view().take(i as int + 1), windows)[j] by {
                if j < i as int {
                    assert(ancestors.deep_view().take(i as int)[j] == ancestors.deep_view().take(
                        i as int + 1,
                    )[j]);
                }
            }
            assert(r.deep_view() =~= spec_script_candidates(
                ancestors.deep_view().take(i as int + 1),
                windows,
            ));
        }
        i = i + 1;
    }
    proof {
        assert(ancestors.deep_view().take(ancestors@.len() as int) =~= ancestors.deep_view());
    }
    r
}

/// The three virtual-environment interpreters relative to the script's
/// directory, in preference order.
pub fn venv_interpreter_paths(script_dir: &str, windows: bool) -> (r: (String, String, String))
    ensures
        r.0@ == spec_path_join(
            spec_path_join(spec_path_join(script_dir@, ".venv"@, windows), "bin"@, windows),
            "python3"@,
            windows,
        ),
        r.1@ == spec_path_join(
            spec_path_join(spec_path_join(script_dir@, ".venv"@, windows), "bin"@, windows),
            "python"@,
            windows,
        ),
        r.2@ == spec_path_join(
            spec_path_join(spec_path_join(script_dir@, ".venv"@, windows), "Scripts"@, windows),
            "python.exe"@,
            windows,
        ),
{
    let venv = path_join(script_dir, ".venv", windows);
    let bin = path_join(venv.as_str(), "bin", windows);
    let scripts = path_join(venv.as_str(), "Scripts", windows);
    (
        path_join(bin.as_str(), "python3", windows),
        path_join(bin.as_str(), "python", windows),
        path_join(scripts.as_str(), "python.exe", windows),
    )
}

/// The interpreter preference order: an explicit operator override, then the
/// project-local virtual-environment interpreters that exist, then a
/// generically named interpreter from the search path.
pub open spec fn spec_choose_interpreter(
    override_path: Option<Seq<char>>,
    unix: Seq<char>,
    unix_exists: bool,
    alt: Seq<char>,
    alt_exists: bool,
    win: Seq<char>,
    win_exists: bool,
    python3_found: bool,
) -> Seq<char> {
    match override_path {
        Some(p) => p,
        None => if unix_exists {
            unix
        } else if alt_exists {
            alt
        } else if win_exists {
            win
        } else if python3_found {
            "python3"@
        } else {
            "python"@
        },
    }
}

/// Choose the interpreter the development script runs under.
pub fn choose_interpreter(
    override_path: Option<String>,
    unix: String,
    unix_exists: bool,
    alt: String,
    alt_exists: bool,
    win: String,
    win_exists: bool,
    python3_found: bool,
) -> (r: String)
    ensures
        r@ == spec_choose_interpreter(
            match override_path {
                Some(ref p) => Some(p@),
                None => None,
            },
            unix@,
            unix_exists,
            alt@,
            alt_exists,
            win@,
            win_exists,
            python3_found,
        ),
{
    match override_path {
        Some(p) => p,
        None => if unix_exists {
            unix
        } else if alt_exists {
            alt
        } else if win_exists {
            win
        } else if python3_found {
            "python3".to_owned()
        } else {
            "python".to_owned()
        },
    }
}

/// The child's search path: its own directory first (so co-located dynamic
/// dependencies resolve before system ones), then the resource directory,
/// then any bundled shared-library directory, then the original path. A
/// backend directory equal to the resource directory is not repeated.
pub open spec fn spec_path_env(
    backend_dir: Seq<char>,
    resource_dir: Seq<char>,
    internal_dir: Option<Seq<char>>,
    orig: Seq<char>,
    windows: bool,
) -> Seq<char> {
    let sep = spec_path_list_sep(windows);
    let head = if backend_dir != resource_dir {
        backend_dir + sep + resource_dir
    } else {
        resource_dir
    };
    match internal_dir {
        Some(d) => head + sep + d + sep + orig,
        None => head + sep + orig,
    }
}

/// Assemble the child's `PATH` value.
pub fn build_path_env(
    backend_dir: &str,
    resource_dir: &str,
    internal_dir: Option<&str>,
    orig_path: &str,
    windows: bool,
) -> (r: String)
    ensures
        r@ == spec_path_env(backend_dir@, resource_dir@, opt_view(internal_dir), orig_path@, windows),
{
    let sep: &str = if windows {
        ";"
    } else {
        ":"
    };
    let mut out: String;
    if !str_eq(backend_dir, resource_dir) {
        out = backend_dir.to_owned();
        out.append(sep);
        out.append(resource_dir);
    } else {
        out = resource_dir.to_owned();
    }
    match internal_dir {
        Some(d) => {
            out.append(sep);
            out.append(d);
        },
        None => {},
    }
    out.append(sep);
    out.append(orig_path);
    proof {
        assert(out@ =~= spec_path_env(
            backend_dir@,
            resource_dir@,
            opt_view(internal_dir),
            orig_path@,
            windows,
        ));
    }
    out
}

/// One variable of the child's environment.
pub struct EnvPair {
    /// The variable's name.
    pub name: String,
    /// The value it is set to.
    pub value: String,
}

/// The environment handed to the child: its host and port, the augmented
/// search path, a private temp directory, the boot token, a launched-by-
/// supervisor marker, and the install directory.
pub fn child_env(
    host: &str,
    port: u16,
    path_value: &str,
    tmp_dir: &str,
    boot_token: &str,
    install_dir: &str,
) -> (r: Vec<EnvPair>)
    ensures
        r@.len() == 8,
        r@[0].name@ == "HOST"@ && r@[0].value@ == host@,
        r@[1].name@ == "PORT"@ && r@[1].value@ == spec_decimal(port as nat),
        r@[2].name@ == "PATH"@ && r@[2].value@ == path_value@,
        r@[3].name@ == "TEMP"@ && r@[3].value@ == tmp_dir@,
        r@[4].name@ == "TMP"@ && r@[4].value@ == tmp_dir@,
        r@[5].name@ == "SACV_BOOT_TOKEN"@ && r@[5].value@ == boot_token@,
        r@[6].name@ == "SACV_RUNTIME"@ && r@[6].value@ == "supervisor"@,
        r@[7].name@ == "SACV_INSTALL_DIR"@ && r@[7].value@ == install_dir@,
{
    let mut r: Vec<EnvPair> = Vec::new();
    r.push(EnvPair { name: "HOST".to_owned(), value: host.to_owned() });
    r.push(EnvPair { name: "PORT".to_owned(), value: u16_to_string(port) });
    r.push(EnvPair { name: "PATH".to_owned(), value: path_value.to_owned() });
    r.push(EnvPair { name: "TEMP".to_owned(), value: tmp_dir.to_owned() });
    r.push(EnvPair { name: "TMP".to_owned(), value: tmp_dir.to_owned() });
    r.push(EnvPair { name: "SACV_BOOT_TOKEN".to_owned(), value: boot_token.to_owned() });
    r.push(EnvPair { name: "SACV_RUNTIME".to_owned(), value: "supervisor".to_owned() });
    r.push(EnvPair { name: "SACV_INSTALL_DIR".to_owned(), value: install_dir.to_owned() });
    r
}

} // verus!
