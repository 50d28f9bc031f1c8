//! Artifact staging: decide whether the bundled backend archive must be
//! unpacked again, or whether a previously unpacked tree can be reused.
//!
//! A persisted stamp records which version of the archive was last unpacked.
//! The archive's fingerprint is derived from its modification time (seconds
//! and sub-second component), not a content hash — acceptable because the
//! archive is immutable per build. The filesystem work (probing, removing,
//! extracting, writing the stamp) is the caller's; the reuse rule and every
//! path and name are fixed here. The companion-tool section at the end
//! classifies archive entries and plans how missing tools are obtained.

use vstd::prelude::*;
use crate::decimal::{spec_decimal, u64_to_string};
use crate::launcher::{spec_path_join, path_join, spec_exe_name, backend_exe_name};
use crate::text::{spec_ends_with, ends_with, str_chars};

verus! {

/// Name of the stamp file inside the unpacked tree.
pub fn stamp_file_name() -> (s: &'static str)
    ensures
        s@ == ".backend_zip_stamp"@,
{
    ".backend_zip_stamp"
}

/// The archive fingerprint recorded in the stamp: seconds, a dot, then the
/// sub-second component of the archive's modification time.
pub open spec fn spec_stamp(secs: nat, nanos: nat) -> Seq<char> {
    spec_decimal(secs) + "."@ + spec_decimal(nanos)
}

/// Render an archive fingerprint.
pub fn stamp_string(secs: u64, nanos: u32) -> (r: String)
    ensures
        r@ == spec_stamp(secs as nat, nanos as nat),
{
    let mut out = u64_to_string(secs);
    out.append(".");
    let tail = u64_to_string(nanos as u64);
    out.append(tail.as_str());
    proof {
        assert(out@ =~= spec_stamp(secs as nat, nanos as nat));
    }
    out
}

/// Whether `c` is blank space around a stamp value.
pub open spec fn is_blank(c: char) -> bool {
    c == ' ' || c == '\t' || c == '\r' || c == '\n'
}

/// The stamp text with leading and trailing blank space removed.
pub open spec fn spec_trim(s: Seq<char>) -> Seq<char>
    decreases s.len(),
{
    if s.len() > 0 && is_blank(s[0]) {
        spec_trim(s.drop_first())
    } else if s.len() > 0 && is_blank(s.last()) {
        spec_trim(s.drop_last())
    } else {
        s
    }
}

/// Whether a recorded stamp, trimmed, equals the wanted fingerprint.
pub fn stamp_matches(recorded_raw: &str, fingerprint: &str) -> (b: bool)
    ensures
        b == (spec_trim(recorded_raw@) == fingerprint@),
{
    let rec = str_chars(recorded_raw);
    let want = str_chars(fingerprint);
    let mut lo: usize = 0;
    let mut hi: usize = rec.len();
    proof {
        assert(rec@.subrange(0, rec@.len() as int) =~= rec@);
    }
    while lo < hi && is_blank_exec(rec[lo])
        invariant
            0 <= lo <= hi <= rec@.len(),
            spec_trim(rec@) == spec_trim(rec@.subrange(lo as int, hi as int)),
        decreases hi - lo,
    {
        proof {
            assert(rec@.subrange(lo as int, hi as int).drop_first() =~= rec@.subrange(
                lo as int + 1,
                hi as int,
            ));
        }
        lo = lo + 1;
    }
    while lo < hi && is_blank_exec(rec[hi - 1])
        invariant
            0 <= lo <= hi <= rec@.len(),
            spec_trim(rec@) == spec_trim(rec@.subrange(lo as int, hi as int)),
            lo < hi ==> !is_blank(rec@[lo as int]),
        decreases hi - lo,
    {
        proof {
            assert(rec@.subrange(lo as int, hi as int).drop_last() =~= rec@.subrange(
                lo as int,
                hi as int - 1,
            ));
        }
        hi = hi - 1;
    }
    proof {
        assert(spec_trim(rec@.subrange(lo as int, hi as int)) == rec@.subrange(
            lo as int,
            hi as int,
        ));
    }
    if hi - lo != want.len() {
        proof {
            assert(spec_trim(rec@) == rec@.subrange(lo as int, hi as int));
            assert(spec_trim(rec@).len() == hi - lo);
            assert(want@.len() == want.len());
            assert(spec_trim(recorded_raw@) != fingerprint@);
        }
        return false;
    }
    let mut j: usize = 0;
    while j < want.len()
        invariant
            j <= want@.len(),
            lo + want@.len() == hi <= rec@.len(),
            rec@ == recorded_raw@,
            want@ == fingerprint@,
            spec_trim(rec@) == rec@.subrange(lo as int, hi as int),
            forall|k: int| 0 <= k < j ==> rec@[lo + k] == want@[k],
        decreases want@.len() - j,
    {
        let n = rec.len();
        proof {
            assert(lo + j < n);
        }
        if rec[lo + j] != want[j] {
            proof {
                if spec_trim(rec@) == want@ {
                    assert(rec@.subrange(lo as int, hi as int)[j as int] == want@[j as int]);
                }
            }
            return false;
        }
        j = j + 1;
    }
    proof {
        assert(rec@.subrange(lo as int, hi as int) =~= want@);
    }
    true
}

fn is_blank_exec(c: char) -> (b: bool)
    ensures
        b == is_blank(c),
{
    c == ' ' || c == '\t' || c == '\r' || c == '\n'
}

/// Whether the unpacked tree must be refreshed: only when the archive is
/// present, its fingerprint could be read, and the recorded stamp (trimmed)
/// does not equal it. A missing archive or unreadable fingerprint never
/// forces a refresh.
pub open spec fn spec_should_refresh(
    archive_exists: bool,
    fingerprint: Option<Seq<char>>,
    recorded: Option<Seq<char>>,
) -> bool {
    if !archive_exists {
        false
    } else {
        match fingerprint {
            None => false,
            Some(want) => match recorded {
                Some(got) => spec_trim(got) != want,
                None => true,
            },
        }
    }
}

/// Decide whether the unpacked tree is stale against the archive.
pub fn should_refresh(archive_exists: bool, fingerprint: Option<&str>, recorded: Option<&str>) -> (b: bool)
    ensures
        b == spec_should_refresh(
            archive_exists,
            crate::launcher::opt_view(fingerprint),
            crate::launcher::opt_view(recorded),
        ),
{
    if !archive_exists {
        return false;
    }
    match fingerprint {
        None => false,
        Some(want) => match recorded {
            Some(got) => !stamp_matches(got, want),
            None => true,
        },
    }
}

/// What the caller observed about the staging area.
pub struct StageCheck {
    /// The unpacked root holds the executable and the companion runtime
    /// marker.
    pub root_valid: bool,
    /// The tree one directory deeper does.
    pub nested_valid: bool,
    /// The bundled archive is present.
    pub archive_exists: bool,
    /// The archive's current fingerprint, when it could be read.
    pub fingerprint: Option<String>,
    /// The raw content of the stamp file, when it could be read.
    pub recorded: Option<String>,
}

/// What a staging request does.
#[derive(Clone, Copy, Debug, PartialEq, Eq, Structural)]
pub enum StageDecision {
    /// Reuse the executable in the unpacked root as it is.
    ReuseRoot,
    /// Reuse the executable in the nested tree as it is.
    ReuseNested,
    /// No archive is bundled: hand back the default executable path without
    /// unpacking anything (the launcher's own existence probe decides what
    /// happens next).
    MissingArchive,
    /// Remove any stale tree, extract the archive, write a fresh stamp, and
    /// re-validate.
    Unpack,
}

/// The view of an optional owned string.
pub open spec fn opt_string_view(o: Option<String>) -> Option<Seq<char>> {
    match o {
        Some(s) => Some(s@),
        None => None,
    }
}

/// The staging rule: a valid tree whose stamp still matches the archive is
/// reused as it is; with no archive nothing can be unpacked; everything else
/// re-stages.
pub open spec fn spec_stage_decision(c: StageCheck) -> StageDecision {
    let refresh = spec_should_refresh(
        c.archive_exists,
        opt_string_view(c.fingerprint),
        opt_string_view(c.recorded),
    );
    if c.root_valid && !refresh {
        StageDecision::ReuseRoot
    } else if c.nested_valid && !refresh {
        StageDecision::ReuseNested
    } else if !c.archive_exists {
        StageDecision::MissingArchive
    } else {
        StageDecision::Unpack
    }
}

/// Decide what this staging request does.
pub fn stage_decision(c: &StageCheck) -> (d: StageDecision)
    ensures
        d == spec_stage_decision(*c),
{
    let refresh = should_refresh(
        c.archive_exists,
        match &c.fingerprint {
            Some(s) => Some(s.as_str()),
            None => None,
        },
        match &c.recorded {
            Some(s) => Some(s.as_str()),
            None => None,
        },
    );
    if c.root_valid && !refresh {
        StageDecision::ReuseRoot
    } else if c.nested_valid && !refresh {
        StageDecision::ReuseNested
    } else if !c.archive_exists {
        StageDecision::MissingArchive
    } else {
        StageDecision::Unpack
    }
}

/// Stamp-based re-stage avoidance: once an unpack has produced a valid tree
/// and recorded the archive's fingerprint, a later staging request that
/// finds the archive unchanged (its fingerprint equal to the trimmed stamp)
/// reuses the tree — it never unpacks again, so the extraction step runs
/// only once for an unchanged archive.
pub proof fn lemma_restage_avoided(c: StageCheck)
    requires
        c.root_valid || c.nested_valid,
        c.fingerprint matches Some(want) && (c.recorded matches Some(got) && spec_trim(got@)
            == want@),
    ensures
        spec_stage_decision(c) == StageDecision::ReuseRoot || spec_stage_decision(c)
            == StageDecision::ReuseNested,
{
}

/// What the re-validation after an unpack found.
#[derive(Clone, Copy, Debug, PartialEq, Eq, Structural)]
pub enum UnpackOutcome {
    /// The expected executable now stands in the unpacked root.
    UsedRoot,
    /// It stands in the nested tree.
    UsedNested,
    /// It is still missing: the stale tree is removed and the staging
    /// request fails.
    Failed,
}

/// Judge the tree after an unpack.
pub fn unpack_outcome(root_valid: bool, nested_valid: bool) -> (o: UnpackOutcome)
    ensures
        o == (if root_valid {
            UnpackOutcome::UsedRoot
        } else if nested_valid {
            UnpackOutcome::UsedNested
        } else {
            UnpackOutcome::Failed
        }),
{
    if root_valid {
        UnpackOutcome::UsedRoot
    } else if nested_valid {
        UnpackOutcome::UsedNested
    } else {
        UnpackOutcome::Failed
    }
}

/// The staged executable inside an unpacked tree.
pub fn staged_exe_path(root: &str, windows: bool) -> (r: String)
    ensures
        r@ == spec_path_join(root@, spec_exe_name(windows), windows),
{
    path_join(root, backend_exe_name(windows), windows)
}

/// The companion-runtime marker whose presence proves a usable unpacked
/// tree: the bundled interpreter library under the tree's private directory.
pub fn runtime_marker_path(root: &str, windows: bool) -> (r: String)
    ensures
        r@ == spec_path_join(
            spec_path_join(root@, "_internal"@, windows),
            "python311.dll"@,
            windows,
        ),
{
    let internal = path_join(root, "_internal", windows);
    path_join(internal.as_str(), "python311.dll", windows)
}

/// The bundled shared-library directory beside the backend executable.
pub fn internal_dir_path(exe_dir: &str, windows: bool) -> (r: String)
    ensures
        r@ == spec_path_join(exe_dir@, "_internal"@, windows),
{
    path_join(exe_dir, "_internal", windows)
}

/// What an archive entry is, judged by its name: the media tool, its probe
/// companion, or neither. The tools may sit under a `bin` directory with
/// either separator, or anywhere else under their plain names.
#[derive(Clone, Copy, Debug, PartialEq, Eq, Structural)]
pub enum ToolEntry {
    FfmpegExe,
    FfprobeExe,
    Other,
}

/// The entry-name rule for the media tool.
pub open spec fn spec_is_ffmpeg_entry(name: Seq<char>) -> bool {
    ||| spec_ends_with(name, "/bin/ffmpeg.exe"@)
    ||| spec_ends_with(name, "\\bin\\ffmpeg.exe"@)
    ||| spec_ends_with(name, "ffmpeg.exe"@)
}

/// The entry-name rule for the probe companion.
pub open spec fn spec_is_ffprobe_entry(name: Seq<char>) -> bool {
    ||| spec_ends_with(name, "/bin/ffprobe.exe"@)
    ||| spec_ends_with(name, "\\bin\\ffprobe.exe"@)
    ||| spec_ends_with(name, "ffprobe.exe"@)
}

/// Classify one archive entry by name.
pub fn classify_tool_entry(name: &str) -> (t: ToolEntry)
    ensures
        t == (if spec_is_ffmpeg_entry(name@) {
            ToolEntry::FfmpegExe
        } else if spec_is_ffprobe_entry(name@) {
            ToolEntry::FfprobeExe
        } else {
            ToolEntry::Other
        }),
{
    let chars = str_chars(name);
    let ffmpeg_bin = str_chars("/bin/ffmpeg.exe");
    let ffmpeg_bin_bs = str_chars("\\bin\\ffmpeg.exe");
    let ffmpeg_plain = str_chars("ffmpeg.exe");
    if ends_with(&chars, &ffmpeg_bin) || ends_with(&chars, &ffmpeg_bin_bs) || ends_with(
        &chars,
        &ffmpeg_plain,
    ) {
        return ToolEntry::FfmpegExe;
    }
    let ffprobe_bin = str_chars("/bin/ffprobe.exe");
    let ffprobe_bin_bs = str_chars("\\bin\\ffprobe.exe");
    let ffprobe_plain = str_chars("ffprobe.exe");
    if ends_with(&chars, &ffprobe_bin) || ends_with(&chars, &ffprobe_bin_bs) || ends_with(
        &chars,
        &ffprobe_plain,
    ) {
        return ToolEntry::FfprobeExe;
    }
    ToolEntry::Other
}

/// How missing companion tools are obtained.
#[derive(Clone, Copy, Debug, PartialEq, Eq, Structural)]
pub enum ToolPlan {
    /// Both tools are already in the resource directory: nothing to do.
    AlreadyPresent,
    /// Both were found on the search path: copy them in.
    CopyFromSearchPath,
    /// Download the tools archive and extract them.
    Download,
}

/// Decide how the companion tools are prepared.
pub fn tool_plan(ffmpeg_present: bool, ffprobe_present: bool, both_on_search_path: bool) -> (p: ToolPlan)
    ensures
        p == (if ffmpeg_present && ffprobe_present {
            ToolPlan::AlreadyPresent
        } else if both_on_search_path {
            ToolPlan::CopyFromSearchPath
        } else {
            ToolPlan::Download
        }),
{
    if ffmpeg_present && ffprobe_present {
        ToolPlan::AlreadyPresent
    } else if both_on_search_path {
        ToolPlan::CopyFromSearchPath
    } else {
        ToolPlan::Download
    }
}

/// The default source of the tools archive, used when the operator set no
/// override.
pub fn default_tools_archive_url() -> (s: &'static str)
    ensures
        s@ == "https://www.gyan.dev/ffmpeg/builds/ffmpeg-release-essentials.zip"@,
{
    "https://www.gyan.dev/ffmpeg/builds/ffmpeg-release-essentials.zip"
}

} // verus!
