//! What the library decides around the `adb` executable: where it is, how
//! `adb devices -l` and `getprop` output read, and what a finished shell
//! command amounts to. Running the processes is left to the caller.
use vstd::prelude::*;
use crate::adb::device::{
    new_device, status_of_text, DeviceInfo, DeviceStatus, DeviceView, DeviceStatusView,
};
use crate::error::AppError;
use crate::text::{
    chars_eq_str, chars_of, contains_seq, contains_str, has_prefix, lines_of, lines_seq,
    parse_u32, parse_u32_seq, push_str, replace_underscores, split_once_seq, split_once_str,
    split_whitespace_of, starts_with_str, string_of, trim_chars, trim_seq, trim_text,
    underscores_to_spaces, words_seq,
};

verus! {

/// Whether `path` names an existing regular file (`std::path::Path::is_file`).
/// The answer depends on the disk, so nothing is claimed of it.
#[verifier::external_body]
fn is_existing_file(path: &str) -> bool {
    std::path::Path::new(path).is_file()
}

#[derive(Debug)]
pub struct AdbClient {
    adb_path: String,
}

impl View for AdbClient {
    type V = Seq<char>;

    closed spec fn view(&self) -> Seq<char> {
        self.adb_path@
    }
}

impl Clone for AdbClient {
    fn clone(&self) -> (r: AdbClient)
        ensures
            r@ == self@,
    {
        AdbClient { adb_path: self.adb_path.clone() }
    }
}

/// The message of the error when no `adb` executable is found.
pub open spec fn adb_not_found_message() -> Seq<char> {
    "Please install Android Platform Tools or configure adb_path in settings."@
}

/// Whether a custom path is given and not blank.
pub open spec fn custom_path_given(custom_path: Option<&str>) -> bool {
    custom_path matches Some(p) && trim_seq(p@).len() > 0
}

/// The paths probed for `adb`, in order: the trimmed custom path when it is
/// given and not blank, then the candidates.
pub open spec fn probe_paths(custom_path: Option<&str>, candidates: Seq<Seq<char>>) -> Seq<
    Seq<char>,
> {
    if custom_path_given(custom_path) {
        seq![trim_seq(custom_path->0@)] + candidates
    } else {
        candidates
    }
}

/// Index of the first `true` among `found` from `i` on.
pub open spec fn first_found(found: Seq<bool>, i: int) -> Option<int>
    decreases found.len() - i,
{
    if i < 0 || i >= found.len() {
        None
    } else if found[i] {
        Some(i)
    } else {
        first_found(found, i + 1)
    }
}

/// Whether `r` is the outcome of the search for `adb` when `found[i]` says
/// whether the `i`-th probed path names a file: the first such path, or
/// `AdbNotFound` when there is none.
pub open spec fn adb_choice(
    custom_path: Option<&str>,
    candidates: Seq<Seq<char>>,
    found: Seq<bool>,
    r: Result<AdbClient, AppError>,
) -> bool {
    match first_found(found, 0) {
        Some(i) => r matches Ok(c) && c@ == probe_paths(custom_path, candidates)[i],
        None => r matches Err(AppError::AdbNotFound(m)) && m@ == adb_not_found_message(),
    }
}

proof fn lemma_first_found_bounds(found: Seq<bool>, i: int)
    ensures
        first_found(found, i) matches Some(k) ==> i <= k < found.len() && found[k],
    decreases found.len() - i,
{
    if 0 <= i < found.len() && !found[i] {
        lemma_first_found_bounds(found, i + 1);
    }
}

proof fn lemma_first_found_step(found: Seq<bool>, i: int)
    requires
        0 <= i < found.len(),
        !found[i],
    ensures
        first_found(found, i) == first_found(found, i + 1),
{
}

impl AdbClient {
    /// Picks `adb` from the answers of the file checks: `found[i]` tells
    /// whether the `i`-th path of `probe_paths` names a file, and the first
    /// such path is taken.
    pub fn choose_adb(custom_path: Option<&str>, candidates: &Vec<String>, found: &Vec<bool>) -> (r:
        Result<Self, AppError>)
        requires
            found@.len() == probe_paths(custom_path, candidates.deep_view()).len(),
        ensures
            adb_choice(custom_path, candidates.deep_view(), found@, r),
    {
        let ghost cands = candidates.deep_view();
        let ghost probes = probe_paths(custom_path, cands);
        let mut off: usize = 0;
        match custom_path {
            Some(p) => {
                let t = trim_text(p);
                if t.as_str().unicode_len() > 0 {
                    if found[0] {
                        return Ok(AdbClient { adb_path: t });
                    }
                    off = 1;
                }
            },
            None => {},
        }
        assert(first_found(found@, 0) == first_found(found@, off as int));
        let mut i: usize = 0;
        while i < candidates.len()
            invariant
                i <= candidates@.len(),
                cands == candidates.deep_view(),
                probes == probe_paths(custom_path, cands),
                off == (if custom_path_given(custom_path) { 1int } else { 0int }),
                found@.len() == off + candidates@.len(),
                first_found(found@, 0) == first_found(found@, off + i),
            decreases candidates@.len() - i,
        {
            assert(probes[off + i] == cands[i as int]);
            if found[off + i] {
                let c = candidates[i].clone();
                return Ok(AdbClient { adb_path: c });
            }
            proof {
                lemma_first_found_step(found@, off + i);
            }
            i = i + 1;
        }
        Err(
            AppError::AdbNotFound(
                String::from_str(
                    "Please install Android Platform Tools or configure adb_path in settings.",
                ),
            ),
        )
    }

    /// The paths to probe for `adb`, in order (see `probe_paths`).
    pub fn probe_list(custom_path: Option<&str>, candidates: &Vec<String>) -> (r: Vec<String>)
        ensures
            r.deep_view() == probe_paths(custom_path, candidates.deep_view()),
    {
        let ghost cands = candidates.deep_view();
        let mut out: Vec<String> = Vec::new();
        match custom_path {
            Some(p) => {
                let t = trim_text(p);
                if t.as_str().unicode_len() > 0 {
                    out.push(t);
                }
            },
            None => {},
        }
        let ghost head = out.deep_view();
        let mut i: usize = 0;
        while i < candidates.len()
            invariant
                i <= candidates@.len(),
                cands == candidates.deep_view(),
                head == (if custom_path_given(custom_path) { seq![trim_seq(custom_path->0@)] } else {
                    Seq::<Seq<char>>::empty()
                }),
                out.deep_view() == head + cands.take(i as int),
            decreases candidates@.len() - i,
        {
            let ghost before = out.deep_view();
            out.push(candidates[i].clone());
            assert(out.deep_view() =~= before.push(cands[i as int]));
            assert(cands.take(i + 1) =~= cands.take(i as int).push(cands[i as int]));
            assert(head + cands.take(i + 1) =~= (head + cands.take(i as int)).push(cands[i as int]));
            i = i + 1;
        }
        assert(cands.take(cands.len() as int) =~= cands);
        assert(out.deep_view() =~= probe_paths(custom_path, cands));
        out
    }

    /// Discovers `adb.exe`: checks, in the order of `probe_paths`, the
    /// custom path (trimmed, when not blank) and then `candidates` (the
    /// `adb.exe`/`adb` entries of the PATH directories, then the well-known
    /// Android SDK locations), as `probe_list` lists them, and takes the first
    /// that names a file. Which paths name files is up to the disk; the paths
    /// after the first found one are not checked.
    pub fn find_adb(custom_path: Option<&str>, candidates: &Vec<String>) -> (r: Result<
        Self,
        AppError,
    >)
        ensures
            exists|found: Seq<bool>|
                found.len() == probe_paths(custom_path, candidates.deep_view()).len()
                    && #[trigger] adb_choice(custom_path, candidates.deep_view(), found, r),
            match r {
                Ok(c) => (custom_path_given(custom_path) && c@ == trim_seq(custom_path->0@))
                    || exists|i: int| 0 <= i < candidates@.len() && c@ == #[trigger] candidates@[i]@,
                Err(e) => e matches AppError::AdbNotFound(m) && m@ == adb_not_found_message(),
            },
            (!custom_path_given(custom_path) && candidates@.len() == 0) ==> r is Err,
    {
        let ghost cands = candidates.deep_view();
        let probes = Self::probe_list(custom_path, candidates);
        let mut found: Vec<bool> = Vec::new();
        let mut hit = false;
        let mut i: usize = 0;
        while i < probes.len()
            invariant
                i <= probes@.len(),
                probes.deep_view() == probe_paths(custom_path, cands),
                found@.len() == i,
            decreases probes@.len() - i,
        {
            if hit {
                found.push(false);
            } else {
                hit = is_existing_file(probes[i].as_str());
                found.push(hit);
            }
            i = i + 1;
        }
        let r = Self::choose_adb(custom_path, candidates, &found);
        proof {
            let probes = probe_paths(custom_path, cands);
            match first_found(found@, 0) {
                Some(k) => {
                    lemma_first_found_bounds(found@, 0);
                    if custom_path_given(custom_path) && k == 0 {
                    } else {
                        let j = if custom_path_given(custom_path) { k - 1 } else { k };
                        assert(probes[k] == cands[j]);
                        assert(cands[j] == candidates@[j]@);
                    }
                },
                None => {},
            }
        }
        r
    }

    /// Path of the `adb` executable in use.
    pub fn executable_path(&self) -> (r: &str)
        ensures
            r@ == self@,
    {
        self.adb_path.as_str()
    }
}

/// What the search for `adb` reads from the environment: the directories
/// of `PATH`, and the `LOCALAPPDATA`, `USERPROFILE`, `ProgramFiles` and
/// `ProgramFiles(x86)` variables where set.
#[derive(Debug)]
pub struct AdbSearchEnv {
    pub path_dirs: Vec<String>,
    pub local_app_data: Option<String>,
    pub user_profile: Option<String>,
    pub program_files: Option<String>,
    pub program_files_x86: Option<String>,
}

/// Path components of each candidate from the `PATH` directories: `adb.exe`
/// then `adb` in every directory, in order.
pub open spec fn path_candidates(dirs: Seq<Seq<char>>) -> Seq<Seq<Seq<char>>>
    decreases dirs.len(),
{
    if dirs.len() == 0 {
        seq![]
    } else {
        path_candidates(dirs.drop_last()) + seq![
            seq![dirs.last(), "adb.exe"@],
            seq![dirs.last(), "adb"@],
        ]
    }
}

/// Candidate under a base directory, when the variable is set.
pub open spec fn under(base: Option<Seq<char>>, rest: Seq<Seq<char>>) -> Seq<Seq<Seq<char>>> {
    match base {
        Some(b) => seq![seq![b] + rest],
        None => seq![],
    }
}

/// Path components of the Android SDK locations under the variables that
/// are set.
pub open spec fn sdk_candidates(
    local_app_data: Option<Seq<char>>,
    user_profile: Option<Seq<char>>,
    program_files: Option<Seq<char>>,
    program_files_x86: Option<Seq<char>>,
) -> Seq<Seq<Seq<char>>> {
    under(local_app_data, seq!["Android"@, "Sdk"@, "platform-tools"@, "adb.exe"@]) + under(
        user_profile,
        seq!["AppData"@, "Local"@, "Android"@, "Sdk"@, "platform-tools"@, "adb.exe"@],
    ) + under(user_profile, seq!["platform-tools"@, "adb.exe"@]) + under(
        user_profile,
        seq!["Downloads"@, "platform-tools"@, "adb.exe"@],
    ) + under(program_files, seq!["Android"@, "platform-tools"@, "adb.exe"@]) + under(
        program_files_x86,
        seq!["Android"@, "platform-tools"@, "adb.exe"@],
    )
}

/// The fixed install locations, each a single path.
pub open spec fn fixed_candidates() -> Seq<Seq<Seq<char>>> {
    seq![
        seq!["C:\\platform-tools\\adb.exe"@],
        seq!["D:\\platform-tools\\adb.exe"@],
        seq!["C:\\adb\\adb.exe"@],
    ]
}

/// Path components of the well-known Android SDK locations on Windows.
pub open spec fn standard_candidates(
    local_app_data: Option<Seq<char>>,
    user_profile: Option<Seq<char>>,
    program_files: Option<Seq<char>>,
    program_files_x86: Option<Seq<char>>,
) -> Seq<Seq<Seq<char>>> {
    sdk_candidates(local_app_data, user_profile, program_files, program_files_x86)
        + fixed_candidates()
}

/// All places `adb` is looked for, in order, as path components to join.
pub open spec fn search_candidates(env: AdbSearchEnv) -> Seq<Seq<Seq<char>>> {
    path_candidates(env.path_dirs.deep_view()) + standard_candidates(
        env.local_app_data.deep_view(),
        env.user_profile.deep_view(),
        env.program_files.deep_view(),
        env.program_files_x86.deep_view(),
    )
}

fn push_candidate(out: &mut Vec<Vec<String>>, base: &str, rest: &Vec<&str>)
    ensures
        final(out).deep_view() == old(out).deep_view().push(
            seq![base@] + rest@.map_values(|p: &str| p@),
        ),
{
    let mut c: Vec<String> = Vec::new();
    c.push(String::from_str(base));
    let mut i: usize = 0;
    while i < rest.len()
        invariant
            i <= rest@.len(),
            c.deep_view() == seq![base@] + rest@.take(i as int).map_values(|p: &str| p@),
        decreases rest@.len() - i,
    {
        let ghost before = c.deep_view();
        c.push(String::from_str(rest[i]));
        assert(c.deep_view() =~= before.push(rest@[i as int]@));
        assert(rest@.take(i + 1).map_values(|p: &str| p@) =~= rest@.take(i as int).map_values(
            |p: &str| p@,
        ).push(rest@[i as int]@));
        i = i + 1;
    }
    assert(rest@.take(rest@.len() as int) =~= rest@);
    let ghost before = out.deep_view();
    out.push(c);
    assert(out.deep_view() =~= before.push(seq![base@] + rest@.map_values(|p: &str| p@)));
}

fn push_under(out: &mut Vec<Vec<String>>, base: &Option<String>, rest: &Vec<&str>)
    ensures
        final(out).deep_view() == old(out).deep_view() + under(
            base.deep_view(),
            rest@.map_values(|p: &str| p@),
        ),
{
    match base {
        Some(b) => {
            push_candidate(out, b.as_str(), rest);
            assert(old(out).deep_view().push(seq![b@] + rest@.map_values(|p: &str| p@)) =~= old(
                out,
            ).deep_view() + under(base.deep_view(), rest@.map_values(|p: &str| p@)));
        },
        None => {
            assert(old(out).deep_view() =~= old(out).deep_view() + under(
                base.deep_view(),
                rest@.map_values(|p: &str| p@),
            ));
        },
    }
}

fn push_path_candidates(out: &mut Vec<Vec<String>>, dirs: &Vec<String>)
    requires
        old(out).deep_view().len() == 0,
    ensures
        final(out).deep_view() == path_candidates(dirs.deep_view()),
{
    let ghost ds = dirs.deep_view();
    let mut i: usize = 0;
    assert(out.deep_view() =~= path_candidates(ds.take(0)));
    while i < dirs.len()
        invariant
            i <= dirs@.len(),
            ds == dirs.deep_view(),
            out.deep_view() == path_candidates(ds.take(i as int)),
        decreases dirs@.len() - i,
    {
        let d = dirs[i].as_str();
        assert(ds.take(i + 1).drop_last() =~= ds.take(i as int));
        let exe = vec!["adb.exe"];
        assert(exe@.map_values(|p: &str| p@) =~= seq!["adb.exe"@]);
        push_candidate(out, d, &exe);
        let plain = vec!["adb"];
        assert(plain@.map_values(|p: &str| p@) =~= seq!["adb"@]);
        push_candidate(out, d, &plain);
        assert(seq![d@] + seq!["adb.exe"@] =~= seq![d@, "adb.exe"@]);
        assert(seq![d@] + seq!["adb"@] =~= seq![d@, "adb"@]);
        assert(out.deep_view() =~= path_candidates(ds.take(i + 1)));
        i = i + 1;
    }
    assert(ds.take(ds.len() as int) =~= ds);
}

fn push_sdk_candidates(out: &mut Vec<Vec<String>>, env: &AdbSearchEnv)
    ensures
        final(out).deep_view() == old(out).deep_view() + sdk_candidates(
            env.local_app_data.deep_view(),
            env.user_profile.deep_view(),
            env.program_files.deep_view(),
            env.program_files_x86.deep_view(),
        ),
{
    let ghost o = out.deep_view();
    let sdk = vec!["Android", "Sdk", "platform-tools", "adb.exe"];
    assert(sdk@.map_values(|p: &str| p@) =~= seq!["Android"@, "Sdk"@, "platform-tools"@, "adb.exe"@]);
    push_under(out, &env.local_app_data, &sdk);
    let local_sdk = vec!["AppData", "Local", "Android", "Sdk", "platform-tools", "adb.exe"];
    assert(local_sdk@.map_values(|p: &str| p@) =~= seq![
        "AppData"@,
        "Local"@,
        "Android"@,
        "Sdk"@,
        "platform-tools"@,
        "adb.exe"@,
    ]);
    push_under(out, &env.user_profile, &local_sdk);
    let tools = vec!["platform-tools", "adb.exe"];
    assert(tools@.map_values(|p: &str| p@) =~= seq!["platform-tools"@, "adb.exe"@]);
    push_under(out, &env.user_profile, &tools);
    let downloads = vec!["Downloads", "platform-tools", "adb.exe"];
    assert(downloads@.map_values(|p: &str| p@) =~= seq!["Downloads"@, "platform-tools"@, "adb.exe"@]);
    push_under(out, &env.user_profile, &downloads);
    let android = vec!["Android", "platform-tools", "adb.exe"];
    assert(android@.map_values(|p: &str| p@) =~= seq!["Android"@, "platform-tools"@, "adb.exe"@]);
    push_under(out, &env.program_files, &android);
    push_under(out, &env.program_files_x86, &android);
    assert(out.deep_view() =~= o + sdk_candidates(
        env.local_app_data.deep_view(),
        env.user_profile.deep_view(),
        env.program_files.deep_view(),
        env.program_files_x86.deep_view(),
    ));
}

fn push_fixed_candidates(out: &mut Vec<Vec<String>>)
    ensures
        final(out).deep_view() == old(out).deep_view() + fixed_candidates(),
{
    let ghost o = out.deep_view();
    let none: Vec<&str> = Vec::new();
    assert(none@.map_values(|p: &str| p@) =~= Seq::<Seq<char>>::empty());
    push_candidate(out, "C:\\platform-tools\\adb.exe", &none);
    push_candidate(out, "D:\\platform-tools\\adb.exe", &none);
    push_candidate(out, "C:\\adb\\adb.exe", &none);
    assert(seq!["C:\\platform-tools\\adb.exe"@] + Seq::<Seq<char>>::empty() =~= seq!["C:\\platform-tools\\adb.exe"@]);
    assert(seq!["D:\\platform-tools\\adb.exe"@] + Seq::<Seq<char>>::empty() =~= seq!["D:\\platform-tools\\adb.exe"@]);
    assert(seq!["C:\\adb\\adb.exe"@] + Seq::<Seq<char>>::empty() =~= seq!["C:\\adb\\adb.exe"@]);
    assert(out.deep_view() =~= o + fixed_candidates());
}

/// Every place `adb` is looked for, in order (see `search_candidates`), as
/// path components; joining them into paths is the platform's business.
pub fn adb_search_candidates(env: &AdbSearchEnv) -> (r: Vec<Vec<String>>)
    ensures
        r.deep_view() == search_candidates(*env),
{
    let mut out: Vec<Vec<String>> = Vec::new();
    assert(out.deep_view() =~= Seq::<Seq<Seq<char>>>::empty());
    push_path_candidates(&mut out, &env.path_dirs);
    push_sdk_candidates(&mut out, env);
    push_fixed_candidates(&mut out);
    assert(out.deep_view() =~= search_candidates(*env));
    out
}

// ---------------------------------------------------------------------------
// Shell commands
// ---------------------------------------------------------------------------

/// What a finished `adb -s <serial> shell <command>` amounts to, from its
/// exit status and its (lossily decoded) output streams.
pub open spec fn shell_outcome_ok(success: bool, stderr: Seq<char>) -> bool {
    success && !contains_seq(stderr, "device unauthorized"@)
}

/// Reads a finished `adb shell` command: a failed command reports an
/// unauthorized or disconnected device from its error stream, or fails with
/// both streams; an authorization complaint fails even a successful
/// command; otherwise the output is the result.
pub fn shell_output_result(serial: &str, success: bool, stdout: String, stderr: String) -> (r:
    Result<String, AppError>)
    ensures
        shell_outcome_ok(success, stderr@) <==> r is Ok,
        r matches Ok(o) ==> o@ == stdout@,
        contains_seq(stderr@, "device unauthorized"@) ==> r matches Err(AppError::DeviceUnauthorized),
        (!success && !contains_seq(stderr@, "device unauthorized"@) && (contains_seq(
            stderr@,
            "device not found"@,
        ) || contains_seq(stderr@, "device offline"@))) ==> (r matches Err(
            AppError::DeviceDisconnected(s),
        ) && s@ == serial@),
        (!success && !contains_seq(stderr@, "device unauthorized"@) && !contains_seq(
            stderr@,
            "device not found"@,
        ) && !contains_seq(stderr@, "device offline"@)) ==> (r matches Err(
            AppError::AdbCommandFailed(m),
        ) && m@ == stderr@ + " "@ + stdout@),
{
    let err = chars_of(stderr.as_str());
    let unauthorized = contains_str(&err, "device unauthorized");
    if !success {
        if unauthorized {
            return Err(AppError::DeviceUnauthorized);
        } else if contains_str(&err, "device not found") || contains_str(&err, "device offline") {
            return Err(AppError::DeviceDisconnected(String::from_str(serial)));
        }
        let mut m: Vec<char> = Vec::new();
        push_str(&mut m, stderr.as_str());
        push_str(&mut m, " ");
        push_str(&mut m, stdout.as_str());
        assert(m@ =~= stderr@ + " "@ + stdout@);
        return Err(AppError::AdbCommandFailed(string_of(m.as_slice())));
    }
    // ADB sometimes returns 0 even if unauthorized or device offline in stderr
    if unauthorized {
        return Err(AppError::DeviceUnauthorized);
    }
    Ok(stdout)
}

// ---------------------------------------------------------------------------
// `adb devices -l`
// ---------------------------------------------------------------------------

/// Whether a line of `adb devices -l` describes a device (it is not blank,
/// not the `List of devices` header and not a `*` daemon message).
pub open spec fn listing_line_kept(line: Seq<char>) -> bool {
    let t = trim_seq(line);
    !(t.len() == 0 || has_prefix(t, "List of devices"@) || has_prefix(t, "*"@))
}

/// The device after reading one `key:value` tag: `model` sets the model
/// (underscores read as spaces), `device` sets it only when none is known.
pub open spec fn apply_tag(d: DeviceView, tag: Seq<char>) -> DeviceView {
    match split_once_seq(tag, ":"@) {
        Some(kv) => if kv.0 == "model"@ {
            DeviceView { model: Some(underscores_to_spaces(kv.1)), ..d }
        } else if kv.0 == "device"@ {
            if d.model is None {
                DeviceView { model: Some(kv.1), ..d }
            } else {
                d
            }
        } else {
            d
        },
        None => d,
    }
}

pub open spec fn apply_tags(d: DeviceView, tags: Seq<Seq<char>>) -> DeviceView
    decreases tags.len(),
{
    if tags.len() == 0 {
        d
    } else {
        apply_tag(apply_tags(d, tags.drop_last()), tags.last())
    }
}

/// The device one listing line describes: serial, status word (`unknown`
/// when missing), then the tags.
pub open spec fn device_of_line(line: Seq<char>) -> DeviceView {
    let parts = words_seq(trim_seq(line));
    let status = if parts.len() > 1 {
        status_of_text(parts[1])
    } else {
        status_of_text("unknown"@)
    };
    apply_tags(new_device(parts[0], status), parts.subrange(2, parts.len() as int))
}

/// Devices described by a run of listing lines, in order.
pub open spec fn devices_of_lines(lines: Seq<Seq<char>>) -> Seq<DeviceView>
    decreases lines.len(),
{
    if lines.len() == 0 {
        seq![]
    } else {
        let prev = devices_of_lines(lines.drop_last());
        if listing_line_kept(lines.last()) {
            prev.push(device_of_line(lines.last()))
        } else {
            prev
        }
    }
}

/// Devices described by an `adb devices -l` output.
pub open spec fn devices_of_output(output: Seq<char>) -> Seq<DeviceView> {
    devices_of_lines(lines_seq(output))
}

/// Whether every device line holds at least a serial and a status: a line
/// with a serial alone is outside what the parser reads.
pub open spec fn listing_well_formed(output: Seq<char>) -> bool {
    forall|i: int|
        0 <= i < lines_seq(output).len() && listing_line_kept(#[trigger] lines_seq(output)[i])
            ==> words_seq(trim_seq(lines_seq(output)[i])).len() != 1
}

fn is_kept_line(t: &Vec<char>) -> (r: bool)
    ensures
        r == !(t@.len() == 0 || has_prefix(t@, "List of devices"@) || has_prefix(t@, "*"@)),
{
    !(t.len() == 0 || starts_with_str(t, "List of devices") || starts_with_str(t, "*"))
}

/// Checks that an `adb devices -l` output is one `parse_adb_devices_output`
/// reads (see `listing_well_formed`).
pub fn is_well_formed_listing(output: &str) -> (r: bool)
    ensures
        r == listing_well_formed(output@),
{
    let v = chars_of(output);
    let lines = lines_of(&v);
    let ghost ls = lines_seq(output@);
    let mut i: usize = 0;
    while i < lines.len()
        invariant
            i <= lines@.len(),
            lines.deep_view() == ls,
            ls == lines_seq(output@),
            forall|j: int|
                0 <= j < i && listing_line_kept(#[trigger] ls[j]) ==> words_seq(
                    trim_seq(ls[j]),
                ).len() != 1,
        decreases lines@.len() - i,
    {
        proof {
            crate::text::lemma_chars_deep_view(lines@[i as int]);
        }
        let t = trim_chars(&lines[i]);
        if is_kept_line(&t) {
            let parts = split_whitespace_of(&t);
            if parts.len() == 1 {
                assert(listing_line_kept(ls[i as int]));
                return false;
            }
        }
        i = i + 1;
    }
    true
}

fn apply_tag_exec(device: &mut DeviceInfo, tag: &Vec<char>)
    ensures
        final(device)@ == apply_tag(old(device)@, tag@),
{
    match split_once_str(tag, ":") {
        Some((k, v)) => {
            proof {
                crate::text::lemma_chars_deep_view(k);
                crate::text::lemma_chars_deep_view(v);
            }
            if chars_eq_str(&k, "model") {
                let m = replace_underscores(&v);
                device.model = Some(string_of(m.as_slice()));
            } else if chars_eq_str(&k, "device") {
                if device.model.is_none() {
                    device.model = Some(string_of(v.as_slice()));
                }
            }
        },
        None => {},
    }
}

fn device_from_line(line: &Vec<char>) -> (r: DeviceInfo)
    requires
        listing_line_kept(line@),
        words_seq(trim_seq(line@)).len() != 1,
    ensures
        r@ == device_of_line(line@),
{
    let t = trim_chars(line);
    let parts = split_whitespace_of(&t);
    let ghost pv = parts.deep_view();
    assert(pv == words_seq(trim_seq(line@)));
    proof {
        lemma_words_nonempty(line@);
    }
    assert(parts.len() >= 2);
    proof {
        crate::text::lemma_chars_deep_view(parts@[0]);
        crate::text::lemma_chars_deep_view(parts@[1]);
    }
    let serial = string_of(parts[0].as_slice());
    let status_text = string_of(parts[1].as_slice());
    let status = DeviceStatus::from(status_text.as_str());
    let mut device = DeviceInfo::new(serial, status);
    let mut i: usize = 2;
    while i < parts.len()
        invariant
            2 <= i <= parts@.len(),
            pv == parts.deep_view(),
            device@ == apply_tags(
                new_device(pv[0], status_of_text(pv[1])),
                pv.subrange(2, i as int),
            ),
        decreases parts@.len() - i,
    {
        proof {
            crate::text::lemma_chars_deep_view(parts@[i as int]);
        }
        assert(pv.subrange(2, i + 1).drop_last() =~= pv.subrange(2, i as int));
        apply_tag_exec(&mut device, &parts[i]);
        i = i + 1;
    }
    device
}

/// A non-blank text has at least one word.
pub proof fn lemma_words_nonempty(s: Seq<char>)
    requires
        trim_seq(s).len() > 0,
    ensures
        words_seq(trim_seq(s)).len() >= 1,
{
    crate::text::lemma_trim_bounds(s);
    let t = trim_seq(s);
    crate::text::lemma_skip_forward_bounds(s, 0);
    assert(!crate::text::is_white_space(t[0]));
    lemma_word_scan_progress(t, t.len() as int);
    assert(t.take(t.len() as int) =~= t);
}

/// After a non-whitespace first character, there is a word finished or in progress.
proof fn lemma_word_scan_progress(t: Seq<char>, k: int)
    requires
        0 < k <= t.len(),
        !crate::text::is_white_space(t[0]),
    ensures
        crate::text::word_scan(t.take(k)).0.len() > 0 || crate::text::word_scan(t.take(k)).1.len()
            > 0,
    decreases k,
{
    if k > 1 {
        lemma_word_scan_progress(t, k - 1);
        assert(t.take(k).drop_last() =~= t.take(k - 1));
    } else {
        assert(t.take(1).drop_last() =~= t.take(0));
    }
}

/// Parses the output of `adb devices -l`
pub fn parse_adb_devices_output(output: &str) -> (r: Vec<DeviceInfo>)
    requires
        listing_well_formed(output@),
    ensures
        r@.len() == devices_of_output(output@).len(),
        forall|i: int| 0 <= i < r@.len() ==> #[trigger] r@[i]@ == devices_of_output(output@)[i],
{
    let v = chars_of(output);
    let lines = lines_of(&v);
    let ghost ls = lines_seq(output@);
    let mut devices: Vec<DeviceInfo> = Vec::new();
    let mut i: usize = 0;
    while i < lines.len()
        invariant
            i <= lines@.len(),
            lines.deep_view() == ls,
            ls == lines_seq(output@),
            listing_well_formed(output@),
            devices@.len() == devices_of_lines(ls.take(i as int)).len(),
            forall|j: int|
                0 <= j < devices@.len() ==> #[trigger] devices@[j]@ == devices_of_lines(
                    ls.take(i as int),
                )[j],
        decreases lines@.len() - i,
    {
        proof {
            crate::text::lemma_chars_deep_view(lines@[i as int]);
        }
        assert(ls.take(i + 1).drop_last() =~= ls.take(i as int));
        let t = trim_chars(&lines[i]);
        if is_kept_line(&t) {
            assert(listing_line_kept(ls[i as int]));
            let d = device_from_line(&lines[i]);
            devices.push(d);
        }
        i = i + 1;
    }
    assert(ls.take(lines@.len() as int) =~= ls);
    devices
}

// ---------------------------------------------------------------------------
// `getprop`
// ---------------------------------------------------------------------------

/// The device after reading the `getprop` answer for model, manufacturer,
/// Android release and SDK level (one per line): blank lines leave a field
/// as it was, and the SDK level is kept only when it reads as a `u32`.
pub open spec fn device_with_properties(d: DeviceView, output: Seq<char>) -> DeviceView {
    let lines = lines_seq(output);
    let l0 = if lines.len() > 0 { trim_seq(lines[0]) } else { seq![] };
    let l1 = if lines.len() > 1 { trim_seq(lines[1]) } else { seq![] };
    let l2 = if lines.len() > 2 { trim_seq(lines[2]) } else { seq![] };
    DeviceView {
        model: if l0.len() > 0 { Some(l0) } else { d.model },
        manufacturer: if l1.len() > 0 { Some(l1) } else { d.manufacturer },
        android_version: if l2.len() > 0 { Some(l2) } else { d.android_version },
        sdk_level: if lines.len() > 3 && parse_u32_seq(trim_seq(lines[3])) is Some {
            parse_u32_seq(trim_seq(lines[3]))
        } else {
            d.sdk_level
        },
        ..d
    }
}

fn nonblank_line(lines: &Vec<Vec<char>>, k: usize) -> (r: Option<String>)
    ensures
        r.deep_view() == (if k < lines@.len() && trim_seq(lines@[k as int]@).len() > 0 {
            Some(trim_seq(lines@[k as int]@))
        } else {
            None
        }),
{
    if k < lines.len() {
        let t = trim_chars(&lines[k]);
        if t.len() > 0 {
            return Some(string_of(t.as_slice()));
        }
    }
    None
}

/// Fills in model, manufacturer, Android version and SDK level from the
/// output of the `getprop` query.
pub fn apply_device_properties(device: &mut DeviceInfo, output: &str)
    ensures
        final(device)@ == device_with_properties(old(device)@, output@),
{
    let v = chars_of(output);
    let lines = lines_of(&v);
    let ghost ls = lines_seq(output@);
    assert(lines.deep_view() == ls);
    proof {
        assert forall|k: int| 0 <= k < lines@.len() implies lines@[k]@ == ls[k] by {
            crate::text::lemma_chars_deep_view(lines@[k]);
        }
    }
    match nonblank_line(&lines, 0) {
        Some(m) => device.model = Some(m),
        None => {},
    }
    match nonblank_line(&lines, 1) {
        Some(m) => device.manufacturer = Some(m),
        None => {},
    }
    match nonblank_line(&lines, 2) {
        Some(m) => device.android_version = Some(m),
        None => {},
    }
    if lines.len() > 3 {
        let t = trim_chars(&lines[3]);
        match parse_u32(&t) {
            Some(level) => device.sdk_level = Some(level),
            None => {},
        }
    }
}

/// Whether the details of a device are worth querying: only an authorized
/// device answers `getprop`.
pub fn wants_device_details(device: &DeviceInfo) -> (r: bool)
    ensures
        r == (device.status@ == DeviceStatusView::Device),
{
    match device.status {
        DeviceStatus::Device => true,
        _ => false,
    }
}

/// What `adb devices -l` amounts to: a failed command fails with its error
/// stream, otherwise the devices listed.
pub fn devices_from_output(success: bool, stdout: &str, stderr: String) -> (r: Result<
    Vec<DeviceInfo>,
    AppError,
>)
    requires
        success ==> listing_well_formed(stdout@),
    ensures
        !success ==> (r matches Err(AppError::AdbCommandFailed(m)) && m@ == stderr@),
        success ==> (r matches Ok(devs) && devs@.len() == devices_of_output(stdout@).len()
            && forall|i: int|
            0 <= i < devs@.len() ==> #[trigger] devs@[i]@ == devices_of_output(stdout@)[i]),
{
    if !success {
        return Err(AppError::AdbCommandFailed(stderr));
    }
    Ok(parse_adb_devices_output(stdout))
}

// ---------------------------------------------------------------------------
// Laws
// ---------------------------------------------------------------------------

/// A `model:<v>` tag sets the model to `v` with every underscore read as a
/// space, character for character (so no underscore is left), and changes
/// nothing else of the device.
pub proof fn law_model_tag_underscores(d: DeviceView, tag: Seq<char>, v: Seq<char>)
    requires
        split_once_seq(tag, ":"@) == Some(("model"@, v)),
    ensures
        apply_tag(d, tag).model matches Some(m) && m.len() == v.len() && (forall|i: int|
            0 <= i < v.len() ==> #[trigger] m[i] == (if v[i] == '_' {
                ' '
            } else {
                v[i]
            })) && !m.contains('_'),
        apply_tag(d, tag).serial == d.serial,
        apply_tag(d, tag).status == d.status,
        apply_tag(d, tag).manufacturer == d.manufacturer,
        apply_tag(d, tag).usb_connection == d.usb_connection,
{
    let m = underscores_to_spaces(v);
    assert(apply_tag(d, tag).model == Some(m));
    assert forall|i: int| 0 <= i < m.len() implies m[i] != '_' by {
        assert(m[i] == (if v[i] == '_' { ' ' } else { v[i] }));
    }
}

proof fn lemma_tags_keep_identity(d: DeviceView, tags: Seq<Seq<char>>)
    ensures
        apply_tags(d, tags).serial == d.serial,
        apply_tags(d, tags).status == d.status,
        apply_tags(d, tags).usb_connection == d.usb_connection,
    decreases tags.len(),
{
    if tags.len() > 0 {
        lemma_tags_keep_identity(d, tags.drop_last());
    }
}

proof fn lemma_devices_of_lines(lines: Seq<Seq<char>>, i: int)
    requires
        0 <= i < devices_of_lines(lines).len(),
    ensures
        exists|k: int|
            0 <= k < lines.len() && listing_line_kept(lines[k]) && devices_of_lines(lines)[i]
                == #[trigger] device_of_line(lines[k]),
    decreases lines.len(),
{
    let prev = devices_of_lines(lines.drop_last());
    if i < prev.len() {
        lemma_devices_of_lines(lines.drop_last(), i);
        let k = choose|k: int|
            0 <= k < lines.drop_last().len() && listing_line_kept(lines.drop_last()[k])
                && prev[i] == #[trigger] device_of_line(lines.drop_last()[k]);
        assert(lines[k] == lines.drop_last()[k]);
    } else {
        assert(device_of_line(lines[lines.len() - 1]) == devices_of_lines(lines)[i]);
    }
}

/// Every listed device comes from one device line: its serial is the
/// line's first word, and it counts as a USB device exactly when that
/// serial holds no `:` (an `IP:port` serial is a network connection).
pub proof fn law_listed_device_transport(output: Seq<char>, i: int)
    requires
        0 <= i < devices_of_output(output).len(),
    ensures
        devices_of_output(output)[i].usb_connection == !devices_of_output(output)[i].serial.contains(
            ':',
        ),
        exists|k: int|
            0 <= k < lines_seq(output).len() && listing_line_kept(lines_seq(output)[k])
                && devices_of_output(output)[i].serial == words_seq(
                trim_seq(#[trigger] lines_seq(output)[k]),
            )[0],
{
    lemma_devices_of_lines(lines_seq(output), i);
    let k = choose|k: int|
        0 <= k < lines_seq(output).len() && listing_line_kept(lines_seq(output)[k])
            && devices_of_lines(lines_seq(output))[i] == #[trigger] device_of_line(
            lines_seq(output)[k],
        );
    let line = lines_seq(output)[k];
    let parts = words_seq(trim_seq(line));
    let status = if parts.len() > 1 {
        status_of_text(parts[1])
    } else {
        status_of_text("unknown"@)
    };
    lemma_tags_keep_identity(new_device(parts[0], status), parts.subrange(2, parts.len() as int));
}

} // verus!
