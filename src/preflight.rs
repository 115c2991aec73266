//! Preflight validation: the battery of checks that decides whether a run
//! configuration is executable. The environment probes (is a command on the
//! path, does a folder exist, can a file be written) are observed by the
//! host and handed in as plain values; what is checked, in which order, with
//! which finding and remedy, and whether the whole is ready, is decided here.

use vstd::prelude::*;
use vstd::string::StringExecFns;
use crate::text::{concat, is_path_like, trim_of, trimmed};

verus! {

/// Identifier of one preflight check.
#[derive(Clone, Copy, Debug, PartialEq, Eq, Structural)]
pub enum CheckKey {
    Powershell,
    Ffmpeg,
    InputFolders,
    InputFolder,
    OutputFolder,
    OutputWritable,
    WhisperExe,
    ModelFile,
    BatchScript,
}

pub open spec fn key_name(k: CheckKey) -> Seq<char> {
    match k {
        CheckKey::Powershell => "powershell"@,
        CheckKey::Ffmpeg => "ffmpeg"@,
        CheckKey::InputFolders => "inputFolders"@,
        CheckKey::InputFolder => "inputFolder"@,
        CheckKey::OutputFolder => "outputFolder"@,
        CheckKey::OutputWritable => "outputWritable"@,
        CheckKey::WhisperExe => "whisperExe"@,
        CheckKey::ModelFile => "modelFile"@,
        CheckKey::BatchScript => "batchScript"@,
    }
}

impl CheckKey {
    /// The identifier as the front-end knows it.
    pub fn name(&self) -> (r: &'static str)
        ensures
            r@ == key_name(*self),
    {
        match self {
            CheckKey::Powershell => "powershell",
            CheckKey::Ffmpeg => "ffmpeg",
            CheckKey::InputFolders => "inputFolders",
            CheckKey::InputFolder => "inputFolder",
            CheckKey::OutputFolder => "outputFolder",
            CheckKey::OutputWritable => "outputWritable",
            CheckKey::WhisperExe => "whisperExe",
            CheckKey::ModelFile => "modelFile",
            CheckKey::BatchScript => "batchScript",
        }
    }
}

/// Abstract value of a check.
pub struct CheckView {
    pub key: CheckKey,
    pub ok: bool,
    pub detail: Seq<char>,
    pub fix: Seq<char>,
}

/// One finding: pass or fail, what was found, and how to remedy it (empty
/// when it passed without a remedy).
#[derive(Debug)]
pub struct PreflightCheck {
    pub key: CheckKey,
    pub ok: bool,
    pub detail: String,
    pub fix: String,
}

impl View for PreflightCheck {
    type V = CheckView;

    open spec fn view(&self) -> CheckView {
        CheckView { key: self.key, ok: self.ok, detail: self.detail@, fix: self.fix@ }
    }
}

/// The complete diagnostic for one configuration.
#[derive(Debug)]
pub struct PreflightReport {
    pub ready: bool,
    pub checks: Vec<PreflightCheck>,
    pub resolved_script_path: Option<String>,
    pub generated_at_epoch: u64,
}

/// The configuration to validate.
#[derive(Debug)]
pub struct PreflightRequest {
    pub input_folders: Vec<String>,
    pub output_folder: String,
    pub whisper_exe: String,
    pub model_file: String,
    pub script_path: Option<String>,
}

/// What the host found at the output folder, before the write probe.
#[derive(Debug)]
pub enum OutputProbe {
    /// It exists and is a directory.
    Directory,
    /// It exists and is not a directory.
    NotDirectory,
    /// It was missing and has been created.
    Created,
    /// It was missing and creating it failed with this error.
    CreateFailed(String),
}

/// The environment as the host observed it for one request.
#[derive(Debug)]
pub struct PreflightProbes {
    /// The PowerShell command name looked up on the path.
    pub shell_name: String,
    pub shell_found: bool,
    pub ffmpeg_found: bool,
    /// For each input folder, in order: its trimmed path exists and is a directory.
    pub input_folder_ok: Vec<bool>,
    /// The output folder's state; only read when the trimmed output folder is non-empty.
    pub output: OutputProbe,
    /// The error of the write probe, if it failed; only read when the output folder is usable.
    pub write_error: Option<String>,
    /// The job executable was found, as a file or as a command (see `whisper_target`).
    pub whisper_found: bool,
    /// The trimmed model path exists and is a regular file.
    pub model_is_file: bool,
    /// Outcome of the batch script resolution.
    pub script: Result<String, String>,
}

/// How the job executable is to be looked for.
#[derive(Debug)]
pub enum WhisperTarget {
    /// The trimmed value is empty: nothing to look for.
    Empty,
    /// A filesystem path that must be an existing file.
    File(String),
    /// A command name to find on the execution path.
    Command(String),
}

pub open spec fn check_view(key: CheckKey, ok: bool, detail: Seq<char>, fix: Seq<char>) -> CheckView {
    CheckView { key, ok, detail, fix }
}

/// A check as reported: a passing check carries no remedy.
pub open spec fn finding(key: CheckKey, ok: bool, detail: Seq<char>, fix: Seq<char>) -> CheckView {
    check_view(key, ok, detail, if ok { Seq::empty() } else { fix })
}

pub open spec fn all_ok(checks: Seq<CheckView>) -> bool {
    forall|i: int| 0 <= i < checks.len() ==> #[trigger] checks[i].ok
}

pub open spec fn output_usable(p: OutputProbe) -> bool {
    match p {
        OutputProbe::Directory => true,
        OutputProbe::Created => true,
        _ => false,
    }
}

pub open spec fn output_detail(p: OutputProbe, path: Seq<char>) -> Seq<char> {
    match p {
        OutputProbe::Directory => "Output folder exists: "@ + path,
        OutputProbe::NotDirectory => "Output path is a file, not a folder: "@ + path,
        OutputProbe::Created => "Output folder created: "@ + path,
        OutputProbe::CreateFailed(e) => "Failed to create output folder "@ + path + ": "@ + e@,
    }
}

pub open spec fn tool_checks(shell: Seq<char>, shell_found: bool, ffmpeg_found: bool) -> Seq<CheckView> {
    seq![
        finding(
            CheckKey::Powershell,
            shell_found,
            if shell_found { "Found '"@ + shell + "' on PATH"@ } else { "'"@ + shell + "' not found on PATH"@ },
            "Install PowerShell and ensure it is available on PATH."@,
        ),
        finding(
            CheckKey::Ffmpeg,
            ffmpeg_found,
            if ffmpeg_found { "Found 'ffmpeg' on PATH"@ } else { "ffmpeg not found on PATH"@ },
            "Install ffmpeg (example: winget install Gyan.FFmpeg) and reopen the app."@,
        ),
    ]
}

pub open spec fn folder_check(folder: Seq<char>, found: bool) -> CheckView {
    let p = trim_of(folder);
    let ok = p.len() > 0 && found;
    finding(
        CheckKey::InputFolder,
        ok,
        if ok { "Input folder OK: "@ + p } else { "Input folder missing/not directory: "@ + p },
        "Select a valid folder containing church media files."@,
    )
}

pub open spec fn folder_checks(folders: Seq<Seq<char>>, found: Seq<bool>) -> Seq<CheckView> {
    if folders.len() == 0 {
        seq![
            finding(
                CheckKey::InputFolders,
                false,
                "No input folders were provided"@,
                "Set at least one valid input folder."@,
            ),
        ]
    } else {
        Seq::new(folders.len(), |i: int| folder_check(folders[i], found[i]))
    }
}

pub open spec fn output_checks(output: Seq<char>, probe: OutputProbe, write_error: Option<String>) -> Seq<CheckView> {
    let p = trim_of(output);
    if p.len() == 0 {
        seq![
            finding(
                CheckKey::OutputFolder,
                false,
                "Output folder is empty"@,
                "Choose a writable output folder (example: D:\\ChurchTranscripts)."@,
            ),
        ]
    } else {
        let folder_fix = "Pick a valid writable output folder."@;
        let detail = output_detail(probe, p);
        if output_usable(probe) && write_error is Some {
            seq![
                finding(
                    CheckKey::OutputWritable,
                    false,
                    "Cannot write to output folder "@ + p + ": "@ + write_error->Some_0@,
                    "Pick a writable folder, then run preflight again."@,
                ),
                finding(CheckKey::OutputFolder, false, detail, folder_fix),
            ]
        } else {
            seq![finding(CheckKey::OutputFolder, output_usable(probe), detail, folder_fix)]
        }
    }
}

pub open spec fn whisper_checks(exe: Seq<char>, found: bool) -> Seq<CheckView> {
    let w = trim_of(exe);
    if w.len() == 0 {
        seq![
            finding(
                CheckKey::WhisperExe,
                false,
                "Whisper executable path is empty"@,
                "Set whisper executable path (example: C:\\ai\\whisper\\whisper-cli.exe)."@,
            ),
        ]
    } else {
        seq![
            finding(
                CheckKey::WhisperExe,
                found,
                if found { "Whisper executable OK: "@ + w } else { "Whisper executable not found: "@ + w },
                "Install whisper.cpp binary and set the exact whisper-cli.exe path."@,
            ),
        ]
    }
}

pub open spec fn model_checks(model: Seq<char>, is_file: bool) -> Seq<CheckView> {
    let m = trim_of(model);
    if m.len() == 0 {
        seq![
            finding(
                CheckKey::ModelFile,
                false,
                "Model file path is empty"@,
                "Set model path (example: C:\\ai\\whisper-models\\ggml-small.en.bin)."@,
            ),
        ]
    } else {
        seq![
            finding(
                CheckKey::ModelFile,
                is_file,
                if is_file { "Model file OK: "@ + m } else { "Model file missing: "@ + m },
                "Download model file and set the correct full path."@,
            ),
        ]
    }
}

pub open spec fn script_checks(script: Result<String, String>) -> Seq<CheckView> {
    match script {
        Ok(path) => seq![finding(CheckKey::BatchScript, true, "Batch script resolved: "@ + path@, ""@)],
        Err(e) => seq![
            finding(
                CheckKey::BatchScript,
                false,
                e@,
                "Set Script Path override to church_transcribe_batch.ps1."@,
            ),
        ],
    }
}

/// The full ordered battery for a request and what the host observed.
pub open spec fn expected_checks(req: &PreflightRequest, probes: &PreflightProbes) -> Seq<CheckView> {
    tool_checks(probes.shell_name@, probes.shell_found, probes.ffmpeg_found)
        + folder_checks(req.input_folders@.map_values(|f: String| f@), probes.input_folder_ok@)
        + output_checks(req.output_folder@, probes.output, probes.write_error)
        + whisper_checks(req.whisper_exe@, probes.whisper_found)
        + model_checks(req.model_file@, probes.model_is_file)
        + script_checks(probes.script)
}

pub open spec fn view_checks(checks: Seq<PreflightCheck>) -> Seq<CheckView> {
    checks.map_values(|c: PreflightCheck| c@)
}

fn make_check(key: CheckKey, ok: bool, detail: String, fix: &str) -> (r: PreflightCheck)
    ensures
        r@ == check_view(key, ok, detail@, fix@),
{
    PreflightCheck { key, ok, detail, fix: String::from_str(fix) }
}

/// Appends a finding; its remedy is kept only when the check fails.
fn push_check(checks: &mut Vec<PreflightCheck>, key: CheckKey, ok: bool, detail: String, fix: &str)
    ensures
        view_checks(final(checks)@) == view_checks(old(checks)@).push(finding(key, ok, detail@, fix@)),
{
    let remedy = if ok {
        ""
    } else {
        fix
    };
    proof {
        reveal_strlit("");
    }
    assert(remedy@ =~= (if ok { Seq::<char>::empty() } else { fix@ }));
    let c = make_check(key, ok, detail, remedy);
    checks.push(c);
    assert(view_checks(final(checks)@) =~= view_checks(old(checks)@).push(finding(key, ok, detail@, fix@)));
}

/// How the job executable given in a request is to be looked for.
pub fn whisper_target(exe: &str) -> (r: WhisperTarget)
    ensures
        trim_of(exe@).len() == 0 ==> r is Empty,
        trim_of(exe@).len() > 0 && is_path_like(trim_of(exe@)) ==> r is File && r->File_0@ == trim_of(exe@),
        trim_of(exe@).len() > 0 && !is_path_like(trim_of(exe@)) ==> r is Command && r->Command_0@ == trim_of(exe@),
{
    let w = trimmed(exe);
    if w.unicode_len() == 0 {
        WhisperTarget::Empty
    } else if crate::text::looks_like_path(w.as_str()) {
        WhisperTarget::File(w)
    } else {
        WhisperTarget::Command(w)
    }
}

/// Whether a folder in the probed state can take output and so gets a write probe.
pub fn output_is_usable(probe: &OutputProbe) -> (r: bool)
    ensures
        r == output_usable(*probe),
{
    match probe {
        OutputProbe::Directory => true,
        OutputProbe::Created => true,
        _ => false,
    }
}

/// Whether every check passed.
pub fn checks_all_ok(checks: &Vec<PreflightCheck>) -> (r: bool)
    ensures
        r == all_ok(view_checks(checks@)),
{
    let mut i: usize = 0;
    while i < checks.len()
        invariant
            0 <= i <= checks@.len(),
            forall|j: int| 0 <= j < i ==> #[trigger] checks@[j].ok,
        decreases checks@.len() - i,
    {
        if !checks[i].ok {
            assert(!view_checks(checks@)[i as int].ok);
            return false;
        }
        i = i + 1;
    }
    assert forall|j: int| 0 <= j < view_checks(checks@).len() implies #[trigger] view_checks(checks@)[j].ok by {
        assert(checks@[j].ok);
    }
    true
}

fn push_tool_checks(checks: &mut Vec<PreflightCheck>, shell: &str, shell_found: bool, ffmpeg_found: bool)
    ensures
        view_checks(final(checks)@) == view_checks(old(checks)@) + tool_checks(shell@, shell_found, ffmpeg_found),
{
    let d = if shell_found {
        concat(concat("Found '", shell).as_str(), "' on PATH")
    } else {
        concat(concat("'", shell).as_str(), "' not found on PATH")
    };
    push_check(checks, CheckKey::Powershell, shell_found, d, "Install PowerShell and ensure it is available on PATH.");
    let d = if ffmpeg_found {
        String::from_str("Found 'ffmpeg' on PATH")
    } else {
        String::from_str("ffmpeg not found on PATH")
    };
    push_check(
        checks,
        CheckKey::Ffmpeg,
        ffmpeg_found,
        d,
        "Install ffmpeg (example: winget install Gyan.FFmpeg) and reopen the app.",
    );
    assert(view_checks(final(checks)@) =~= view_checks(old(checks)@) + tool_checks(shell@, shell_found, ffmpeg_found));
}

fn push_folder_checks(checks: &mut Vec<PreflightCheck>, folders: &Vec<String>, found: &Vec<bool>)
    requires
        found@.len() == folders@.len(),
    ensures
        view_checks(final(checks)@) == view_checks(old(checks)@) + folder_checks(
            folders@.map_values(|f: String| f@),
            found@,
        ),
{
    let ghost fs = folders@.map_values(|f: String| f@);
    if folders.len() == 0 {
        push_check(
            checks,
            CheckKey::InputFolders,
            false,
            String::from_str("No input folders were provided"),
            "Set at least one valid input folder.",
        );
        assert(view_checks(final(checks)@) =~= view_checks(old(checks)@) + folder_checks(fs, found@));
        return;
    }
    let ghost start = view_checks(checks@);
    let mut i: usize = 0;
    while i < folders.len()
        invariant
            found@.len() == folders@.len(),
            fs == folders@.map_values(|f: String| f@),
            0 <= i <= folders@.len(),
            view_checks(checks@) == start + Seq::new(i as nat, |j: int| folder_check(fs[j], found@[j])),
        decreases folders@.len() - i,
    {
        let p = trimmed(folders[i].as_str());
        let ok = p.unicode_len() > 0 && found[i];
        let d = if ok {
            concat("Input folder OK: ", p.as_str())
        } else {
            concat("Input folder missing/not directory: ", p.as_str())
        };
        push_check(checks, CheckKey::InputFolder, ok, d, "Select a valid folder containing church media files.");
        assert(fs[i as int] == folders@[i as int]@);
        assert(Seq::new((i + 1) as nat, |j: int| folder_check(fs[j], found@[j])) =~= Seq::new(
            i as nat,
            |j: int| folder_check(fs[j], found@[j]),
        ).push(folder_check(fs[i as int], found@[i as int])));
        i = i + 1;
    }
    assert(Seq::new(folders@.len() as nat, |j: int| folder_check(fs[j], found@[j])) =~= folder_checks(fs, found@));
}

fn output_detail_text(probe: &OutputProbe, path: &str) -> (r: String)
    ensures
        r@ == output_detail(*probe, path@),
{
    match probe {
        OutputProbe::Directory => concat("Output folder exists: ", path),
        OutputProbe::NotDirectory => concat("Output path is a file, not a folder: ", path),
        OutputProbe::Created => concat("Output folder created: ", path),
        OutputProbe::CreateFailed(e) => {
            let a = concat("Failed to create output folder ", path);
            let b = concat(a.as_str(), ": ");
            let r = concat(b.as_str(), e.as_str());
            assert(r@ =~= output_detail(*probe, path@));
            r
        },
    }
}

fn push_output_checks(checks: &mut Vec<PreflightCheck>, output: &str, probe: &OutputProbe, write_error: &Option<String>)
    ensures
        view_checks(final(checks)@) == view_checks(old(checks)@) + output_checks(output@, *probe, *write_error),
{
    let p = trimmed(output);
    if p.unicode_len() == 0 {
        push_check(
            checks,
            CheckKey::OutputFolder,
            false,
            String::from_str("Output folder is empty"),
            "Choose a writable output folder (example: D:\\ChurchTranscripts).",
        );
    } else {
        let detail = output_detail_text(probe, p.as_str());
        let usable = output_is_usable(probe);
        let mut ok = usable;
        if usable {
            match write_error {
                Some(e) => {
                    let a = concat("Cannot write to output folder ", p.as_str());
                    let b = concat(a.as_str(), ": ");
                    let d = concat(b.as_str(), e.as_str());
                    assert(d@ =~= "Cannot write to output folder "@ + p@ + ": "@ + e@);
                    push_check(
                        checks,
                        CheckKey::OutputWritable,
                        false,
                        d,
                        "Pick a writable folder, then run preflight again.",
                    );
                    ok = false;
                },
                None => {},
            }
        }
        push_check(checks, CheckKey::OutputFolder, ok, detail, "Pick a valid writable output folder.");
    }
    assert(view_checks(final(checks)@) =~= view_checks(old(checks)@) + output_checks(output@, *probe, *write_error));
}

fn push_whisper_checks(checks: &mut Vec<PreflightCheck>, exe: &str, found: bool)
    ensures
        view_checks(final(checks)@) == view_checks(old(checks)@) + whisper_checks(exe@, found),
{
    let w = trimmed(exe);
    if w.unicode_len() == 0 {
        push_check(
            checks,
            CheckKey::WhisperExe,
            false,
            String::from_str("Whisper executable path is empty"),
            "Set whisper executable path (example: C:\\ai\\whisper\\whisper-cli.exe).",
        );
    } else {
        let d = if found {
            concat("Whisper executable OK: ", w.as_str())
        } else {
            concat("Whisper executable not found: ", w.as_str())
        };
        push_check(
            checks,
            CheckKey::WhisperExe,
            found,
            d,
            "Install whisper.cpp binary and set the exact whisper-cli.exe path.",
        );
    }
    assert(view_checks(final(checks)@) =~= view_checks(old(checks)@) + whisper_checks(exe@, found));
}

fn push_model_checks(checks: &mut Vec<PreflightCheck>, model: &str, is_file: bool)
    ensures
        view_checks(final(checks)@) == view_checks(old(checks)@) + model_checks(model@, is_file),
{
    let m = trimmed(model);
    if m.unicode_len() == 0 {
        push_check(
            checks,
            CheckKey::ModelFile,
            false,
            String::from_str("Model file path is empty"),
            "Set model path (example: C:\\ai\\whisper-models\\ggml-small.en.bin).",
        );
    } else {
        let d = if is_file {
            concat("Model file OK: ", m.as_str())
        } else {
            concat("Model file missing: ", m.as_str())
        };
        push_check(checks, CheckKey::ModelFile, is_file, d, "Download model file and set the correct full path.");
    }
    assert(view_checks(final(checks)@) =~= view_checks(old(checks)@) + model_checks(model@, is_file));
}

fn push_script_checks(checks: &mut Vec<PreflightCheck>, script: &Result<String, String>)
    ensures
        view_checks(final(checks)@) == view_checks(old(checks)@) + script_checks(*script),
{
    match script {
        Ok(path) => {
            push_check(checks, CheckKey::BatchScript, true, concat("Batch script resolved: ", path.as_str()), "");
        },
        Err(e) => {
            push_check(
                checks,
                CheckKey::BatchScript,
                false,
                e.clone(),
                "Set Script Path override to church_transcribe_batch.ps1.",
            );
        },
    }
    assert(view_checks(final(checks)@) =~= view_checks(old(checks)@) + script_checks(*script));
}

/// Runs the battery over a request and what the host observed, in order:
/// the two tools, each input folder, the output folder, the job executable,
/// the model file and the batch script. No failure stops the battery.
pub fn build_preflight_report(request: &PreflightRequest, probes: &PreflightProbes, generated_at_epoch: u64) -> (r:
    PreflightReport)
    requires
        probes.input_folder_ok@.len() == request.input_folders@.len(),
    ensures
        view_checks(r.checks@) == expected_checks(request, probes),
        r.ready == all_ok(view_checks(r.checks@)),
        r.resolved_script_path == match probes.script {
            Ok(p) => Some(p),
            Err(_) => None::<String>,
        },
        r.generated_at_epoch == generated_at_epoch,
{
    let mut checks: Vec<PreflightCheck> = Vec::new();
    push_tool_checks(&mut checks, probes.shell_name.as_str(), probes.shell_found, probes.ffmpeg_found);
    push_folder_checks(&mut checks, &request.input_folders, &probes.input_folder_ok);
    push_output_checks(&mut checks, request.output_folder.as_str(), &probes.output, &probes.write_error);
    push_whisper_checks(&mut checks, request.whisper_exe.as_str(), probes.whisper_found);
    push_model_checks(&mut checks, request.model_file.as_str(), probes.model_is_file);
    push_script_checks(&mut checks, &probes.script);
    assert(view_checks(checks@) =~= expected_checks(request, probes));
    let resolved_script_path = match &probes.script {
        Ok(p) => Some(p.clone()),
        Err(_) => None,
    };
    let ready = checks_all_ok(&checks);
    PreflightReport { ready, checks, resolved_script_path, generated_at_epoch }
}

/// `key: detail` of one check.
pub open spec fn failure_entry(c: CheckView) -> Seq<char> {
    key_name(c.key) + ": "@ + c.detail
}

/// The failing checks, in order, as `key: detail` joined by ` | `.
pub open spec fn failure_summary(checks: Seq<CheckView>) -> Seq<char>
    decreases checks.len(),
{
    if checks.len() == 0 {
        Seq::empty()
    } else {
        let prev = failure_summary(checks.drop_last());
        let c = checks.last();
        if c.ok {
            prev
        } else if prev.len() == 0 {
            failure_entry(c)
        } else {
            prev + " | "@ + failure_entry(c)
        }
    }
}

pub open spec fn failure_message(checks: Seq<CheckView>) -> Seq<char> {
    "Preflight failed. "@ + failure_summary(checks)
}

/// The reason a run is refused on a report that is not ready: each failing
/// check as `key: detail`, in order, joined by ` | `.
pub fn preflight_failure_message(checks: &Vec<PreflightCheck>) -> (r: String)
    ensures
        r@ == failure_message(view_checks(checks@)),
{
    let mut summary = String::from_str("");
    proof {
        reveal_strlit("");
    }
    assert(view_checks(checks@.subrange(0, 0)) =~= Seq::empty());
    let mut i: usize = 0;
    while i < checks.len()
        invariant
            0 <= i <= checks@.len(),
            summary@ == failure_summary(view_checks(checks@.subrange(0, i as int))),
        decreases checks@.len() - i,
    {
        let ghost prev = summary@;
        assert(view_checks(checks@.subrange(0, (i + 1) as int)).drop_last() =~= view_checks(
            checks@.subrange(0, i as int),
        ));
        assert(view_checks(checks@.subrange(0, (i + 1) as int)).last() == checks@[i as int]@);
        let c = &checks[i];
        if !c.ok {
            if summary.unicode_len() > 0 {
                summary.append(" | ");
            }
            summary.append(c.key.name());
            summary.append(": ");
            summary.append(c.detail.as_str());
            assert(summary@ =~= failure_summary(view_checks(checks@.subrange(0, (i + 1) as int))));
        }
        i = i + 1;
    }
    assert(checks@.subrange(0, checks@.len() as int) =~= checks@);
    concat("Preflight failed. ", summary.as_str())
}

} // verus!
