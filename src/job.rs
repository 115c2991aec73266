//! The run request and the argument list of each folder's job.

use vstd::prelude::*;
use vstd::string::StringExecFns;
use crate::preflight::PreflightRequest;
use crate::text::{decimal_text, i64_text, trim_of, trimmed};

verus! {

/// A request to run the batch over a list of folders.
#[derive(Debug)]
pub struct StartRequest {
    pub input_folders: Vec<String>,
    pub output_folder: String,
    pub whisper_exe: String,
    pub model_file: String,
    pub before_date: Option<String>,
    pub threads: u32,
    pub limit: Option<u32>,
    pub fast_scan: bool,
    pub force: bool,
    pub no_recursive: bool,
    pub keep_audio: bool,
    pub script_path: Option<String>,
}

pub open spec fn strings_view(v: Seq<String>) -> Seq<Seq<char>> {
    v.map_values(|s: String| s@)
}

pub open spec fn switch(on: bool, name: Seq<char>) -> Seq<Seq<char>> {
    if on { seq![name] } else { Seq::empty() }
}

/// The optional date filter, when it is given and non-empty once trimmed.
pub open spec fn date_args(before_date: Option<String>) -> Seq<Seq<char>> {
    match before_date {
        Some(d) => if trim_of(d@).len() > 0 { seq!["-BeforeDate"@, trim_of(d@)] } else { Seq::empty() },
        None => Seq::empty(),
    }
}

/// The item limit, only when it is given and positive.
pub open spec fn limit_args(limit: Option<u32>) -> Seq<Seq<char>> {
    match limit {
        Some(l) => if l > 0 { seq!["-Limit"@, decimal_text(l as int)] } else { Seq::empty() },
        None => Seq::empty(),
    }
}

/// The arguments every job gets.
pub open spec fn base_args_of(req: &StartRequest, script: Seq<char>, folder: Seq<char>, pause_flag: Seq<char>) -> Seq<
    Seq<char>,
> {
    seq![
        "-NoProfile"@,
        "-ExecutionPolicy"@,
        "Bypass"@,
        "-File"@,
        script,
        "-InputFolder"@,
        folder,
        "-OutputFolder"@,
        trim_of(req.output_folder@),
        "-WhisperExe"@,
        trim_of(req.whisper_exe@),
        "-ModelFile"@,
        trim_of(req.model_file@),
        "-PauseFlagFile"@,
        pause_flag,
        "-Threads"@,
        decimal_text(req.threads as int),
    ]
}

/// The arguments of the job for one folder.
pub open spec fn job_args_of(req: &StartRequest, script: Seq<char>, folder: Seq<char>, pause_flag: Seq<char>) -> Seq<
    Seq<char>,
> {
    base_args_of(req, script, folder, pause_flag) + date_args(req.before_date) + limit_args(req.limit) + switch(req.fast_scan, "-FastScan"@) + switch(
        req.force,
        "-Force"@,
    ) + switch(req.no_recursive, "-NoRecursive"@) + switch(req.keep_audio, "-KeepAudio"@)
}

fn push_str_arg(args: &mut Vec<String>, a: &str)
    ensures
        strings_view(final(args)@) == strings_view(old(args)@).push(a@),
{
    args.push(String::from_str(a));
    assert(strings_view(final(args)@) =~= strings_view(old(args)@).push(a@));
}

fn push_arg(args: &mut Vec<String>, a: String)
    ensures
        strings_view(final(args)@) == strings_view(old(args)@).push(a@),
{
    let ghost v = a@;
    args.push(a);
    assert(strings_view(final(args)@) =~= strings_view(old(args)@).push(v));
}

fn push_switch(args: &mut Vec<String>, on: bool, name: &str)
    ensures
        strings_view(final(args)@) == strings_view(old(args)@) + switch(on, name@),
{
    if on {
        push_str_arg(args, name);
    }
    assert(strings_view(final(args)@) =~= strings_view(old(args)@) + switch(on, name@));
}

fn base_arguments(request: &StartRequest, script_path: &str, folder: &str, pause_flag: &str) -> (r: Vec<String>)
    ensures
        strings_view(r@) == base_args_of(request, script_path@, folder@, pause_flag@),
{
    let mut args: Vec<String> = Vec::new();
    push_str_arg(&mut args, "-NoProfile");
    push_str_arg(&mut args, "-ExecutionPolicy");
    push_str_arg(&mut args, "Bypass");
    push_str_arg(&mut args, "-File");
    push_str_arg(&mut args, script_path);
    push_str_arg(&mut args, "-InputFolder");
    push_str_arg(&mut args, folder);
    push_str_arg(&mut args, "-OutputFolder");
    push_arg(&mut args, trimmed(request.output_folder.as_str()));
    push_str_arg(&mut args, "-WhisperExe");
    push_arg(&mut args, trimmed(request.whisper_exe.as_str()));
    push_str_arg(&mut args, "-ModelFile");
    push_arg(&mut args, trimmed(request.model_file.as_str()));
    push_str_arg(&mut args, "-PauseFlagFile");
    push_str_arg(&mut args, pause_flag);
    push_str_arg(&mut args, "-Threads");
    push_arg(&mut args, i64_text(request.threads as i64));
    assert(strings_view(args@) =~= base_args_of(request, script_path@, folder@, pause_flag@));
    args
}

/// The argument list of the job for `folder`, passing the batch script, the
/// folder, the output folder, the job executable, the model, the pause flag
/// path and the thread count, then the date filter, the limit and the
/// switches that the request sets.
pub fn job_arguments(request: &StartRequest, script_path: &str, folder: &str, pause_flag: &str) -> (r: Vec<String>)
    ensures
        strings_view(r@) == job_args_of(request, script_path@, folder@, pause_flag@),
{
    let mut args = base_arguments(request, script_path, folder, pause_flag);
    let ghost base = strings_view(args@);
    match &request.before_date {
        Some(d) => {
            let t = trimmed(d.as_str());
            if t.unicode_len() > 0 {
                push_str_arg(&mut args, "-BeforeDate");
                push_arg(&mut args, t);
            }
        },
        None => {},
    }
    assert(strings_view(args@) =~= base + date_args(request.before_date));
    let ghost with_date = strings_view(args@);
    match request.limit {
        Some(l) => {
            if l > 0 {
                push_str_arg(&mut args, "-Limit");
                push_arg(&mut args, i64_text(l as i64));
            }
        },
        None => {},
    }
    assert(strings_view(args@) =~= with_date + limit_args(request.limit));
    let ghost s0 = strings_view(args@);
    push_switch(&mut args, request.fast_scan, "-FastScan");
    push_switch(&mut args, request.force, "-Force");
    push_switch(&mut args, request.no_recursive, "-NoRecursive");
    push_switch(&mut args, request.keep_audio, "-KeepAudio");
    assert(strings_view(args@) =~= s0 + switch(request.fast_scan, "-FastScan"@) + switch(request.force, "-Force"@)
        + switch(request.no_recursive, "-NoRecursive"@) + switch(request.keep_audio, "-KeepAudio"@));
    args
}

fn clone_strings(v: &Vec<String>) -> (r: Vec<String>)
    ensures
        r@ == v@,
{
    let mut r: Vec<String> = Vec::new();
    let mut i: usize = 0;
    while i < v.len()
        invariant
            0 <= i <= v@.len(),
            r@ == v@.subrange(0, i as int),
        decreases v@.len() - i,
    {
        r.push(v[i].clone());
        assert(r@ =~= v@.subrange(0, (i + 1) as int));
        i = i + 1;
    }
    assert(v@.subrange(0, v@.len() as int) =~= v@);
    r
}

fn clone_opt(o: &Option<String>) -> (r: Option<String>)
    ensures
        r == *o,
{
    match o {
        Some(s) => Some(s.clone()),
        None => None,
    }
}

impl StartRequest {
    /// The part of the request that preflight validates.
    pub fn preflight_request(&self) -> (r: PreflightRequest)
        ensures
            r.input_folders@ == self.input_folders@,
            r.output_folder == self.output_folder,
            r.whisper_exe == self.whisper_exe,
            r.model_file == self.model_file,
            r.script_path == self.script_path,
    {
        PreflightRequest {
            input_folders: clone_strings(&self.input_folders),
            output_folder: self.output_folder.clone(),
            whisper_exe: self.whisper_exe.clone(),
            model_file: self.model_file.clone(),
            script_path: clone_opt(&self.script_path),
        }
    }
}

} // verus!
