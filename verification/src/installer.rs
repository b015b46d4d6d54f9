//! The installer of the bot's system dependencies, run when the bot is
//! deployed on Shuttle: whether it runs, and the commands it runs.
use vstd::prelude::*;
use vstd::string::*;

use crate::text::{contains, lemma_occurs_in_split, occurs_in};

verus! {

/// One command of the installer: the program, its arguments, what is
/// reported when the program cannot be started, and what is reported when
/// it fails.
#[derive(Debug, Clone)]
pub struct InstallStep {
    pub program: String,
    pub args: Vec<String>,
    pub spawn_failure: String,
    pub failure: String,
}

/// Whether the installer runs on the machine named `hostname`: only in a
/// Shuttle container, whose host name contains "shuttle".
pub fn needs_dependency_install(hostname: &str) -> (r: bool)
    ensures
        r == occurs_in(hostname@, "shuttle"@),
        r <==> exists|a: Seq<char>, b: Seq<char>| hostname@ == a + "shuttle"@ + b,
{
    let r = contains(hostname, "shuttle");
    proof {
        lemma_occurs_in_split(hostname@, "shuttle"@);
    }
    r
}

fn strings(items: &[&str]) -> (r: Vec<String>)
    ensures
        r@.len() == items@.len(),
        forall|i: int| 0 <= i < items@.len() ==> #[trigger] r@[i]@ == items@[i]@,
{
    let mut r: Vec<String> = Vec::new();
    let mut i: usize = 0;
    while i < items.len()
        invariant
            i <= items@.len(),
            r@.len() == i,
            forall|j: int| 0 <= j < i ==> #[trigger] r@[j]@ == items@[j]@,
        decreases items@.len() - i,
    {
        r.push(String::from_str(items[i]));
        i = i + 1;
    }
    r
}

fn step(program: &str, args: &[&str], spawn_failure: &str, failure: &str) -> (s: InstallStep)
    ensures
        s.program@ == program@,
        s.args@.len() == args@.len(),
        forall|i: int| 0 <= i < args@.len() ==> #[trigger] s.args@[i]@ == args@[i]@,
        s.spawn_failure@ == spawn_failure@,
        s.failure@ == failure@,
{
    InstallStep {
        program: String::from_str(program),
        args: strings(args),
        spawn_failure: String::from_str(spawn_failure),
        failure: String::from_str(failure),
    }
}

/// Whether `s` runs `program` with `args`, reporting `spawn_failure` and `failure`.
pub open spec fn step_is(
    s: InstallStep,
    program: Seq<char>,
    args: Seq<Seq<char>>,
    spawn_failure: Seq<char>,
    failure: Seq<char>,
) -> bool {
    &&& s.program@ == program
    &&& s.args@.len() == args.len()
    &&& forall|i: int| 0 <= i < args.len() ==> #[trigger] s.args@[i]@ == args[i]
    &&& s.spawn_failure@ == spawn_failure
    &&& s.failure@ == failure
}

/// The installer's commands, run in this order, each only after the one
/// before succeeded: install opus, ffmpeg and curl with apt, download yt-dlp,
/// and make it executable.
pub fn install_steps() -> (r: Vec<InstallStep>)
    ensures
        r@.len() == 3,
        step_is(
            r@[0],
            "apt"@,
            seq!["install"@, "-y"@, "libopus-dev"@, "ffmpeg"@, "curl"@],
            "failed to run apt"@,
            "failed to install dependencies"@,
        ),
        step_is(
            r@[1],
            "curl"@,
            seq![
                "-L"@,
                "https://github.com/yt-dlp/yt-dlp/releases/latest/download/yt-dlp"@,
                "-o"@,
                "/usr/local/bin/yt-dlp"@,
            ],
            "Failed to run curl"@,
            "Failed to download YT-dlp"@,
        ),
        step_is(
            r@[2],
            "chmod"@,
            seq!["a+rx"@, "/usr/local/bin/yt-dlp"@],
            "Failed to run chmod"@,
            "Failed to make yt-dlp executable"@,
        ),
{
    let mut r: Vec<InstallStep> = Vec::new();
    let apt_args = ["install", "-y", "libopus-dev", "ffmpeg", "curl"];
    r.push(step("apt", &apt_args, "failed to run apt", "failed to install dependencies"));
    let curl_args = [
        "-L",
        "https://github.com/yt-dlp/yt-dlp/releases/latest/download/yt-dlp",
        "-o",
        "/usr/local/bin/yt-dlp",
    ];
    r.push(step("curl", &curl_args, "Failed to run curl", "Failed to download YT-dlp"));
    let chmod_args = ["a+rx", "/usr/local/bin/yt-dlp"];
    r.push(step("chmod", &chmod_args, "Failed to run chmod", "Failed to make yt-dlp executable"));
    r
}

} // verus!
