use vstd::prelude::*;

use crate::credentials::{cookie_entry, credentials_doc, credentials_json, lemma_cookie_recorded};
use crate::layout::{config_dir_of, credentials_path_of, extension_dir_of, Layout};
use crate::messages::{
    COMPILE_DONE, COMPILE_DONE_TAIL, COMPILE_FAILED, COMPILE_USAGE, DOWNLOAD_DONE,
    DOWNLOAD_DONE_TAIL, DOWNLOAD_FAILED, DOWNLOAD_USAGE, LIST_FAILED, LOGIN_GUIDANCE, LOGIN_SAVED,
    SAVE_FAILED, SPAWN_FAILED, UNKNOWN_COMMAND,
};
use crate::request::{
    first_arg, is_known_name, request_of, Request, RequestView, COMPILE_NAME, DOWNLOAD_NAME,
    LOGIN_NAME, PROJECTS_NAME,
};
use crate::text::{contains, join2, join3, lemma_suffix_contained};

verus! {

/// Interpreter that runs the JavaScript helpers.
pub const NODE: &'static str = "node";

/// Shell that runs the compile script.
pub const BASH: &'static str = "bash";

/// Script, relative to the extension directory, that prints the user's projects.
pub const LIST_SCRIPT: &'static str = "scripts/list-projects.js";

/// Script, relative to the extension directory, that fetches one project.
pub const DOWNLOAD_SCRIPT: &'static str = "download-projects.js";

/// Script, relative to the extension directory, that compiles one project.
pub const COMPILE_SCRIPT: &'static str = "compile.sh";

/// An external program's run that a request leads to, and what its reply
/// is about.
pub enum Job {
    ListProjects,
    Download { project_id: String },
    Compile { project_id: String },
}

pub enum JobView {
    ListProjects,
    Download { project_id: Seq<char> },
    Compile { project_id: Seq<char> },
}

impl View for Job {
    type V = JobView;

    open spec fn view(&self) -> JobView {
        match self {
            Job::ListProjects => JobView::ListProjects,
            Job::Download { project_id } => JobView::Download { project_id: project_id@ },
            Job::Compile { project_id } => JobView::Compile { project_id: project_id@ },
        }
    }
}

/// What a request asks of the outside world before it can be answered.
pub enum Step {
    /// Nothing: the text is the whole answer.
    Reply { text: String },
    /// Create `dir` with its missing parents, then write `contents` to `path`.
    Save { dir: String, path: String, contents: String },
    /// Run `program` with `args` in `working_dir` and wait for it to exit;
    /// `job` then turns the outcome into the reply.
    Run { job: Job, program: String, args: Vec<String>, working_dir: String },
}

pub enum StepView {
    Reply { text: Seq<char> },
    Save { dir: Seq<char>, path: Seq<char>, contents: Seq<char> },
    Run { job: JobView, program: Seq<char>, args: Seq<Seq<char>>, working_dir: Seq<char> },
}

pub open spec fn texts(v: Seq<String>) -> Seq<Seq<char>> {
    v.map_values(|s: String| s@)
}

impl View for Step {
    type V = StepView;

    open spec fn view(&self) -> StepView {
        match self {
            Step::Reply { text } => StepView::Reply { text: text@ },
            Step::Save { dir, path, contents } => StepView::Save {
                dir: dir@,
                path: path@,
                contents: contents@,
            },
            Step::Run { job, program, args, working_dir } => StepView::Run {
                job: job@,
                program: program@,
                args: texts(args@),
                working_dir: working_dir@,
            },
        }
    }
}

/// How a run of an external program ended.
pub enum RunOutcome {
    /// The program ran and exited; `success` is whether its status was zero.
    Exited { success: bool, stdout: String, stderr: String },
    /// The program could not be started.
    SpawnFailed { message: String },
}

pub enum RunOutcomeView {
    Exited { success: bool, stdout: Seq<char>, stderr: Seq<char> },
    SpawnFailed { message: Seq<char> },
}

impl View for RunOutcome {
    type V = RunOutcomeView;

    open spec fn view(&self) -> RunOutcomeView {
        match self {
            RunOutcome::Exited { success, stdout, stderr } => RunOutcomeView::Exited {
                success: *success,
                stdout: stdout@,
                stderr: stderr@,
            },
            RunOutcome::SpawnFailed { message } => RunOutcomeView::SpawnFailed {
                message: message@,
            },
        }
    }
}

/// A run of `program` with `args` in the extension directory.
pub open spec fn run_in_extension(
    job: JobView,
    home: Seq<char>,
    program: Seq<char>,
    args: Seq<Seq<char>>,
) -> StepView {
    StepView::Run { job, program, args, working_dir: extension_dir_of(home) }
}

/// The step that `req` takes, with files placed under `home`.
pub open spec fn plan_of(req: RequestView, home: Seq<char>) -> StepView {
    match req {
        RequestView::Login { secret } => if secret.len() == 0 {
            StepView::Reply { text: LOGIN_GUIDANCE@ }
        } else {
            StepView::Save {
                dir: config_dir_of(home),
                path: credentials_path_of(home),
                contents: credentials_doc(secret),
            }
        },
        RequestView::Projects => run_in_extension(
            JobView::ListProjects,
            home,
            NODE@,
            seq![LIST_SCRIPT@],
        ),
        RequestView::Download { project_id } => if project_id.len() == 0 {
            StepView::Reply { text: DOWNLOAD_USAGE@ }
        } else {
            run_in_extension(
                JobView::Download { project_id },
                home,
                NODE@,
                seq![DOWNLOAD_SCRIPT@, project_id],
            )
        },
        RequestView::Compile { project_id } => if project_id.len() == 0 {
            StepView::Reply { text: COMPILE_USAGE@ }
        } else {
            run_in_extension(
                JobView::Compile { project_id },
                home,
                BASH@,
                seq![COMPILE_SCRIPT@, project_id],
            )
        },
        RequestView::Unknown { name } => StepView::Reply { text: UNKNOWN_COMMAND@ + name },
    }
}

/// The reply to `job` once its program ended with `out`.
pub open spec fn run_reply_of(job: JobView, out: RunOutcomeView) -> Seq<char> {
    match out {
        RunOutcomeView::SpawnFailed { message } => SPAWN_FAILED@ + message,
        RunOutcomeView::Exited { success, stdout, stderr } => match job {
            JobView::Download { project_id } => if success {
                DOWNLOAD_DONE@ + project_id + DOWNLOAD_DONE_TAIL@
            } else {
                DOWNLOAD_FAILED@ + stderr
            },
            JobView::Compile { project_id } => if success {
                COMPILE_DONE@ + project_id + COMPILE_DONE_TAIL@
            } else {
                COMPILE_FAILED@ + stderr
            },
            JobView::ListProjects => if success {
                stdout
            } else {
                LIST_FAILED@ + stderr
            },
        },
    }
}

/// The reply to the login command once the credentials were written, or
/// not: a failed write is reported instead of being passed over.
pub open spec fn save_reply_of(outcome: Result<(), String>) -> Seq<char> {
    match outcome {
        Ok(_) => LOGIN_SAVED@,
        Err(message) => SAVE_FAILED@ + message@,
    }
}

fn run_step(job: Job, layout: &Layout, program: &str, args: Vec<String>) -> (r: Step)
    ensures
        r@ == run_in_extension(job@, layout.home@, program@, texts(args@)),
{
    Step::Run {
        job,
        program: String::from_str(program),
        args,
        working_dir: layout.extension_dir(),
    }
}

fn reply_step(text: &str) -> (r: Step)
    ensures
        r@ == (StepView::Reply { text: text@ }),
{
    Step::Reply { text: String::from_str(text) }
}

impl Request {
    /// Decides what this request needs done: a reply right away, a write of
    /// the credentials file, or a run of a helper script.
    pub fn plan(&self, layout: &Layout) -> (r: Step)
        ensures
            r@ == plan_of(self@, layout.home@),
    {
        match self {
            Request::Login { secret } => {
                if secret.as_str().is_empty() {
                    reply_step(LOGIN_GUIDANCE)
                } else {
                    Step::Save {
                        dir: layout.config_dir(),
                        path: layout.credentials_path(),
                        contents: credentials_json(secret.as_str()),
                    }
                }
            },
            Request::Projects => {
                let args = vec![String::from_str(LIST_SCRIPT)];
                assert(texts(args@) =~= seq![LIST_SCRIPT@]);
                run_step(Job::ListProjects, layout, NODE, args)
            },
            Request::Download { project_id } => {
                if project_id.as_str().is_empty() {
                    reply_step(DOWNLOAD_USAGE)
                } else {
                    let args = vec![String::from_str(DOWNLOAD_SCRIPT), project_id.clone()];
                    assert(texts(args@) =~= seq![DOWNLOAD_SCRIPT@, project_id@]);
                    run_step(Job::Download { project_id: project_id.clone() }, layout, NODE, args)
                }
            },
            Request::Compile { project_id } => {
                if project_id.as_str().is_empty() {
                    reply_step(COMPILE_USAGE)
                } else {
                    let args = vec![String::from_str(COMPILE_SCRIPT), project_id.clone()];
                    assert(texts(args@) =~= seq![COMPILE_SCRIPT@, project_id@]);
                    run_step(Job::Compile { project_id: project_id.clone() }, layout, BASH, args)
                }
            },
            Request::Unknown { name } => {
                Step::Reply { text: join2(UNKNOWN_COMMAND, name.as_str()) }
            },
        }
    }
}

impl Job {
    /// The reply once the program of this job ended with `out`.
    pub fn reply(&self, out: &RunOutcome) -> (r: String)
        ensures
            r@ == run_reply_of(self@, out@),
    {
        match out {
            RunOutcome::SpawnFailed { message } => join2(SPAWN_FAILED, message.as_str()),
            RunOutcome::Exited { success, stdout, stderr } => match self {
                Job::Download { project_id } => {
                    if *success {
                        join3(DOWNLOAD_DONE, project_id.as_str(), DOWNLOAD_DONE_TAIL)
                    } else {
                        join2(DOWNLOAD_FAILED, stderr.as_str())
                    }
                },
                Job::Compile { project_id } => {
                    if *success {
                        join3(COMPILE_DONE, project_id.as_str(), COMPILE_DONE_TAIL)
                    } else {
                        join2(COMPILE_FAILED, stderr.as_str())
                    }
                },
                Job::ListProjects => {
                    if *success {
                        stdout.clone()
                    } else {
                        join2(LIST_FAILED, stderr.as_str())
                    }
                },
            },
        }
    }
}

/// The reply to the login command once the write of the credentials ended
/// with `outcome`.
pub fn save_reply(outcome: &Result<(), String>) -> (r: String)
    ensures
        r@ == save_reply_of(*outcome),
{
    match outcome {
        Ok(_) => String::from_str(LOGIN_SAVED),
        Err(message) => join2(SAVE_FAILED, message.as_str()),
    }
}

} // verus!

verus! {

/// The login command without a cookie answers with guidance and asks for no
/// write.
pub proof fn lemma_login_without_secret(args: Seq<String>, home: Seq<char>)
    requires
        first_arg(args).len() == 0,
    ensures
        plan_of(request_of(LOGIN_NAME@, args), home) == (StepView::Reply { text: LOGIN_GUIDANCE@ }),
{
}

/// The login command with a cookie writes the credentials file under the
/// home directory, whose cookie entry holds that cookie unchanged, and
/// confirms once the write succeeded.
pub proof fn lemma_login_saves_secret(args: Seq<String>, home: Seq<char>)
    requires
        first_arg(args).len() > 0,
    ensures
        plan_of(request_of(LOGIN_NAME@, args), home) == (StepView::Save {
            dir: config_dir_of(home),
            path: credentials_path_of(home),
            contents: credentials_doc(first_arg(args)),
        }),
        contains(credentials_doc(first_arg(args)), cookie_entry(first_arg(args))),
        save_reply_of(Ok(())) == LOGIN_SAVED@,
{
    lemma_cookie_recorded(first_arg(args));
}

/// Download and compile without a project id answer with their usage text
/// and run no program.
pub proof fn lemma_missing_project_id(args: Seq<String>, home: Seq<char>)
    requires
        first_arg(args).len() == 0,
    ensures
        plan_of(request_of(DOWNLOAD_NAME@, args), home) == (StepView::Reply {
            text: DOWNLOAD_USAGE@,
        }),
        plan_of(request_of(COMPILE_NAME@, args), home) == (StepView::Reply {
            text: COMPILE_USAGE@,
        }),
{
    reveal_strlit("overleaf-download");
    reveal_strlit("overleaf-compile");
    reveal_strlit("overleaf-login");
    reveal_strlit("overleaf-projects");
    // The command names tell apart by their length, or else by the letter
    // after the common prefix.
    assert(DOWNLOAD_NAME@[9] != PROJECTS_NAME@[9]);
    assert(DOWNLOAD_NAME@.len() != LOGIN_NAME@.len());
    assert(COMPILE_NAME@.len() != LOGIN_NAME@.len());
    assert(COMPILE_NAME@.len() != PROJECTS_NAME@.len());
}

/// A command name outside the four known ones is answered right away, with a
/// text that holds the name unchanged.
pub proof fn lemma_unknown_name_echoed(name: Seq<char>, args: Seq<String>, home: Seq<char>)
    requires
        !is_known_name(name),
    ensures
        plan_of(request_of(name, args), home) is Reply,
        contains(plan_of(request_of(name, args), home)->Reply_text, name),
{
    lemma_suffix_contained(UNKNOWN_COMMAND@, name);
}

} // verus!
