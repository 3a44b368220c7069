use overleaf_sync::credentials::credentials_json;
use overleaf_sync::dispatch::{save_reply, Job, RunOutcome, Step};
use overleaf_sync::layout::Layout;
use overleaf_sync::messages::{COMPILE_USAGE, DOWNLOAD_USAGE, LOGIN_GUIDANCE, LOGIN_SAVED};
use overleaf_sync::request::Request;
use overleaf_sync::server::context_server_launch;

fn args(items: &[&str]) -> Vec<String> {
    items.iter().map(|s| s.to_string()).collect()
}

fn plan(name: &str, items: &[&str]) -> Step {
    Request::parse(name, &args(items)).plan(&Layout::new("/home/ada"))
}

fn reply_text(step: Step) -> String {
    match step {
        Step::Reply { text } => text,
        _ => panic!("expected a reply"),
    }
}

fn exited(success: bool, stdout: &str, stderr: &str) -> RunOutcome {
    RunOutcome::Exited { success, stdout: stdout.to_string(), stderr: stderr.to_string() }
}

#[test]
fn login_without_cookie_gives_guidance() {
    assert_eq!(reply_text(plan("overleaf-login", &[])), LOGIN_GUIDANCE);
    assert_eq!(reply_text(plan("overleaf-login", &[""])), LOGIN_GUIDANCE);
    assert!(LOGIN_GUIDANCE.contains("Please provide your Overleaf cookie"));
}

#[test]
fn login_with_cookie_saves_credentials() {
    match plan("overleaf-login", &["abc123"]) {
        Step::Save { dir, path, contents } => {
            assert_eq!(dir, "/home/ada/.overleaf-zed");
            assert_eq!(path, "/home/ada/.overleaf-zed/credentials.json");
            assert!(contents.contains("\"cookie\": \"abc123\""));
        }
        _ => panic!("expected a write of the credentials"),
    }
    let text = save_reply(&Ok(()));
    assert_eq!(text, LOGIN_SAVED);
    assert!(text.contains("saved"));
}

#[test]
fn login_reports_failed_write() {
    let text = save_reply(&Err("permission denied".to_string()));
    assert_eq!(text, "❌ Failed to save cookie.\n\nError: permission denied");
}

#[test]
fn credentials_document_is_exact() {
    assert_eq!(
        credentials_json("abc123"),
        "{\n  \"serverUrl\": \"https://www.overleaf.com\",\n  \"type\": \"cookie\",\n  \"cookie\": \"abc123\"\n}"
    );
}

#[test]
fn credentials_keep_secret_verbatim() {
    let doc = credentials_json("a\"b");
    assert!(doc.contains("\"cookie\": \"a\"b\""));
}

#[test]
fn download_without_id_gives_usage() {
    assert_eq!(reply_text(plan("overleaf-download", &[""])), DOWNLOAD_USAGE);
    assert_eq!(reply_text(plan("overleaf-download", &[])), DOWNLOAD_USAGE);
}

#[test]
fn compile_without_id_gives_usage() {
    assert_eq!(reply_text(plan("overleaf-compile", &[])), COMPILE_USAGE);
    assert_eq!(reply_text(plan("overleaf-compile", &[""])), COMPILE_USAGE);
}

#[test]
fn unknown_command_echoes_name() {
    let text = reply_text(plan("overleaf-sync-all", &["x"]));
    assert_eq!(text, "Unknown command: overleaf-sync-all");
    let text = reply_text(plan("login", &[]));
    assert!(text.contains("login"));
    let text = reply_text(plan("", &[]));
    assert_eq!(text, "Unknown command: ");
}

#[test]
fn projects_runs_lister_in_extension_dir() {
    match plan("overleaf-projects", &["ignored"]) {
        Step::Run { job, program, args, working_dir } => {
            assert!(matches!(job, Job::ListProjects));
            assert_eq!(program, "node");
            assert_eq!(args, vec!["scripts/list-projects.js".to_string()]);
            assert_eq!(working_dir, "/home/ada/.config/zed/extensions/overleaf-sync");
        }
        _ => panic!("expected a run"),
    }
}

#[test]
fn download_runs_script_with_id() {
    match plan("overleaf-download", &["p1", "extra"]) {
        Step::Run { job, program, args, working_dir } => {
            assert!(matches!(job, Job::Download { ref project_id } if project_id == "p1"));
            assert_eq!(program, "node");
            assert_eq!(args, vec!["download-projects.js".to_string(), "p1".to_string()]);
            assert_eq!(working_dir, "/home/ada/.config/zed/extensions/overleaf-sync");
        }
        _ => panic!("expected a run"),
    }
}

#[test]
fn compile_runs_shell_script_with_id() {
    match plan("overleaf-compile", &["p1"]) {
        Step::Run { job, program, args, .. } => {
            assert!(matches!(job, Job::Compile { ref project_id } if project_id == "p1"));
            assert_eq!(program, "bash");
            assert_eq!(args, vec!["compile.sh".to_string(), "p1".to_string()]);
        }
        _ => panic!("expected a run"),
    }
}

#[test]
fn projects_relays_stdout() {
    let text = Job::ListProjects.reply(&exited(true, "Project A\nProject B", "noise"));
    assert_eq!(text, "Project A\nProject B");
}

#[test]
fn projects_failure_relays_stderr() {
    let text = Job::ListProjects.reply(&exited(false, "out", "not logged in"));
    assert_eq!(text, "❌ Failed to list projects.\n\nError: not logged in");
}

#[test]
fn compile_failure_relays_stderr() {
    let job = Job::Compile { project_id: "p1".to_string() };
    let text = job.reply(&exited(false, "", "missing .tex file"));
    assert!(text.contains("missing .tex file"));
    assert_eq!(text, "❌ Compilation failed.\n\nError: missing .tex file");
}

#[test]
fn compile_success_names_pdf() {
    let job = Job::Compile { project_id: "p1".to_string() };
    let text = job.reply(&exited(true, "log", ""));
    assert_eq!(text, "✅ Compilation complete!\n\nPDF: ~/.overleaf-zed/projects/p1/output.pdf");
}

#[test]
fn download_success_names_location() {
    let job = Job::Download { project_id: "p7".to_string() };
    let text = job.reply(&exited(true, "", ""));
    assert_eq!(
        text,
        "✅ Project downloaded!\n\nLocation: ~/.overleaf-zed/projects/p7\n\nOpen with: Cmd+O → Select folder"
    );
}

#[test]
fn download_failure_relays_stderr() {
    let job = Job::Download { project_id: "p7".to_string() };
    let text = job.reply(&exited(false, "", "404"));
    assert_eq!(text, "❌ Failed to download project.\n\nError: 404");
}

#[test]
fn spawn_failure_is_reported() {
    let out = RunOutcome::SpawnFailed { message: "No such file or directory".to_string() };
    let text = Job::ListProjects.reply(&out);
    assert_eq!(text, "❌ Failed to execute command: No such file or directory");
    let job = Job::Compile { project_id: "p1".to_string() };
    assert_eq!(job.reply(&out), text);
}

#[test]
fn context_server_known_id() {
    let launch = context_server_launch("overleaf").unwrap();
    assert_eq!(launch.program, "node");
    assert_eq!(launch.args, vec!["server/index.js".to_string()]);
    assert!(launch.env.is_empty());
}

#[test]
fn context_server_unknown_id() {
    match context_server_launch("other") {
        Err(e) => assert_eq!(e, "Unknown context server"),
        Ok(_) => panic!("expected an error"),
    }
}

#[test]
fn layout_paths() {
    let layout = Layout::new("/root");
    assert_eq!(layout.config_dir(), "/root/.overleaf-zed");
    assert_eq!(layout.credentials_path(), "/root/.overleaf-zed/credentials.json");
    assert_eq!(layout.extension_dir(), "/root/.config/zed/extensions/overleaf-sync");
}
