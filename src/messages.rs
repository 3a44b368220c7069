use vstd::prelude::*;

verus! {

/// Shown by the login command when no cookie was given.
pub const LOGIN_GUIDANCE: &'static str = "❌ Please provide your Overleaf cookie.\n\nHow to get cookie:\n1. Open https://www.overleaf.com in browser\n2. Login to your account\n3. Press F12 → Network tab\n4. Find Cookie in request headers\n5. Copy and paste here";

/// Shown by the login command once the cookie is saved.
pub const LOGIN_SAVED: &'static str = "✅ Login successful! Cookie saved.\n\nNow you can:\n- /overleaf-projects - List your projects\n- /overleaf-download <project_id> - Download a project";

/// Opens the reply of the login command when the cookie could not be saved.
pub const SAVE_FAILED: &'static str = "❌ Failed to save cookie.\n\nError: ";

/// Opens the reply when the project lister failed.
pub const LIST_FAILED: &'static str = "❌ Failed to list projects.\n\nError: ";

/// Shown by the download command when no project id was given.
pub const DOWNLOAD_USAGE: &'static str = "❌ Please provide project ID.\n\nUsage: /overleaf-download <project_id>\n\nGet project ID from /overleaf-projects";

/// Opens the reply of a finished download, before the project id.
pub const DOWNLOAD_DONE: &'static str = "✅ Project downloaded!\n\nLocation: ~/.overleaf-zed/projects/";

/// Closes the reply of a finished download, after the project id.
pub const DOWNLOAD_DONE_TAIL: &'static str = "\n\nOpen with: Cmd+O → Select folder";

/// Opens the reply when the download script failed.
pub const DOWNLOAD_FAILED: &'static str = "❌ Failed to download project.\n\nError: ";

/// Shown by the compile command when no project id was given.
pub const COMPILE_USAGE: &'static str = "❌ Please provide project ID.\n\nUsage: /overleaf-compile <project_id>";

/// Opens the reply of a finished compilation, before the project id.
pub const COMPILE_DONE: &'static str = "✅ Compilation complete!\n\nPDF: ~/.overleaf-zed/projects/";

/// Closes the reply of a finished compilation, after the project id.
pub const COMPILE_DONE_TAIL: &'static str = "/output.pdf";

/// Opens the reply when the compile script failed.
pub const COMPILE_FAILED: &'static str = "❌ Compilation failed.\n\nError: ";

/// Opens the reply when an external program could not be started.
pub const SPAWN_FAILED: &'static str = "❌ Failed to execute command: ";

/// Opens the reply to a command name that is not recognized.
pub const UNKNOWN_COMMAND: &'static str = "Unknown command: ";

} // verus!
