use vstd::prelude::*;

use crate::text::same_text;

verus! {

pub const LOGIN_NAME: &'static str = "overleaf-login";

pub const PROJECTS_NAME: &'static str = "overleaf-projects";

pub const DOWNLOAD_NAME: &'static str = "overleaf-download";

pub const COMPILE_NAME: &'static str = "overleaf-compile";

/// One slash-command invocation, sorted by the command it names.
pub enum Request {
    Login { secret: String },
    Projects,
    Download { project_id: String },
    Compile { project_id: String },
    Unknown { name: String },
}

pub enum RequestView {
    Login { secret: Seq<char> },
    Projects,
    Download { project_id: Seq<char> },
    Compile { project_id: Seq<char> },
    Unknown { name: Seq<char> },
}

impl View for Request {
    type V = RequestView;

    open spec fn view(&self) -> RequestView {
        match self {
            Request::Login { secret } => RequestView::Login { secret: secret@ },
            Request::Projects => RequestView::Projects,
            Request::Download { project_id } => RequestView::Download { project_id: project_id@ },
            Request::Compile { project_id } => RequestView::Compile { project_id: project_id@ },
            Request::Unknown { name } => RequestView::Unknown { name: name@ },
        }
    }
}

/// The first positional argument, or the empty text when there is none.
pub open spec fn first_arg(args: Seq<String>) -> Seq<char> {
    if args.len() > 0 {
        args[0]@
    } else {
        Seq::empty()
    }
}

/// Whether `name` is one of the four command names.
pub open spec fn is_known_name(name: Seq<char>) -> bool {
    name == LOGIN_NAME@ || name == PROJECTS_NAME@ || name == DOWNLOAD_NAME@ || name
        == COMPILE_NAME@
}

/// The request made by the command `name` with positional arguments `args`.
/// Only the first argument is read; further ones are ignored.
pub open spec fn request_of(name: Seq<char>, args: Seq<String>) -> RequestView {
    if name == LOGIN_NAME@ {
        RequestView::Login { secret: first_arg(args) }
    } else if name == PROJECTS_NAME@ {
        RequestView::Projects
    } else if name == DOWNLOAD_NAME@ {
        RequestView::Download { project_id: first_arg(args) }
    } else if name == COMPILE_NAME@ {
        RequestView::Compile { project_id: first_arg(args) }
    } else {
        RequestView::Unknown { name }
    }
}

fn first_or_empty(args: &Vec<String>) -> (r: String)
    ensures
        r@ == first_arg(args@),
{
    if args.len() > 0 {
        args[0].clone()
    } else {
        String::new()
    }
}

impl Request {
    /// Sorts a command name and its arguments into a request.
    pub fn parse(name: &str, args: &Vec<String>) -> (r: Request)
        ensures
            r@ == request_of(name@, args@),
    {
        if same_text(name, LOGIN_NAME) {
            Request::Login { secret: first_or_empty(args) }
        } else if same_text(name, PROJECTS_NAME) {
            Request::Projects
        } else if same_text(name, DOWNLOAD_NAME) {
            Request::Download { project_id: first_or_empty(args) }
        } else if same_text(name, COMPILE_NAME) {
            Request::Compile { project_id: first_or_empty(args) }
        } else {
            Request::Unknown { name: String::from_str(name) }
        }
    }
}

} // verus!
