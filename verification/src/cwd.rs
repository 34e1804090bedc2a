//! The working directory of a session: which one a client asks for, and the
//! steps from there to a directory that exists.

use crate::json::{field, tree_of, Json, JsonTree};
use crate::rpc::{
    detail_json, detailed_error, law_error_parts, plain_error, ErrorTree, JsonRpcErrorObject,
    JSONRPC_INTERNAL_ERROR, JSONRPC_INVALID_PARAMS,
};
use crate::text::{adjoin, is_blank, lemma_trimmed_blank, trim, trimmed};
use std::path::PathBuf;
use vstd::prelude::*;
use vstd::string::*;

verus! {

/// `std::path::PathBuf`, a path of the file system.
#[verifier::external_type_specification]
#[verifier::external_body]
pub struct ExPathBuf(std::path::PathBuf);

/// The path that a text denotes.
pub uninterp spec fn path_of(text: Seq<char>) -> PathBuf;

/// Whether a path is absolute, on the platform that the library is built for.
pub uninterp spec fn is_absolute_path(path: PathBuf) -> bool;

/// The second path joined to the first, on the platform that the library is
/// built for.
pub uninterp spec fn joined_path(base: PathBuf, tail: PathBuf) -> PathBuf;

/// The text of a path.
pub uninterp spec fn path_text(path: PathBuf) -> Seq<char>;

/// `std::path::PathBuf::from` on a string: the path is a function of the text
/// alone, and is named. It holds the text, so that the text of the path is that
/// text again.
#[verifier::external_body]
fn path_from_str(text: &str) -> (r: PathBuf)
    ensures
        r == path_of(text@),
        path_text(r) == text@,
{
    PathBuf::from(text)
}

/// `std::path::Path::is_absolute`: it looks at the path alone, not at the file
/// system, and is named. Which paths are absolute is left to the platform.
#[verifier::external_body]
fn is_absolute(path: &PathBuf) -> (r: bool)
    ensures
        r == is_absolute_path(*path),
{
    path.is_absolute()
}

/// `std::path::Path::join`: it looks at the two paths alone, not at the file
/// system, and is named. How paths are put together is left to the platform.
#[verifier::external_body]
fn join_paths(base: &PathBuf, tail: &PathBuf) -> (r: PathBuf)
    ensures
        r == joined_path(*base, *tail),
{
    base.join(tail)
}

/// `std::path::Path::to_string_lossy`: the text of a path, in which what is no
/// Unicode is replaced. It is a function of the path alone, and is named.
#[verifier::external_body]
pub(crate) fn text_of_path(path: &PathBuf) -> (r: String)
    ensures
        r@ == path_text(*path),
{
    path.to_string_lossy().into_owned()
}

/// What is wanted next on the way to the working directory of a session.
#[derive(Debug)]
pub enum CwdStep {
    /// The working directory of this process; `relative` is to be joined to it.
    CurrentDir { relative: Option<PathBuf> },
    /// Whether `path` is a directory.
    Directory { path: PathBuf },
    /// Nothing: this is the directory.
    Found { path: PathBuf },
    /// Nothing: there is no such directory.
    Failed { error: JsonRpcErrorObject },
}

/// What a step says.
pub enum CwdStepTree {
    CurrentDir { relative: Option<PathBuf> },
    Directory { path: PathBuf },
    Found { path: PathBuf },
    Failed { error: ErrorTree },
}

impl View for CwdStep {
    type V = CwdStepTree;

    open spec fn view(&self) -> CwdStepTree {
        match *self {
            CwdStep::CurrentDir { relative } => CwdStepTree::CurrentDir { relative },
            CwdStep::Directory { path } => CwdStepTree::Directory { path },
            CwdStep::Found { path } => CwdStepTree::Found { path },
            CwdStep::Failed { error } => CwdStepTree::Failed { error: error@ },
        }
    }
}

/// The directory that the parameters ask for, or `None` for that of this
/// process.
pub open spec fn requested_cwd(params: Option<JsonTree>) -> Result<Option<Seq<char>>, ErrorTree> {
    match params {
        None => Ok(None),
        Some(JsonTree::Object(fields)) => if !fields.contains_key("cwd"@) {
            Ok(None)
        } else {
            match fields["cwd"@] {
                JsonTree::Text(cwd) => if trimmed(cwd).len() == 0 {
                    Err(plain_error(JSONRPC_INVALID_PARAMS, "params.cwd must not be empty"@))
                } else {
                    Ok(Some(cwd))
                },
                _ => Err(plain_error(JSONRPC_INVALID_PARAMS, "params.cwd must be a string"@)),
            }
        },
        Some(_) => Err(plain_error(JSONRPC_INVALID_PARAMS, "params must be an object"@)),
    }
}

/// The step for a path that was chosen: it is looked up as it is, if it is
/// absolute, and joined to the working directory of this process otherwise.
pub open spec fn cwd_at(path: PathBuf) -> CwdStepTree {
    if is_absolute_path(path) {
        CwdStepTree::Directory { path }
    } else {
        CwdStepTree::CurrentDir { relative: Some(path) }
    }
}

/// The first step for given parameters.
pub open spec fn cwd_start(params: Option<JsonTree>) -> CwdStepTree {
    match requested_cwd(params) {
        Ok(None) => CwdStepTree::CurrentDir { relative: None },
        Ok(Some(text)) => cwd_at(path_of(text)),
        Err(error) => CwdStepTree::Failed { error },
    }
}

/// The error where the working directory of this process cannot be read.
pub open spec fn no_current_dir(detail: Seq<char>) -> ErrorTree {
    detailed_error(
        JSONRPC_INTERNAL_ERROR,
        "Failed to resolve current working directory"@,
        detail,
    )
}

/// The step behind [`CwdStep::CurrentDir`].
pub open spec fn cwd_after_current(
    relative: Option<PathBuf>,
    current: Result<PathBuf, Seq<char>>,
) -> CwdStepTree {
    match current {
        Err(detail) => CwdStepTree::Failed { error: no_current_dir(detail) },
        Ok(base) => match relative {
            Some(tail) => CwdStepTree::Directory { path: joined_path(base, tail) },
            None => cwd_at(base),
        },
    }
}

/// The error where a path is no directory.
pub open spec fn no_directory(text: Seq<char>) -> ErrorTree {
    plain_error(
        JSONRPC_INVALID_PARAMS,
        "params.cwd does not exist or is not a directory: "@ + text,
    )
}

/// The step behind [`CwdStep::Directory`].
pub open spec fn cwd_after_directory(path: PathBuf, is_dir: bool) -> CwdStepTree {
    if is_dir {
        CwdStepTree::Found { path }
    } else {
        CwdStepTree::Failed { error: no_directory(path_text(path)) }
    }
}

/// An outside result by its path, or the characters of its error.
pub open spec fn current_tree(current: Result<PathBuf, String>) -> Result<PathBuf, Seq<char>> {
    match current {
        Ok(path) => Ok(path),
        Err(detail) => Err(detail@),
    }
}

fn failed(code: i64, message: String) -> (r: CwdStep)
    ensures
        r@ == (CwdStepTree::Failed { error: plain_error(code, message@) }),
{
    CwdStep::Failed { error: JsonRpcErrorObject::new(code, message) }
}

fn look_at(path: PathBuf) -> (r: CwdStep)
    ensures
        r@ == cwd_at(path),
{
    if is_absolute(&path) {
        CwdStep::Directory { path }
    } else {
        CwdStep::CurrentDir { relative: Some(path) }
    }
}

/// Begins to look for the directory that the parameters of a request ask for.
/// The text of the path that is asked for is the text that asks for it.
pub fn resolve_cwd(params: Option<&Json>) -> (r: CwdStep)
    ensures
        r@ == cwd_start(tree_of(params)),
        requested_cwd(tree_of(params)) matches Ok(Some(text)) ==> path_text(path_of(text)) == text,
{
    let raw = match params {
        None => None,
        Some(Json::Object(object)) => object.get("cwd"),
        Some(_) => {
            return failed(JSONRPC_INVALID_PARAMS, "params must be an object".to_owned());
        },
    };
    let raw = match raw {
        None => {
            return CwdStep::CurrentDir { relative: None };
        },
        Some(raw) => raw,
    };
    match raw.as_str() {
        None => failed(JSONRPC_INVALID_PARAMS, "params.cwd must be a string".to_owned()),
        Some(cwd) => if trim(cwd).is_empty() {
            failed(JSONRPC_INVALID_PARAMS, "params.cwd must not be empty".to_owned())
        } else {
            look_at(path_from_str(cwd))
        },
    }
}

impl CwdStep {
    /// Goes on from `CurrentDir` with the directory, or with why there is none.
    pub fn current_dir(relative: Option<PathBuf>, current: Result<PathBuf, String>) -> (r: CwdStep)
        ensures
            r@ == cwd_after_current(relative, current_tree(current)),
    {
        match current {
            Err(detail) => CwdStep::Failed {
                error: JsonRpcErrorObject::with_data(
                    JSONRPC_INTERNAL_ERROR,
                    "Failed to resolve current working directory".to_owned(),
                    detail_json(detail),
                ),
            },
            Ok(base) => match relative {
                Some(tail) => CwdStep::Directory { path: join_paths(&base, &tail) },
                None => look_at(base),
            },
        }
    }

    /// Goes on from `Directory` with whether the path is a directory.
    pub fn directory(path: PathBuf, is_dir: bool) -> (r: CwdStep)
        ensures
            r@ == cwd_after_directory(path, is_dir),
    {
        if is_dir {
            CwdStep::Found { path }
        } else {
            failed(
                JSONRPC_INVALID_PARAMS,
                adjoin(
                    "params.cwd does not exist or is not a directory: ",
                    text_of_path(&path).as_str(),
                ),
            )
        }
    }
}

/// The answers that the steps get from outside.
pub struct CwdAnswers {
    /// The working directory of this process, as it is first read.
    pub current: Result<PathBuf, Seq<char>>,
    /// The working directory of this process, as it is read for a relative path.
    pub base: Result<PathBuf, Seq<char>>,
    /// Whether a path is a directory.
    pub is_dir: spec_fn(PathBuf) -> bool,
}

/// The step that follows, given the answers; a last step stays.
pub open spec fn cwd_next(answers: CwdAnswers, step: CwdStepTree) -> CwdStepTree {
    match step {
        CwdStepTree::CurrentDir { relative: None } => cwd_after_current(None, answers.current),
        CwdStepTree::CurrentDir { relative } => cwd_after_current(relative, answers.base),
        CwdStepTree::Directory { path } => cwd_after_directory(path, (answers.is_dir)(path)),
        _ => step,
    }
}

/// The step that is reached from `step` after `count` answers.
pub open spec fn cwd_run(answers: CwdAnswers, step: CwdStepTree, count: nat) -> CwdStepTree
    decreases count,
{
    if count == 0 {
        step
    } else {
        cwd_run(answers, cwd_next(answers, step), (count - 1) as nat)
    }
}

/// The path asked for, before it is made absolute.
pub open spec fn chosen_path(answers: CwdAnswers, params: Option<JsonTree>) -> Result<
    PathBuf,
    ErrorTree,
> {
    match requested_cwd(params) {
        Err(error) => Err(error),
        Ok(Some(text)) => Ok(path_of(text)),
        Ok(None) => match answers.current {
            Ok(path) => Ok(path),
            Err(detail) => Err(no_current_dir(detail)),
        },
    }
}

/// The path asked for, made absolute.
pub open spec fn absolute_path(answers: CwdAnswers, params: Option<JsonTree>) -> Result<
    PathBuf,
    ErrorTree,
> {
    match chosen_path(answers, params) {
        Err(error) => Err(error),
        Ok(path) => if is_absolute_path(path) {
            Ok(path)
        } else {
            match answers.base {
                Ok(base) => Ok(joined_path(base, path)),
                Err(detail) => Err(no_current_dir(detail)),
            }
        },
    }
}

/// Whatever the answers, the steps end, after three answers at most: at the
/// absolute path that was asked for, if it is a directory, and else at the
/// error that says what was wrong.
pub proof fn law_cwd_resolution(answers: CwdAnswers, params: Option<JsonTree>)
    ensures
        cwd_run(answers, cwd_start(params), 3) == match absolute_path(answers, params) {
            Err(error) => CwdStepTree::Failed { error },
            Ok(path) => if (answers.is_dir)(path) {
                CwdStepTree::Found { path }
            } else {
                CwdStepTree::Failed { error: no_directory(path_text(path)) }
            },
        },
{
    reveal_with_fuel(cwd_run, 4);
}

/// The directory that is asked for is the text under `cwd`, unchanged; without
/// it, none is asked for. A blank text, another value, and parameters that are no
/// object are refused.
pub proof fn law_cwd_requested(fields: Map<Seq<char>, JsonTree>, params: JsonTree)
    ensures
        requested_cwd(None) == Ok::<Option<Seq<char>>, ErrorTree>(None),
        !fields.contains_key("cwd"@) ==> requested_cwd(Some(JsonTree::Object(fields))) == Ok::<
            Option<Seq<char>>,
            ErrorTree,
        >(None),
        fields.contains_key("cwd"@) ==> {
            &&& fields["cwd"@] matches JsonTree::Text(cwd) ==> {
                &&& !is_blank(cwd) ==> requested_cwd(Some(JsonTree::Object(fields))) == Ok::<
                    Option<Seq<char>>,
                    ErrorTree,
                >(Some(cwd))
                &&& is_blank(cwd) ==> {
                    requested_cwd(Some(JsonTree::Object(fields))) matches Err(error) && error.code
                        == -32602 && error.message == "params.cwd must not be empty"@
                        && error.data is None
                }
            }
            &&& !(fields["cwd"@] is Text) ==> {
                requested_cwd(Some(JsonTree::Object(fields))) matches Err(error) && error.code
                    == -32602 && error.message == "params.cwd must be a string"@
                    && error.data is None
            }
        },
        !(params is Object) ==> {
            requested_cwd(Some(params)) matches Err(error) && error.code == -32602 && error.message
                == "params must be an object"@ && error.data is None
        },
{
    if fields.contains_key("cwd"@) {
        if let JsonTree::Text(cwd) = fields["cwd"@] {
            lemma_trimmed_blank(cwd);
        }
    }
}

/// A session is opened in the directory that was asked for: the path itself, if
/// it is absolute, and else the path joined to the working directory of this
/// process. What is no directory is refused, by its name.
pub proof fn law_cwd_asked_for(answers: CwdAnswers, params: Option<JsonTree>, text: Seq<char>)
    requires
        requested_cwd(params) == Ok::<Option<Seq<char>>, ErrorTree>(Some(text)),
    ensures
        ({
            let asked = path_of(text);
            let last = cwd_run(answers, cwd_start(params), 3);
            &&& is_absolute_path(asked) ==> is_end_at(answers, last, asked)
            &&& !is_absolute_path(asked) ==> match answers.base {
                Ok(base) => is_end_at(answers, last, joined_path(base, asked)),
                Err(detail) => last matches CwdStepTree::Failed { error } && is_unreadable(
                    error,
                    detail,
                ),
            }
        }),
{
    reveal_with_fuel(cwd_run, 4);
    lemma_detail(answers.base);
}

/// A session for which no directory is asked is opened in the working directory
/// of this process.
pub proof fn law_cwd_default(answers: CwdAnswers, params: Option<JsonTree>)
    requires
        requested_cwd(params) == Ok::<Option<Seq<char>>, ErrorTree>(None),
    ensures
        ({
            let last = cwd_run(answers, cwd_start(params), 3);
            match answers.current {
                Err(detail) => last matches CwdStepTree::Failed { error } && is_unreadable(
                    error,
                    detail,
                ),
                Ok(current) => {
                    &&& is_absolute_path(current) ==> is_end_at(answers, last, current)
                    &&& !is_absolute_path(current) ==> match answers.base {
                        Ok(base) => is_end_at(answers, last, joined_path(base, current)),
                        Err(detail) => last matches CwdStepTree::Failed { error } && is_unreadable(
                            error,
                            detail,
                        ),
                    }
                },
            }
        }),
{
    reveal_with_fuel(cwd_run, 4);
    lemma_detail(answers.base);
    lemma_detail(answers.current);
}

/// A request that asks for a directory in a wrong way is refused at once.
pub proof fn law_cwd_refused(params: Option<JsonTree>)
    ensures
        requested_cwd(params) matches Err(error) ==> cwd_start(params) == (CwdStepTree::Failed {
            error,
        }),
        requested_cwd(params) is Ok ==> !(cwd_start(params) is Failed) && !(cwd_start(
            params,
        ) is Found),
{
}

/// Tells whether `step` is the end at `path`: it is found, if it is a directory,
/// and refused by its text otherwise.
pub open spec fn is_end_at(answers: CwdAnswers, step: CwdStepTree, path: PathBuf) -> bool {
    if (answers.is_dir)(path) {
        step matches CwdStepTree::Found { path: found } && found == path
    } else {
        step matches CwdStepTree::Failed { error } && error.code == -32602 && error.data is None
            && error.message == "params.cwd does not exist or is not a directory: "@ + path_text(
            path,
        )
    }
}

/// Tells whether an error says that the working directory of this process
/// cannot be read, and why.
pub open spec fn is_unreadable(error: ErrorTree, detail: Seq<char>) -> bool {
    &&& error.code == -32603
    &&& error.message == "Failed to resolve current working directory"@
    &&& error.data matches Some(data) && field(data, "detail"@) == Some(JsonTree::Text(detail))
}

proof fn lemma_detail(current: Result<PathBuf, Seq<char>>)
    ensures
        current matches Err(detail) ==> is_unreadable(no_current_dir(detail), detail),
{
    if let Err(detail) = current {
        law_error_parts(
            JSONRPC_INTERNAL_ERROR,
            "Failed to resolve current working directory"@,
            detail,
        );
    }
}

/// A step says what it holds, and the working directory of this process, or why
/// it cannot be read, is taken as it is given.
pub proof fn law_cwd_step_view(step: CwdStep, path: PathBuf, detail: String)
    ensures
        step matches CwdStep::CurrentDir { relative } ==> step@ == (CwdStepTree::CurrentDir {
            relative,
        }),
        step matches CwdStep::Directory { path } ==> step@ == (CwdStepTree::Directory { path }),
        step matches CwdStep::Found { path } ==> step@ == (CwdStepTree::Found { path }),
        step matches CwdStep::Failed { error } ==> step@ == (CwdStepTree::Failed { error: error@ }),
        current_tree(Ok(path)) == Ok::<PathBuf, Seq<char>>(path),
        current_tree(Err(detail)) == Err::<PathBuf, Seq<char>>(detail@),
{
}

} // verus!
