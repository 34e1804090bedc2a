use std::path::PathBuf;
use zeroclaw::cwd::{resolve_cwd, CwdStep};
use zeroclaw::json_text::{decode_json, encode_json_line};
use zeroclaw::rpc::{error_json, JSONRPC_INTERNAL_ERROR, JSONRPC_INVALID_PARAMS};

fn failure(step: CwdStep) -> (i64, String) {
    match step {
        CwdStep::Failed { error } => (error.code, error.message),
        other => panic!("{:?}", other),
    }
}

fn start(params: &str) -> CwdStep {
    resolve_cwd(Some(&decode_json(params).expect("valid JSON")))
}

#[test]
fn wrong_parameters_are_refused() {
    let expected = |message: &str| (JSONRPC_INVALID_PARAMS, message.to_string());
    assert_eq!(failure(start("3")), expected("params must be an object"));
    assert_eq!(
        failure(start(r#"{"cwd": null}"#)),
        expected("params.cwd must be a string")
    );
    assert_eq!(
        failure(start(r#"{"cwd": " "}"#)),
        expected("params.cwd must not be empty")
    );
}

fn wanted(step: CwdStep) -> PathBuf {
    match step {
        CwdStep::Directory { path } => path,
        other => panic!("{:?}", other),
    }
}

#[test]
fn a_relative_path_is_joined_to_the_current_directory() {
    let relative = match start(r#"{"cwd": " a/b"}"#) {
        CwdStep::CurrentDir { relative } => relative,
        other => panic!("{:?}", other),
    };
    assert_eq!(relative, Some(PathBuf::from(" a/b")));
    let path = wanted(CwdStep::current_dir(relative, Ok(PathBuf::from("/work"))));
    assert_eq!(path, PathBuf::from("/work/ a/b"));
    match CwdStep::directory(path, true) {
        CwdStep::Found { path } => assert_eq!(path, PathBuf::from("/work/ a/b")),
        other => panic!("{:?}", other),
    }
}

#[test]
fn an_absolute_path_is_taken_as_it_is() {
    assert_eq!(wanted(start(r#"{"cwd": "/a/../b"}"#)), PathBuf::from("/a/../b"));
}

#[test]
fn the_current_directory_is_the_default() {
    for step in [resolve_cwd(None), start("{}")] {
        let relative = match step {
            CwdStep::CurrentDir { relative } => relative,
            other => panic!("{:?}", other),
        };
        assert_eq!(relative, None);
        let path = wanted(CwdStep::current_dir(relative, Ok(PathBuf::from("/work"))));
        assert_eq!(path, PathBuf::from("/work"));
    }
}

#[test]
fn a_current_directory_that_is_relative_is_asked_for_again() {
    let relative = match CwdStep::current_dir(None, Ok(PathBuf::from("work"))) {
        CwdStep::CurrentDir { relative } => relative,
        other => panic!("{:?}", other),
    };
    let path = wanted(CwdStep::current_dir(relative, Ok(PathBuf::from("/home"))));
    assert_eq!(path, PathBuf::from("/home/work"));
}

#[test]
fn a_path_that_is_no_directory_is_refused() {
    let step = CwdStep::directory(wanted(start(r#"{"cwd": "/x/y"}"#)), false);
    assert_eq!(
        failure(step),
        (
            JSONRPC_INVALID_PARAMS,
            "params.cwd does not exist or is not a directory: /x/y".to_string()
        )
    );
}

#[test]
fn an_unreadable_current_directory_is_an_internal_error() {
    match CwdStep::current_dir(None, Err("gone".to_string())) {
        CwdStep::Failed { error } => assert_eq!(
            encode_json_line(error_json(error)),
            format!("{{\"code\":{},\"data\":{{\"detail\":\"gone\"}},\"message\":\"Failed to resolve current working directory\"}}\n", JSONRPC_INTERNAL_ERROR)
        ),
        other => panic!("{:?}", other),
    }
}
