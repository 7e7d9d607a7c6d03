//! Building an uploaded context into an image with `buildctl`, and what the
//! client shows of the build.

use vstd::prelude::*;
use vstd::string::*;
use crate::id::ID;
use crate::registry::{image_path, Param};
use crate::text::{push_signed_decimal, signed_decimal};

verus! {

/// The arguments of `buildctl` that build the Dockerfile context in
/// `context_dir` on the buildkit daemon at `buildkit_url`; where `output` names an
/// image, the result is pushed there (to an insecure registry).
pub open spec fn buildctl_args_view(buildkit_url: Seq<char>, context_dir: Seq<char>, output: Option<Seq<char>>) -> Seq<Seq<char>> {
    let common = seq![
        "--addr=tcp://"@ + buildkit_url,
        "--tlsdir=/certs"@,
        "build"@,
        "--frontend=dockerfile.v0"@,
        "--local=context="@ + context_dir,
        "--local=dockerfile="@ + context_dir,
    ];
    match output {
        Some(image) => common.push("--output=type=image,name="@ + image + ",registry.insecure=true,push=true"@),
        None => common,
    }
}

fn prefixed(prefix: &str, rest: &str) -> (s: String)
    ensures
        s@ == prefix@ + rest@,
{
    let mut s = prefix.to_owned();
    s.append(rest);
    s
}

/// The arguments of `buildctl` for a build of `context_dir`, optionally pushed to
/// `output`.
pub fn buildctl_args(buildkit_url: &str, context_dir: &str, output: Option<&str>) -> (args: Vec<String>)
    ensures
        args@.map_values(|a: String| a@) == buildctl_args_view(
            buildkit_url@,
            context_dir@,
            match output {
                Some(o) => Some(o@),
                None => None,
            },
        ),
{
    let mut args: Vec<String> = Vec::new();
    args.push(prefixed("--addr=tcp://", buildkit_url));
    args.push("--tlsdir=/certs".to_owned());
    args.push("build".to_owned());
    args.push("--frontend=dockerfile.v0".to_owned());
    args.push(prefixed("--local=context=", context_dir));
    args.push(prefixed("--local=dockerfile=", context_dir));
    match output {
        Some(image) => {
            let mut o = prefixed("--output=type=image,name=", image);
            o.append(",registry.insecure=true,push=true");
            args.push(o);
        },
        None => {},
    }
    let ghost expected = buildctl_args_view(
        buildkit_url@,
        context_dir@,
        match output {
            Some(o) => Some(o@),
            None => None,
        },
    );
    assert(args@.map_values(|a: String| a@) =~= expected);
    args
}

/// The arguments of `buildctl` that build an uploaded context and push the image
/// under the name of the upload.
pub fn upbuild_args(buildkit_url: &str, registry: &Param, context_dir: &str, hashed_id: &ID) -> (args: Vec<String>)
    ensures
        args@.map_values(|a: String| a@) == buildctl_args_view(
            buildkit_url@,
            context_dir@,
            Some(image_path(registry.push_url@, registry.username@, hashed_id.content@)),
        ),
{
    let image = registry.push_url(hashed_id.content.as_str());
    buildctl_args(buildkit_url, context_dir, Some(image.as_str()))
}

/// A message of a build stream.
pub enum UpbuildMsg {
    Stdout(String),
    Stderr(String),
    /// `buildctl` exited with this code.
    Code(i32),
    /// The image was built and pushed under this id.
    Complete(ID),
}

/// The messages that close a build: where `buildctl` exited with code 0 the image
/// is complete; then its exit code. Where it exited without a code (killed by a
/// signal) nothing is sent.
pub fn build_exit_messages(code: Option<i32>, hashed_id: ID) -> (msgs: Vec<UpbuildMsg>)
    ensures
        match code {
            Some(0i32) => msgs@ == seq![UpbuildMsg::Complete(hashed_id), UpbuildMsg::Code(0)],
            Some(c) => msgs@ == seq![UpbuildMsg::Code(c)],
            None => msgs@.len() == 0,
        },
{
    let mut msgs: Vec<UpbuildMsg> = Vec::new();
    match code {
        Some(c) => {
            if c == 0 {
                msgs.push(UpbuildMsg::Complete(hashed_id));
            }
            msgs.push(UpbuildMsg::Code(c));
            assert(c == 0 ==> msgs@ =~= seq![UpbuildMsg::Complete(hashed_id), UpbuildMsg::Code(0)]);
            assert(c != 0 ==> msgs@ =~= seq![UpbuildMsg::Code(c)]);
        },
        None => {},
    }
    msgs
}

/// What the client prints for one build message: a line on stdout, a line on
/// stderr, and whether it exits (with which code).
pub struct ClientOutput {
    pub stdout: Option<String>,
    pub stderr: Option<String>,
    pub exit: Option<i32>,
}

/// What the client prints for a build message (`None` where the server sent an
/// empty one). In `brief` mode it prints only the id of the built image on
/// stdout (nothing else, not even for an empty message), and the errors of the
/// build on stderr. It exits with `buildctl`'s code.
pub fn render_upbuild(msg: Option<UpbuildMsg>, brief: bool) -> (out: ClientOutput)
    ensures
        match msg {
            None => out.stdout.deep_view() == (if brief {
                None
            } else {
                Some("None MSG"@)
            }) && out.stderr is None && out.exit is None,
            Some(UpbuildMsg::Code(c)) => out.stdout.deep_view() == (if brief {
                None
            } else {
                Some("`buildctl` exited, code: "@ + signed_decimal(c as int))
            }) && out.stderr is None && out.exit == Some(c),
            Some(UpbuildMsg::Stdout(line)) => out.stdout.deep_view() == (if brief {
                None
            } else {
                Some(line@)
            }) && out.stderr is None && out.exit is None,
            Some(UpbuildMsg::Stderr(line)) => out.stdout is None && out.stderr.deep_view() == Some(line@)
                && out.exit is None,
            Some(UpbuildMsg::Complete(id)) => out.stdout.deep_view() == Some(
                if brief {
                    id.content@
                } else {
                    "complete: "@ + id.content@
                },
            ) && out.stderr is None && out.exit is None,
        },
{
    match msg {
        None => ClientOutput {
            stdout: if brief {
                None
            } else {
                Some("None MSG".to_owned())
            },
            stderr: None,
            exit: None,
        },
        Some(UpbuildMsg::Code(c)) => {
            let line = if brief {
                None
            } else {
                let mut s = "`buildctl` exited, code: ".to_owned();
                push_signed_decimal(&mut s, c);
                Some(s)
            };
            ClientOutput { stdout: line, stderr: None, exit: Some(c) }
        },
        Some(UpbuildMsg::Stdout(line)) => ClientOutput {
            stdout: if brief {
                None
            } else {
                Some(line)
            },
            stderr: None,
            exit: None,
        },
        Some(UpbuildMsg::Stderr(line)) => ClientOutput { stdout: None, stderr: Some(line), exit: None },
        Some(UpbuildMsg::Complete(id)) => {
            let line = if brief {
                id.content
            } else {
                prefixed("complete: ", id.content.as_str())
            };
            ClientOutput { stdout: Some(line), stderr: None, exit: None }
        },
    }
}

} // verus!
