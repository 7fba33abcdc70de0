//! The argument encoder: a request becomes a command keyword followed by an
//! ordered list of argument tokens.
//!
//! Required fields are encoded as two tokens, `--flag` then the value
//! (booleans as `"1"`/`"0"`). Optional or free-form fields are encoded as a
//! single joined token `--flag=value`, emitted only when the field is
//! present, so that a value beginning with `-` can never be mistaken for a
//! further flag.

use vstd::prelude::*;
use vstd::string::StringExecFns;

use crate::request::{ReqModel, Request};

verus! {

/// How a boolean renders on the command line.
pub open spec fn bool_lit(b: bool) -> Seq<char> {
    if b {
        "1"@
    } else {
        "0"@
    }
}

/// The tokens an optional free-form field contributes: one joined
/// `--flag=value` token when present, nothing when absent.
pub open spec fn opt_joined(flag: Seq<char>, v: Option<Seq<char>>) -> Seq<Seq<char>> {
    match v {
        Option::Some(s) => seq![flag + s],
        Option::None => Seq::empty(),
    }
}

/// The tokens an optional boolean field contributes.
pub open spec fn opt_joined_bool(flag: Seq<char>, v: Option<bool>) -> Seq<Seq<char>> {
    match v {
        Option::Some(b) => seq![flag + bool_lit(b)],
        Option::None => Seq::empty(),
    }
}

/// The encoding of a request: the command keyword, then the operation's
/// argument tokens in its fixed, documented order.
pub open spec fn spec_encode(m: ReqModel) -> Seq<Seq<char>> {
    match m {
        ReqModel::Dashboard { from, to, refresh, granularity, project_id } => {
            seq![
                "dashboard"@,
                "--from"@,
                from,
                "--to"@,
                to,
                "--refresh"@,
                bool_lit(refresh),
                "--granularity"@,
                granularity,
            ] + opt_joined("--project-id="@, project_id)
        },
        ReqModel::Day { date, project_id } => {
            seq!["day"@, "--date"@, date] + opt_joined("--project-id="@, project_id)
        },
        ReqModel::Model { model, from, to, project_id } => {
            seq!["model"@, "--model"@, model, "--from"@, from, "--to"@, to] + opt_joined(
                "--project-id="@,
                project_id,
            )
        },
        ReqModel::Session { session_id, project_id } => {
            seq!["session"@, "--id"@, session_id] + opt_joined("--project-id="@, project_id)
        },
        ReqModel::LimitResets { from, to } => {
            seq!["limit-resets"@, "--from"@, from, "--to"@, to]
        },
        ReqModel::PngExport { from, to } => {
            seq!["png-export"@, "--from"@, from, "--to"@, to]
        },
        ReqModel::ListProjects => seq!["list-projects"@],
        ReqModel::UpdateProject { project_id, name, description, visible } => {
            seq!["update-project"@, "--project-id="@ + project_id] + opt_joined("--name="@, name)
                + opt_joined("--description="@, description) + opt_joined_bool(
                "--visible="@,
                visible,
            )
        },
    }
}

impl Request {
    /// Encode this request for the engine's command line. The encoder is
    /// total: it succeeds on every well-typed request.
    pub fn encode(&self) -> (r: Vec<String>)
        ensures
            r.deep_view() == spec_encode(self@),
    {
        let mut v: Vec<String> = Vec::new();
        match self {
            Request::Dashboard { from, to, refresh, granularity, project_id } => {
                v.push(String::from_str("dashboard"));
                v.push(String::from_str("--from"));
                v.push(String::from_str(from.as_str()));
                v.push(String::from_str("--to"));
                v.push(String::from_str(to.as_str()));
                v.push(String::from_str("--refresh"));
                v.push(encode_bool(*refresh));
                v.push(String::from_str("--granularity"));
                v.push(String::from_str(granularity.as_str()));
                push_opt_joined(&mut v, "--project-id=", project_id);
                assert(v.deep_view() =~~= spec_encode(self@));
            },
            Request::Day { date, project_id } => {
                v.push(String::from_str("day"));
                v.push(String::from_str("--date"));
                v.push(String::from_str(date.as_str()));
                push_opt_joined(&mut v, "--project-id=", project_id);
                assert(v.deep_view() =~~= spec_encode(self@));
            },
            Request::Model { model, from, to, project_id } => {
                v.push(String::from_str("model"));
                v.push(String::from_str("--model"));
                v.push(String::from_str(model.as_str()));
                v.push(String::from_str("--from"));
                v.push(String::from_str(from.as_str()));
                v.push(String::from_str("--to"));
                v.push(String::from_str(to.as_str()));
                push_opt_joined(&mut v, "--project-id=", project_id);
                assert(v.deep_view() =~~= spec_encode(self@));
            },
            Request::Session { session_id, project_id } => {
                v.push(String::from_str("session"));
                v.push(String::from_str("--id"));
                v.push(String::from_str(session_id.as_str()));
                push_opt_joined(&mut v, "--project-id=", project_id);
                assert(v.deep_view() =~~= spec_encode(self@));
            },
            Request::LimitResets { from, to } => {
                v.push(String::from_str("limit-resets"));
                v.push(String::from_str("--from"));
                v.push(String::from_str(from.as_str()));
                v.push(String::from_str("--to"));
                v.push(String::from_str(to.as_str()));
                assert(v.deep_view() =~~= spec_encode(self@));
            },
            Request::PngExport { from, to } => {
                v.push(String::from_str("png-export"));
                v.push(String::from_str("--from"));
                v.push(String::from_str(from.as_str()));
                v.push(String::from_str("--to"));
                v.push(String::from_str(to.as_str()));
                assert(v.deep_view() =~~= spec_encode(self@));
            },
            Request::ListProjects => {
                v.push(String::from_str("list-projects"));
                assert(v.deep_view() =~~= spec_encode(self@));
            },
            Request::UpdateProject { project_id, name, description, visible } => {
                v.push(String::from_str("update-project"));
                v.push(String::from_str("--project-id=").concat(project_id.as_str()));
                let ghost head: Seq<Seq<char>> = seq![
                    "update-project"@,
                    "--project-id="@ + project_id@,
                ];
                assert(v.deep_view() =~~= head);
                push_opt_joined(&mut v, "--name=", name);
                let ghost with_name: Seq<Seq<char>> = head + opt_joined(
                    "--name="@,
                    name.deep_view(),
                );
                push_opt_joined(&mut v, "--description=", description);
                let ghost with_desc: Seq<Seq<char>> = with_name + opt_joined(
                    "--description="@,
                    description.deep_view(),
                );
                match visible {
                    Option::Some(b) => {
                        let tok = String::from_str("--visible=").concat(encode_bool(*b).as_str());
                        v.push(tok);
                        assert(v.deep_view() =~~= with_desc + opt_joined_bool(
                            "--visible="@,
                            Option::Some(*b),
                        ));
                    },
                    Option::None => {
                        assert(v.deep_view() =~~= with_desc + opt_joined_bool(
                            "--visible="@,
                            Option::None,
                        ));
                    },
                }
                assert(v.deep_view() =~~= spec_encode(self@));
            },
        }
        v
    }
}

/// Law: encoding is deterministic — any two encodings of the same request
/// are identical, token for token. The executable encoder's contract pins
/// its result to `spec_encode`, so two calls on equal requests can only
/// return equal argument sequences.
pub proof fn lemma_encode_deterministic(a: Seq<Seq<char>>, b: Seq<Seq<char>>, m: ReqModel)
    requires
        a == spec_encode(m),
        b == spec_encode(m),
    ensures
        a == b,
{
}

/// Law: an update-project request with only the project identifier set
/// encodes to exactly two tokens, the keyword and the single joined
/// `--project-id=` token.
pub proof fn lemma_update_project_minimal(pid: Seq<char>)
    ensures
        spec_encode(
            ReqModel::UpdateProject {
                project_id: pid,
                name: Option::None,
                description: Option::None,
                visible: Option::None,
            },
        ) =~~= seq!["update-project"@, "--project-id="@ + pid],
{
}

/// The executable rendering of a boolean argument value.
fn encode_bool(b: bool) -> (r: String)
    ensures
        r@ == bool_lit(b),
{
    if b {
        String::from_str("1")
    } else {
        String::from_str("0")
    }
}

/// Append the single joined token of an optional field, if the field is set.
fn push_opt_joined(v: &mut Vec<String>, flag: &str, field: &Option<String>)
    ensures
        final(v).deep_view() == old(v).deep_view() + opt_joined(flag@, field.deep_view()),
{
    match field {
        Option::Some(s) => {
            v.push(String::from_str(flag).concat(s.as_str()));
            assert(v.deep_view() =~~= old(v).deep_view() + opt_joined(flag@, field.deep_view()));
        },
        Option::None => {
            assert(v.deep_view() =~~= old(v).deep_view() + opt_joined(flag@, field.deep_view()));
        },
    }
}

} // verus!
