//! The decoding side of the argument protocol, stated at the specification
//! level: from a token sequence back to the request it encodes. The engine
//! performs the real decoding; these definitions exist so the crate can prove
//! that the encoding of every request is unambiguous.

use vstd::prelude::*;

use crate::encode::{bool_lit, opt_joined, opt_joined_bool, spec_encode};
use crate::request::ReqModel;

verus! {

/// The value carried by a joined token `p` + value, or `None` when the token
/// does not begin with `p`.
pub open spec fn strip_prefix(t: Seq<char>, p: Seq<char>) -> Option<Seq<char>> {
    if p.is_prefix_of(t) {
        Option::Some(t.skip(p.len() as int))
    } else {
        Option::None
    }
}

/// The boolean a command-line value token denotes.
pub open spec fn parse_bool(t: Seq<char>) -> Option<bool> {
    if t == "1"@ {
        Option::Some(true)
    } else if t == "0"@ {
        Option::Some(false)
    } else {
        Option::None
    }
}

/// The trailing optional project filter: the argument list holds exactly
/// `base` tokens, or one more, a joined `--project-id=` token.
pub open spec fn decode_trailing_project(argv: Seq<Seq<char>>, base: int) -> Option<
    Option<Seq<char>>,
> {
    if argv.len() == base {
        Option::Some(Option::None)
    } else if argv.len() == base + 1 {
        match strip_prefix(argv[base], "--project-id="@) {
            Option::Some(pid) => Option::Some(Option::Some(pid)),
            Option::None => Option::None,
        }
    } else {
        Option::None
    }
}

/// Consume one optional joined token with prefix `p` from the front of the
/// remaining tokens, returning the value (if the first token matches) and
/// what is left.
pub open spec fn take_joined(rest: Seq<Seq<char>>, p: Seq<char>) -> (Option<Seq<char>>, Seq<
    Seq<char>,
>) {
    if rest.len() > 0 && strip_prefix(rest[0], p) is Some {
        (strip_prefix(rest[0], p), rest.skip(1))
    } else {
        (Option::None, rest)
    }
}

pub open spec fn decode_dashboard(argv: Seq<Seq<char>>) -> Option<ReqModel> {
    if argv.len() < 9 {
        Option::None
    } else if !(argv[1] == "--from"@ && argv[3] == "--to"@ && argv[5] == "--refresh"@ && argv[7]
        == "--granularity"@) {
        Option::None
    } else {
        match parse_bool(argv[6]) {
            Option::None => Option::None,
            Option::Some(refresh) => match decode_trailing_project(argv, 9) {
                Option::None => Option::None,
                Option::Some(project_id) => Option::Some(
                    ReqModel::Dashboard {
                        from: argv[2],
                        to: argv[4],
                        refresh,
                        granularity: argv[8],
                        project_id,
                    },
                ),
            },
        }
    }
}

pub open spec fn decode_day(argv: Seq<Seq<char>>) -> Option<ReqModel> {
    if argv.len() < 3 || argv[1] != "--date"@ {
        Option::None
    } else {
        match decode_trailing_project(argv, 3) {
            Option::None => Option::None,
            Option::Some(project_id) => Option::Some(
                ReqModel::Day { date: argv[2], project_id },
            ),
        }
    }
}

pub open spec fn decode_model(argv: Seq<Seq<char>>) -> Option<ReqModel> {
    if argv.len() < 7 {
        Option::None
    } else if !(argv[1] == "--model"@ && argv[3] == "--from"@ && argv[5] == "--to"@) {
        Option::None
    } else {
        match decode_trailing_project(argv, 7) {
            Option::None => Option::None,
            Option::Some(project_id) => Option::Some(
                ReqModel::Model { model: argv[2], from: argv[4], to: argv[6], project_id },
            ),
        }
    }
}

pub open spec fn decode_session(argv: Seq<Seq<char>>) -> Option<ReqModel> {
    if argv.len() < 3 || argv[1] != "--id"@ {
        Option::None
    } else {
        match decode_trailing_project(argv, 3) {
            Option::None => Option::None,
            Option::Some(project_id) => Option::Some(
                ReqModel::Session { session_id: argv[2], project_id },
            ),
        }
    }
}

pub open spec fn decode_range_only(argv: Seq<Seq<char>>) -> Option<(Seq<char>, Seq<char>)> {
    if argv.len() == 5 && argv[1] == "--from"@ && argv[3] == "--to"@ {
        Option::Some((argv[2], argv[4]))
    } else {
        Option::None
    }
}

pub open spec fn decode_update_opts(rest: Seq<Seq<char>>, pid: Seq<char>) -> Option<ReqModel> {
    let tn = take_joined(rest, "--name="@);
    let td = take_joined(tn.1, "--description="@);
    let tv = take_joined(td.1, "--visible="@);
    if tv.1.len() != 0 {
        Option::None
    } else {
        match tv.0 {
            Option::None => Option::Some(
                ReqModel::UpdateProject {
                    project_id: pid,
                    name: tn.0,
                    description: td.0,
                    visible: Option::None,
                },
            ),
            Option::Some(t) => match parse_bool(t) {
                Option::Some(b) => Option::Some(
                    ReqModel::UpdateProject {
                        project_id: pid,
                        name: tn.0,
                        description: td.0,
                        visible: Option::Some(b),
                    },
                ),
                Option::None => Option::None,
            },
        }
    }
}

pub open spec fn decode_update_project(argv: Seq<Seq<char>>) -> Option<ReqModel> {
    if argv.len() < 2 {
        Option::None
    } else {
        match strip_prefix(argv[1], "--project-id="@) {
            Option::None => Option::None,
            Option::Some(pid) => decode_update_opts(argv.skip(2), pid),
        }
    }
}

/// The request a token sequence encodes, if any: the command keyword selects
/// the operation, the rest of the tokens are read back against that
/// operation's fixed field order.
pub open spec fn spec_decode(argv: Seq<Seq<char>>) -> Option<ReqModel> {
    if argv.len() == 0 {
        Option::None
    } else if argv[0] == "dashboard"@ {
        decode_dashboard(argv)
    } else if argv[0] == "day"@ {
        decode_day(argv)
    } else if argv[0] == "model"@ {
        decode_model(argv)
    } else if argv[0] == "session"@ {
        decode_session(argv)
    } else if argv[0] == "limit-resets"@ {
        match decode_range_only(argv) {
            Option::Some(r) => Option::Some(ReqModel::LimitResets { from: r.0, to: r.1 }),
            Option::None => Option::None,
        }
    } else if argv[0] == "png-export"@ {
        match decode_range_only(argv) {
            Option::Some(r) => Option::Some(ReqModel::PngExport { from: r.0, to: r.1 }),
            Option::None => Option::None,
        }
    } else if argv[0] == "list-projects"@ {
        if argv.len() == 1 {
            Option::Some(ReqModel::ListProjects)
        } else {
            Option::None
        }
    } else if argv[0] == "update-project"@ {
        decode_update_project(argv)
    } else {
        Option::None
    }
}

proof fn lemma_strip_prefix_concat(p: Seq<char>, s: Seq<char>)
    ensures
        strip_prefix(p + s, p) == Option::Some(s),
{
    assert(p =~= (p + s).subrange(0, p.len() as int));
    assert((p + s).skip(p.len() as int) =~= s);
}

proof fn lemma_not_prefix_at(p: Seq<char>, t: Seq<char>, i: int)
    requires
        0 <= i < p.len(),
        i < t.len(),
        p[i] != t[i],
    ensures
        !p.is_prefix_of(t),
{
    if p.is_prefix_of(t) {
        assert(p[i] == t.subrange(0, p.len() as int)[i]);
    }
}

proof fn lemma_parse_bool_round(b: bool)
    ensures
        parse_bool(bool_lit(b)) == Option::Some(b),
{
    reveal_strlit("1");
    reveal_strlit("0");
    if !b {
        assert(bool_lit(b)[0] == '0');
        assert("1"@[0] == '1');
        assert(bool_lit(b) != "1"@);
    }
}

proof fn lemma_take_joined_present(p: Seq<char>, s: Seq<char>, rest: Seq<Seq<char>>)
    ensures
        take_joined(seq![p + s] + rest, p) == (Option::Some(s), rest),
{
    lemma_strip_prefix_concat(p, s);
    assert((seq![p + s] + rest)[0] == p + s);
    assert((seq![p + s] + rest).skip(1) =~~= rest);
}

proof fn lemma_take_joined_absent(rest: Seq<Seq<char>>, p: Seq<char>)
    requires
        rest.len() > 0 ==> strip_prefix(rest[0], p) is None,
    ensures
        take_joined(rest, p) == (Option::<Seq<char>>::None, rest),
{
}

proof fn lemma_decode_update_opts(
    pid: Seq<char>,
    name: Option<Seq<char>>,
    description: Option<Seq<char>>,
    visible: Option<bool>,
)
    ensures
        decode_update_opts(
            opt_joined("--name="@, name) + opt_joined("--description="@, description)
                + opt_joined_bool("--visible="@, visible),
            pid,
        ) == Option::Some(
            ReqModel::UpdateProject { project_id: pid, name, description, visible },
        ),
{
    reveal_strlit("--name=");
    reveal_strlit("--description=");
    reveal_strlit("--visible=");
    let rest2 = opt_joined_bool("--visible="@, visible);
    let rest1 = opt_joined("--description="@, description) + rest2;
    let rest0 = opt_joined("--name="@, name) + opt_joined("--description="@, description)
        + opt_joined_bool("--visible="@, visible);
    match name {
        Option::Some(n) => {
            assert(rest0 =~~= seq!["--name="@ + n] + rest1);
            lemma_take_joined_present("--name="@, n, rest1);
        },
        Option::None => {
            assert(rest0 =~~= rest1);
            if rest1.len() > 0 {
                match description {
                    Option::Some(d) => {
                        assert(rest1[0] == "--description="@ + d);
                        assert(rest1[0][2] == 'd');
                        lemma_not_prefix_at("--name="@, rest1[0], 2);
                    },
                    Option::None => {
                        let b = visible->0;
                        assert(rest1[0] == "--visible="@ + bool_lit(b));
                        assert(rest1[0][2] == 'v');
                        lemma_not_prefix_at("--name="@, rest1[0], 2);
                    },
                }
            }
            lemma_take_joined_absent(rest0, "--name="@);
        },
    }
    assert(take_joined(rest0, "--name="@) == (name, rest1));
    match description {
        Option::Some(d) => {
            assert(rest1 =~~= seq!["--description="@ + d] + rest2);
            lemma_take_joined_present("--description="@, d, rest2);
        },
        Option::None => {
            assert(rest1 =~~= rest2);
            if rest2.len() > 0 {
                let b = visible->0;
                assert(rest2[0] == "--visible="@ + bool_lit(b));
                assert(rest2[0][2] == 'v');
                lemma_not_prefix_at("--description="@, rest2[0], 2);
            }
            lemma_take_joined_absent(rest1, "--description="@);
        },
    }
    assert(take_joined(rest1, "--description="@) == (description, rest2));
    match visible {
        Option::Some(b) => {
            assert(rest2 =~~= seq!["--visible="@ + bool_lit(b)] + Seq::<Seq<char>>::empty());
            lemma_take_joined_present("--visible="@, bool_lit(b), Seq::empty());
            assert(take_joined(rest2, "--visible="@) == (
                Option::Some(bool_lit(b)),
                Seq::<Seq<char>>::empty(),
            ));
            lemma_parse_bool_round(b);
        },
        Option::None => {
            lemma_take_joined_absent(rest2, "--visible="@);
        },
    }
}

/// Law: decoding the encoding of a request recovers the request exactly —
/// the keyword selects the operation, required fields return positionally,
/// optional fields return from their joined tokens, and fields that were
/// absent decode as absent.
pub proof fn lemma_encode_decode(m: ReqModel)
    ensures
        spec_decode(spec_encode(m)) == Option::Some(m),
{
    reveal_strlit("dashboard");
    reveal_strlit("day");
    reveal_strlit("model");
    reveal_strlit("session");
    reveal_strlit("limit-resets");
    reveal_strlit("png-export");
    reveal_strlit("list-projects");
    reveal_strlit("update-project");
    reveal_strlit("--from");
    reveal_strlit("--to");
    reveal_strlit("--refresh");
    reveal_strlit("--granularity");
    reveal_strlit("--date");
    reveal_strlit("--model");
    reveal_strlit("--id");
    reveal_strlit("--project-id=");
    reveal_strlit("--name=");
    reveal_strlit("--description=");
    reveal_strlit("--visible=");
    reveal_strlit("1");
    reveal_strlit("0");
    let argv = spec_encode(m);
    match m {
        ReqModel::Dashboard { from, to, refresh, granularity, project_id } => {
            assert(argv[0] == "dashboard"@);
            lemma_parse_bool_round(refresh);
            match project_id {
                Option::Some(p) => {
                    assert(argv.len() == 10);
                    assert(argv[9] == "--project-id="@ + p);
                    lemma_strip_prefix_concat("--project-id="@, p);
                },
                Option::None => {
                    assert(argv.len() == 9);
                },
            }
        },
        ReqModel::Day { date, project_id } => {
            assert(argv[0] == "day"@);
            match project_id {
                Option::Some(p) => {
                    assert(argv.len() == 4);
                    assert(argv[3] == "--project-id="@ + p);
                    lemma_strip_prefix_concat("--project-id="@, p);
                },
                Option::None => {
                    assert(argv.len() == 3);
                },
            }
        },
        ReqModel::Model { model, from, to, project_id } => {
            assert(argv[0] == "model"@);
            match project_id {
                Option::Some(p) => {
                    assert(argv.len() == 8);
                    assert(argv[7] == "--project-id="@ + p);
                    lemma_strip_prefix_concat("--project-id="@, p);
                },
                Option::None => {
                    assert(argv.len() == 7);
                },
            }
        },
        ReqModel::Session { session_id, project_id } => {
            assert(argv[0] == "session"@);
            match project_id {
                Option::Some(p) => {
                    assert(argv.len() == 4);
                    assert(argv[3] == "--project-id="@ + p);
                    lemma_strip_prefix_concat("--project-id="@, p);
                },
                Option::None => {
                    assert(argv.len() == 3);
                },
            }
        },
        ReqModel::LimitResets { from, to } => {
            assert(argv[0] == "limit-resets"@);
            assert(argv.len() == 5);
        },
        ReqModel::PngExport { from, to } => {
            assert(argv[0] == "png-export"@);
            assert(argv.len() == 5);
        },
        ReqModel::ListProjects => {
            assert(argv[0] == "list-projects"@);
            assert(argv.len() == 1);
        },
        ReqModel::UpdateProject { project_id, name, description, visible } => {
            assert(argv[0] == "update-project"@);
            assert(argv[1] == "--project-id="@ + project_id);
            lemma_strip_prefix_concat("--project-id="@, project_id);
            assert(argv.skip(2) =~~= opt_joined("--name="@, name) + opt_joined(
                "--description="@,
                description,
            ) + opt_joined_bool("--visible="@, visible));
            lemma_decode_update_opts(project_id, name, description, visible);
        },
    }
}

/// Law: a project identifier that itself begins with `-` still round-trips,
/// because the encoder always emits it as a single joined `--project-id=`
/// token, never split across two tokens.
pub proof fn lemma_hyphen_project_id_round_trips(m: ReqModel, pid: Seq<char>)
    requires
        pid.len() > 0,
        pid[0] == '-',
        m is UpdateProject && m->UpdateProject_project_id == pid || (m matches ReqModel::Dashboard {
            project_id,
            ..
        } && project_id == Option::Some(pid)),
    ensures
        spec_decode(spec_encode(m)) == Option::Some(m),
        m is UpdateProject ==> spec_encode(m)[1] == "--project-id="@ + pid,
        m is Dashboard ==> spec_encode(m)[9] == "--project-id="@ + pid,
{
    lemma_encode_decode(m);
}

} // verus!

