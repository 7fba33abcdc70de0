//! The typed requests the shell can issue, and their mathematical model.

use vstd::prelude::*;

verus! {

/// A request to the analytics engine, one variant per supported operation.
///
/// Dates are opaque `YYYY-MM-DD` strings; the bridge does not validate
/// calendar correctness. Optional fields mean "no filter" / "no change"
/// when absent.
#[allow(inconsistent_fields)]
pub enum Request {
    Dashboard {
        from: String,
        to: String,
        refresh: bool,
        granularity: String,
        project_id: Option<String>,
    },
    Day {
        date: String,
        project_id: Option<String>,
    },
    Model {
        model: String,
        from: String,
        to: String,
        project_id: Option<String>,
    },
    Session {
        session_id: String,
        project_id: Option<String>,
    },
    LimitResets {
        from: String,
        to: String,
    },
    PngExport {
        from: String,
        to: String,
    },
    ListProjects,
    UpdateProject {
        project_id: String,
        name: Option<String>,
        description: Option<String>,
        visible: Option<bool>,
    },
}

/// The model of a request: every text field as a sequence of characters.
#[allow(inconsistent_fields)]
pub ghost enum ReqModel {
    Dashboard {
        from: Seq<char>,
        to: Seq<char>,
        refresh: bool,
        granularity: Seq<char>,
        project_id: Option<Seq<char>>,
    },
    Day {
        date: Seq<char>,
        project_id: Option<Seq<char>>,
    },
    Model {
        model: Seq<char>,
        from: Seq<char>,
        to: Seq<char>,
        project_id: Option<Seq<char>>,
    },
    Session {
        session_id: Seq<char>,
        project_id: Option<Seq<char>>,
    },
    LimitResets {
        from: Seq<char>,
        to: Seq<char>,
    },
    PngExport {
        from: Seq<char>,
        to: Seq<char>,
    },
    ListProjects,
    UpdateProject {
        project_id: Seq<char>,
        name: Option<Seq<char>>,
        description: Option<Seq<char>>,
        visible: Option<bool>,
    },
}

impl View for Request {
    type V = ReqModel;

    open spec fn view(&self) -> ReqModel {
        match self {
            Request::Dashboard { from, to, refresh, granularity, project_id } => {
                ReqModel::Dashboard {
                    from: from@,
                    to: to@,
                    refresh: *refresh,
                    granularity: granularity@,
                    project_id: project_id.deep_view(),
                }
            },
            Request::Day { date, project_id } => {
                ReqModel::Day { date: date@, project_id: project_id.deep_view() }
            },
            Request::Model { model, from, to, project_id } => {
                ReqModel::Model {
                    model: model@,
                    from: from@,
                    to: to@,
                    project_id: project_id.deep_view(),
                }
            },
            Request::Session { session_id, project_id } => {
                ReqModel::Session {
                    session_id: session_id@,
                    project_id: project_id.deep_view(),
                }
            },
            Request::LimitResets { from, to } => {
                ReqModel::LimitResets { from: from@, to: to@ }
            },
            Request::PngExport { from, to } => {
                ReqModel::PngExport { from: from@, to: to@ }
            },
            Request::ListProjects => ReqModel::ListProjects,
            Request::UpdateProject { project_id, name, description, visible } => {
                ReqModel::UpdateProject {
                    project_id: project_id@,
                    name: name.deep_view(),
                    description: description.deep_view(),
                    visible: *visible,
                }
            },
        }
    }
}

} // verus!
