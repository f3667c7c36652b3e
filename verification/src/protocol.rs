//! What the clients send to the server and what the server answers.
use vstd::prelude::*;

verus! {

/// One report of a client: which game its user is running.
#[derive(Debug, Clone)]
pub struct ReportData {
    /// The Steam application id, 0 where nothing runs.
    pub app_id: u32,
    /// Names the user whose display the report is for.
    pub token: String,
    /// The game's name, where the client knows better than the store.
    pub game_name: Option<String>,
}

/// The answer to a display that asks what its user is playing.
#[derive(Debug, Clone)]
pub struct CurrentGameResponse {
    pub server: ServerInfo,
    pub info: GameInfo,
    /// The markup to show, empty where nothing is shown.
    pub render: String,
}

/// Which run of the server answers.
#[derive(Debug, Clone)]
pub struct ServerInfo {
    pub boot_id: String,
}

/// Whether a game runs, and which session of it.
#[derive(Debug, Clone)]
pub struct GameInfo {
    pub is_running: bool,
    /// Names the session. A display compares it with the last one and does not read it.
    pub signature: String,
}

/// A report as a mathematical value.
pub struct Report {
    pub app_id: u32,
    pub token: Seq<char>,
    pub game_name: Option<Seq<char>>,
}

/// An answer as a mathematical value.
pub struct Answer {
    pub boot_id: Seq<char>,
    pub is_running: bool,
    pub signature: Seq<char>,
    pub render: Seq<char>,
}

/// The text of an optional string.
pub open spec fn text_in(value: Option<String>) -> Option<Seq<char>> {
    match value {
        Some(text) => Some(text@),
        None => None,
    }
}

impl View for ReportData {
    type V = Report;

    open spec fn view(&self) -> Report {
        Report { app_id: self.app_id, token: self.token@, game_name: text_in(self.game_name) }
    }
}

impl View for CurrentGameResponse {
    type V = Answer;

    open spec fn view(&self) -> Answer {
        Answer {
            boot_id: self.server.boot_id@,
            is_running: self.info.is_running,
            signature: self.info.signature@,
            render: self.render@,
        }
    }
}

impl Default for ReportData {
    /// The report that stands for every field a client leaves out: nothing runs, no token, no
    /// name.
    fn default() -> (report: ReportData)
        ensures
            report@ == (Report { app_id: 0, token: Seq::empty(), game_name: None }),
            report.app_id == 0 && report.token@.len() == 0 && report.game_name is None,
    {
        ReportData { app_id: 0, token: String::new(), game_name: None }
    }
}

/// The value of a report is its id, its token and its name, each in full.
pub proof fn lemma_report_value(report: ReportData)
    ensures
        report@.app_id == report.app_id,
        report@.token == report.token@,
        report.game_name is None ==> report@.game_name is None,
        report.game_name matches Some(name) ==> report@.game_name == Some(name@),
{
}

/// The value of an answer is all that is in it, each in full.
pub proof fn lemma_answer_value(response: CurrentGameResponse)
    ensures
        response@.boot_id == response.server.boot_id@,
        response@.is_running == response.info.is_running,
        response@.signature == response.info.signature@,
        response@.render == response.render@,
{
}

/// The text of an optional string is there just where the string is, and is its text in full.
pub proof fn lemma_text_in(value: Option<String>)
    ensures
        value is None <==> text_in(value) is None,
        value matches Some(text) ==> text_in(value) == Some(text@),
{
}

} // verus!
