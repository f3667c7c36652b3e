//! The client: tells the server which game runs on this machine.
use vstd::prelude::*;

use crate::protocol;
use crate::protocol::ReportData;

verus! {

/// What the client has to remember between two looks at the machine.
#[derive(Debug)]
pub struct Reporter {
    /// Names the user at the server.
    pub token: String,
    /// The application id that the server last took in, 0 for none that runs.
    pub last_reported_id: Option<u32>,
}

/// The application id that is reported, 0 where nothing runs.
pub open spec fn reported_id(running: Option<u32>) -> u32 {
    match running {
        Some(app_id) => app_id,
        None => 0,
    }
}

/// Whether there is something to report: the server has taken in nothing yet, or something else.
pub open spec fn due(last: Option<u32>, running: Option<u32>) -> bool {
    last != Some(reported_id(running))
}

/// What the client remembers after an attempt: a report that the server took in, else what it
/// remembered before.
pub open spec fn remembered(last: Option<u32>, app_id: u32, taken_in: bool) -> Option<u32> {
    if taken_in {
        Some(app_id)
    } else {
        last
    }
}

impl Reporter {
    /// A client that has reported nothing yet.
    pub fn new(token: String) -> (reporter: Reporter)
        ensures
            reporter.token@ == token@,
            reporter.last_reported_id is None,
    {
        Reporter { token, last_reported_id: None }
    }

    /// The report to send after a look at the machine, if there is one.
    pub fn next_report(&self, running: Option<u32>) -> (report: Option<ReportData>)
        ensures
            match report {
                Some(report) => due(self.last_reported_id, running) && report@ == (
                protocol::Report {
                    app_id: reported_id(running),
                    token: self.token@,
                    game_name: None,
                }),
                None => !due(self.last_reported_id, running),
            },
            report is Some <==> (match running {
                Some(app_id) => self.last_reported_id != Some(app_id),
                None => self.last_reported_id != Some(0u32),
            }),
            report matches Some(report) ==> {
                &&& report.token@ == self.token@
                &&& report.game_name is None
                &&& running matches Some(app_id) ==> report.app_id == app_id
                &&& running is None ==> report.app_id == 0
            },
    {
        let current_id: u32 = match running {
            Some(app_id) => app_id,
            None => 0,
        };
        let need_report = match self.last_reported_id {
            Some(last_id) => last_id != current_id,
            None => true,
        };
        if need_report {
            Some(ReportData { app_id: current_id, token: self.token.clone(), game_name: None })
        } else {
            None
        }
    }

    /// Takes in how an attempt to report ended: whether the server answered with success.
    pub fn after_report(&mut self, app_id: u32, taken_in: bool)
        ensures
            final(self).token == old(self).token,
            final(self).last_reported_id == remembered(
                old(self).last_reported_id,
                app_id,
                taken_in,
            ),
            taken_in ==> final(self).last_reported_id == Some(app_id),
            !taken_in ==> final(self).last_reported_id == old(self).last_reported_id,
    {
        if taken_in {
            self.last_reported_id = Some(app_id);
        }
    }
}

/// A change is reported until the server has taken it in, and then not again until the next
/// change. The first look is always reported.
pub proof fn lemma_reported_until_taken_in(
    last: Option<u32>,
    running: Option<u32>,
    running_later: Option<u32>,
)
    ensures
        due(None, running),
        due(last, running) ==> due(remembered(last, reported_id(running), false), running),
        !due(remembered(last, reported_id(running), true), running),
        due(remembered(last, reported_id(running), true), running_later) <==> reported_id(
            running_later,
        ) != reported_id(running),
{
}

/// The id that is reported is the one that runs, for every id, and 0 where none runs.
pub proof fn lemma_running_id_is_reported(app_id: u32)
    ensures
        reported_id(Some(app_id)) == app_id,
        reported_id(None) == 0,
{
}

/// There is something to report just where the server has not taken in what runs: a report is due
/// for every id but the one taken in last.
pub proof fn lemma_due_until_taken_in(last: Option<u32>, app_id: u32)
    ensures
        due(last, Some(app_id)) <==> last != Some(app_id),
        due(last, None) <==> last != Some(0u32),
{
}

/// What was taken in is remembered as it was sent, and a failed attempt is not remembered.
pub proof fn lemma_only_what_was_taken_in_is_remembered(last: Option<u32>, app_id: u32)
    ensures
        remembered(last, app_id, true) == Some(app_id),
        remembered(last, app_id, false) == last,
{
}

/// Two looks that see different applications, or one and none, are both reported, whatever was
/// taken in between them of the first, and the reports carry different ids.
pub proof fn lemma_every_change_is_reported(last: Option<u32>, first: u32, second: u32)
    requires
        first != second,
    ensures
        due(remembered(last, reported_id(Some(first)), true), Some(second)),
        reported_id(Some(first)) != reported_id(Some(second)),
        first != 0 ==> due(remembered(last, reported_id(Some(first)), true), None),
        first != 0 ==> reported_id(Some(first)) != reported_id(None),
{
}

} // verus!
