//! Commits: groups of edits that stay or are rolled back together.
//!
//! KiCAD accepts an edit outside a commit and then does not apply it. So every edit is sent
//! inside a commit of its own. A commit that stays open makes every later edit of the same
//! client fail, so a commit is ended whatever happens.
use vstd::prelude::*;

use crate::client::KiCadIpcClient;
use crate::documents::{order, order_turn};
use crate::talk::{
    exchange, hear, unreadable, unreadable_error, Command, CommandModel, CommitAction, Query, Reply,
    Request, Step, Turn,
};

verus! {

/// The identifier of a commit, from the reply to its beginning.
pub open spec fn commit_in(reply: Reply) -> Option<Seq<char>> {
    match reply {
        Reply::Commit { id: Some(id) } => Some(id.value@),
        Reply::Commit { id: None } => Some(seq![]),
        Reply::Nothing => Some(seq![]),
        _ => None,
    }
}

/// Beginning a commit. The value is its identifier.
pub open spec fn begin_commit_turn(log: Seq<Reply>, at: int) -> Turn<Seq<char>> {
    exchange(Query::Send(CommandModel::BeginCommit), log, at).and_then(
        |reply: Reply, n: int|
            match commit_in(reply) {
                Some(id) => Turn::Done(Ok(id), n),
                None => Turn::Done(Err(unreadable()), n),
            },
    )
}

/// Ending a commit.
pub open spec fn end_commit_turn(
    id: Seq<char>,
    action: CommitAction,
    message: Seq<char>,
    log: Seq<Reply>,
    at: int,
) -> Turn<()> {
    order_turn(CommandModel::EndCommit { id, action, message }, log, at)
}

/// Ending a commit so that its changes stay.
pub open spec fn push_commit_turn(
    id: Seq<char>,
    description: Seq<char>,
    log: Seq<Reply>,
    at: int,
) -> Turn<()> {
    end_commit_turn(id, CommitAction::CmaCommit, description, log, at)
}

/// Ending a commit so that its changes are rolled back.
pub open spec fn drop_commit_turn(id: Seq<char>, log: Seq<Reply>, at: int) -> Turn<()> {
    end_commit_turn(id, CommitAction::CmaDrop, ""@, log, at)
}

/// Rolling a commit back after the failure `e`. Whether that works makes no difference.
pub open spec fn abandon_turn(
    id: Seq<char>,
    e: Seq<char>,
    log: Seq<Reply>,
    at: int,
) -> Turn<Reply> {
    match drop_commit_turn(id, log, at) {
        Turn::Ask(q) => Turn::Ask(q),
        Turn::Done(_, n) => Turn::Done(Err(e), n),
    }
}

/// Sending an edit inside the commit `id`, which is then ended: its changes stay if the edit
/// was accepted, and are rolled back if it was not, or if they could not be kept.
pub open spec fn edit_in_commit_turn(
    id: Seq<char>,
    command: CommandModel,
    description: Seq<char>,
    log: Seq<Reply>,
    at: int,
) -> Turn<Reply> {
    match exchange(Query::Send(command), log, at) {
        Turn::Ask(q) => Turn::Ask(q),
        Turn::Done(Err(e), n) => abandon_turn(id, e, log, n),
        Turn::Done(Ok(reply), n) => match push_commit_turn(id, description, log, n) {
            Turn::Ask(q) => Turn::Ask(q),
            Turn::Done(Err(e), n) => abandon_turn(id, e, log, n),
            Turn::Done(Ok(_), n) => Turn::Done(Ok(reply), n),
        },
    }
}

/// Sending an edit inside a commit of its own.
pub open spec fn mutate_turn(
    command: CommandModel,
    description: Seq<char>,
    log: Seq<Reply>,
    at: int,
) -> Turn<Reply> {
    begin_commit_turn(log, at).and_then(
        |id: Seq<char>, n: int| edit_in_commit_turn(id, command, description, log, n),
    )
}

impl KiCadIpcClient {
    /// Begins a commit. The value is its identifier.
    pub fn begin_commit(&self, log: &Vec<Reply>, at: usize) -> (s: Step<String>)
        requires
            at <= log@.len(),
        ensures
            s.deep_view() == begin_commit_turn(log@, at as int),
            s.within(at as int, log@),
    {
        match hear(Request::Send(Command::BeginCommit), log, at) {
            Step::Ask(q) => Step::Ask(q),
            Step::Done(Err(e), n) => Step::Done(Err(e), n),
            Step::Done(Ok(Reply::Commit { id: Some(id) }), n) => Step::Done(
                Ok(id.value.clone()),
                n,
            ),
            Step::Done(Ok(Reply::Commit { id: None }), n) => Step::Done(Ok(String::new()), n),
            Step::Done(Ok(Reply::Nothing), n) => Step::Done(Ok(String::new()), n),
            Step::Done(Ok(_), n) => Step::Done(Err(unreadable_error()), n),
        }
    }

    /// Ends a commit.
    pub fn end_commit(
        &self,
        commit_id: &str,
        action: CommitAction,
        message: &str,
        log: &Vec<Reply>,
        at: usize,
    ) -> (s: Step<()>)
        requires
            at <= log@.len(),
        ensures
            s.deep_view() == end_commit_turn(commit_id@, action, message@, log@, at as int),
            s.within(at as int, log@),
    {
        order(
            Command::EndCommit { id: commit_id.to_string(), action, message: message.to_string() },
            log,
            at,
        )
    }

    /// Ends a commit so that its changes stay.
    pub fn push_commit(
        &self,
        commit_id: &str,
        description: &str,
        log: &Vec<Reply>,
        at: usize,
    ) -> (s: Step<()>)
        requires
            at <= log@.len(),
        ensures
            s.deep_view() == push_commit_turn(commit_id@, description@, log@, at as int),
            s.within(at as int, log@),
    {
        self.end_commit(commit_id, CommitAction::CmaCommit, description, log, at)
    }

    /// Ends a commit so that its changes are rolled back.
    pub fn drop_commit(&self, commit_id: &str, log: &Vec<Reply>, at: usize) -> (s: Step<()>)
        requires
            at <= log@.len(),
        ensures
            s.deep_view() == drop_commit_turn(commit_id@, log@, at as int),
            s.within(at as int, log@),
    {
        self.end_commit(commit_id, CommitAction::CmaDrop, "", log, at)
    }

    /// Sends an edit inside a commit of its own. The value is the answer to the edit.
    pub fn send_mutating_command<'a>(
        &self,
        command: Command,
        description: &str,
        log: &'a Vec<Reply>,
        at: usize,
    ) -> (s: Step<&'a Reply>)
        requires
            at <= log@.len(),
        ensures
            s.deep_view() == mutate_turn(command.deep_view(), description@, log@, at as int),
            s.within(at as int, log@),
    {
        let (id, n) = match self.begin_commit(log, at) {
            Step::Done(Ok(id), n) => (id, n),
            Step::Done(Err(e), n) => {
                return Step::Done(Err(e), n);
            },
            Step::Ask(q) => {
                return Step::Ask(q);
            },
        };
        let (e, n) = match hear(Request::Send(command), log, n) {
            Step::Ask(q) => {
                return Step::Ask(q);
            },
            Step::Done(Err(e), n) => (e, n),
            Step::Done(Ok(reply), n) => match self.push_commit(id.as_str(), description, log, n) {
                Step::Ask(q) => {
                    return Step::Ask(q);
                },
                Step::Done(Err(e), n) => (e, n),
                Step::Done(Ok(_), n) => {
                    return Step::Done(Ok(reply), n);
                },
            },
        };
        match self.drop_commit(id.as_str(), log, n) {
            Step::Ask(q) => Step::Ask(q),
            Step::Done(_, n) => Step::Done(Err(e), n),
        }
    }
}

} // verus!
