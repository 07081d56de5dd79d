//! Looking up the device's current WAN address: a login, then one query with
//! the token that the login gave. The first failure ends the lookup.

use vstd::prelude::*;

verus! {

/// Where a lookup stands.
#[derive(Debug, PartialEq, Eq)]
pub enum Stage {
    /// Waiting for the login's answer.
    LoggingIn,
    /// Waiting for the answer to the WAN status query.
    Querying,
    /// The result has been handed out.
    Finished,
}

/// What the caller reports back.
#[derive(Debug, PartialEq, Eq)]
pub enum Answer {
    /// The login's answer: the session token, or the failure's text.
    LoggedIn(Result<String, String>),
    /// The query's answer: the WAN address, or the failure's text.
    Queried(Result<String, String>),
}

/// What the caller is to do next.
#[derive(Debug, PartialEq, Eq)]
pub enum Instruction {
    /// Log in with this password, then report [`Answer::LoggedIn`].
    Login(String),
    /// Query the WAN status with this token, then report [`Answer::Queried`].
    QueryIp(String),
    /// Show this address: the lookup succeeded.
    Show(String),
    /// Fail with this text: the lookup is over.
    Fail(String),
    /// Nothing: the answer was not the one the lookup was waiting for.
    Idle,
}

/// Mathematical value of a [`Stage`].
pub ghost enum StageView {
    LoggingIn,
    Querying,
    Finished,
}

/// Mathematical value of an [`Answer`].
pub ghost enum AnswerView {
    LoggedIn(Result<Seq<char>, Seq<char>>),
    Queried(Result<Seq<char>, Seq<char>>),
}

/// Mathematical value of an [`Instruction`].
pub ghost enum InstructionView {
    Login(Seq<char>),
    QueryIp(Seq<char>),
    Show(Seq<char>),
    Fail(Seq<char>),
    Idle,
}

impl View for Stage {
    type V = StageView;

    open spec fn view(&self) -> StageView {
        match self {
            Stage::LoggingIn => StageView::LoggingIn,
            Stage::Querying => StageView::Querying,
            Stage::Finished => StageView::Finished,
        }
    }
}

impl View for Answer {
    type V = AnswerView;

    open spec fn view(&self) -> AnswerView {
        match self {
            Answer::LoggedIn(Ok(stok)) => AnswerView::LoggedIn(Ok(stok@)),
            Answer::LoggedIn(Err(e)) => AnswerView::LoggedIn(Err(e@)),
            Answer::Queried(Ok(ip)) => AnswerView::Queried(Ok(ip@)),
            Answer::Queried(Err(e)) => AnswerView::Queried(Err(e@)),
        }
    }
}

impl View for Instruction {
    type V = InstructionView;

    open spec fn view(&self) -> InstructionView {
        match self {
            Instruction::Login(password) => InstructionView::Login(password@),
            Instruction::QueryIp(stok) => InstructionView::QueryIp(stok@),
            Instruction::Show(ip) => InstructionView::Show(ip@),
            Instruction::Fail(e) => InstructionView::Fail(e@),
            Instruction::Idle => InstructionView::Idle,
        }
    }
}

/// A lookup that has just been started, and the instruction it begins with.
pub open spec fn begun(password: Seq<char>) -> (StageView, InstructionView) {
    (StageView::LoggingIn, InstructionView::Login(password))
}

/// The lookup after `answer`, and the instruction it gives.
///
/// An answer that the lookup is not waiting for changes nothing and is met
/// by [`InstructionView::Idle`]; so is every answer once the lookup is finished.
pub open spec fn after(stage: StageView, answer: AnswerView) -> (StageView, InstructionView) {
    match (stage, answer) {
        (StageView::LoggingIn, AnswerView::LoggedIn(Ok(stok))) => (
            StageView::Querying,
            InstructionView::QueryIp(stok),
        ),
        (StageView::LoggingIn, AnswerView::LoggedIn(Err(e))) => (
            StageView::Finished,
            InstructionView::Fail(e),
        ),
        (StageView::Querying, AnswerView::Queried(Ok(ip))) => (
            StageView::Finished,
            InstructionView::Show(ip),
        ),
        (StageView::Querying, AnswerView::Queried(Err(e))) => (
            StageView::Finished,
            InstructionView::Fail(e),
        ),
        _ => (stage, InstructionView::Idle),
    }
}

/// What a lookup ends with when its login and its query are answered by
/// `login` and `query`: the address, or the first failure's text.
pub open spec fn looked_up(
    login: Result<Seq<char>, Seq<char>>,
    query: Result<Seq<char>, Seq<char>>,
) -> Result<Seq<char>, Seq<char>> {
    match login {
        Err(e) => Err(e),
        Ok(_) => query,
    }
}

/// Starts a lookup that logs in with `password`.
pub fn begin(password: String) -> (r: (Stage, Instruction))
    ensures
        (r.0@, r.1@) == begun(password@),
{
    (Stage::LoggingIn, Instruction::Login(password))
}

/// Takes `answer` and returns the lookup after it with the next instruction.
pub fn advance(stage: Stage, answer: Answer) -> (r: (Stage, Instruction))
    ensures
        (r.0@, r.1@) == after(stage@, answer@),
{
    match stage {
        Stage::LoggingIn => match answer {
            Answer::LoggedIn(Ok(stok)) => (Stage::Querying, Instruction::QueryIp(stok)),
            Answer::LoggedIn(Err(e)) => (Stage::Finished, Instruction::Fail(e)),
            _ => (Stage::LoggingIn, Instruction::Idle),
        },
        Stage::Querying => match answer {
            Answer::Queried(Ok(ip)) => (Stage::Finished, Instruction::Show(ip)),
            Answer::Queried(Err(e)) => (Stage::Finished, Instruction::Fail(e)),
            _ => (Stage::Querying, Instruction::Idle),
        },
        Stage::Finished => (Stage::Finished, Instruction::Idle),
    }
}

/// A lookup queries with the token that the login gave and ends with what
/// [`looked_up`] says; a failed login ends it before any query.
pub proof fn lemma_lookup_result(
    password: Seq<char>,
    login: Result<Seq<char>, Seq<char>>,
    query: Result<Seq<char>, Seq<char>>,
)
    ensures
        ({
            let s1 = after(begun(password).0, AnswerView::LoggedIn(login));
            let s2 = after(s1.0, AnswerView::Queried(query));
            match login {
                Err(e) => s1 == (StageView::Finished, InstructionView::Fail(e)) && s2 == (
                    StageView::Finished,
                    InstructionView::Idle,
                ),
                Ok(stok) => {
                    &&& s1 == (StageView::Querying, InstructionView::QueryIp(stok))
                    &&& s2.0 == StageView::Finished
                    &&& s2.1 == match looked_up(login, query) {
                        Ok(ip) => InstructionView::Show(ip),
                        Err(e) => InstructionView::Fail(e),
                    }
                },
            }
        }),
{
}

} // verus!
