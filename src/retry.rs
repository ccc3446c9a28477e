use vstd::prelude::*;

use crate::text::{decimal_of, to_decimal};

verus! {

/// The number of generate-and-run attempts made for one instruction before
/// giving up.
pub const MAX_ATTEMPTS: u32 = 4;

/// Why one attempt produced no result.
#[derive(Debug)]
pub enum AttemptError {
    /// The completion service could not be reached.
    Network(String),
    /// The completion service answered with an error.
    Api(String),
    /// The completion service answered without usable script text.
    MalformedResponse,
    /// The interpreter failed to parse or run the script, or its value was
    /// not a string.
    Execution(String),
}

pub open spec fn network_prefix() -> Seq<char> {
    seq!['n', 'e', 't', 'w', 'o', 'r', 'k', ' ', 'e', 'r', 'r', 'o', 'r', ':', ' ']
}

pub open spec fn api_prefix() -> Seq<char> {
    seq!['A', 'P', 'I', ' ', 'e', 'r', 'r', 'o', 'r', ':', ' ']
}

pub open spec fn malformed_text() -> Seq<char> {
    seq![
        'n', 'o', ' ', 's', 'c', 'r', 'i', 'p', 't', ' ', 't', 'e', 'x', 't', ' ', 'i', 'n', ' ',
        't', 'h', 'e', ' ', 'c', 'o', 'm', 'p', 'l', 'e', 't', 'i', 'o', 'n',
    ]
}

pub open spec fn execution_prefix() -> Seq<char> {
    seq!['s', 'c', 'r', 'i', 'p', 't', ' ', 'e', 'r', 'r', 'o', 'r', ':', ' ']
}

/// The text that tells a person what went wrong.
pub open spec fn describe_of(e: AttemptError) -> Seq<char> {
    match e {
        AttemptError::Network(m) => network_prefix() + m@,
        AttemptError::Api(m) => api_prefix() + m@,
        AttemptError::MalformedResponse => malformed_text(),
        AttemptError::Execution(m) => execution_prefix() + m@,
    }
}

impl AttemptError {
    /// Describes the failure in words.
    pub fn describe(&self) -> (r: String)
        ensures
            r@ == describe_of(*self),
    {
        proof {
            reveal_strlit("network error: ");
            reveal_strlit("API error: ");
            reveal_strlit("no script text in the completion");
            reveal_strlit("script error: ");
        }
        match self {
            AttemptError::Network(m) => {
                let mut s = String::from_str("network error: ");
                s.append(m.as_str());
                s
            },
            AttemptError::Api(m) => {
                let mut s = String::from_str("API error: ");
                s.append(m.as_str());
                s
            },
            AttemptError::MalformedResponse => String::from_str("no script text in the completion"),
            AttemptError::Execution(m) => {
                let mut s = String::from_str("script error: ");
                s.append(m.as_str());
                s
            },
        }
    }
}

/// What one attempt came to, as the controller sees it: the script's value,
/// or the description of the failure.
pub type OutcomeModel = Result<Seq<char>, Seq<char>>;

pub open spec fn outcome_of(o: Result<String, AttemptError>) -> OutcomeModel {
    match o {
        Ok(r) => Ok(r@),
        Err(e) => Err(describe_of(e)),
    }
}

pub open spec fn fatal_prefix() -> Seq<char> {
    seq![
        'F', 'a', 't', 'a', 'l', ' ', 'e', 'r', 'r', 'o', 'r', ' ', 'g', 'e', 'n', 'e', 'r', 'a',
        't', 'i', 'n', 'g', ' ', 'L', 'u', 'a', ':', ' ',
    ]
}

/// The message reported when every attempt has failed, the last one with
/// `last_error`.
pub open spec fn fatal_message(last_error: Seq<char>) -> Seq<char> {
    fatal_prefix() + last_error
}

/// The controller's state in the abstract.
pub enum ControllerModel {
    /// Attempt `n` is due.
    Attempting(nat),
    /// Attempt `attempts` produced `result`.
    Succeeded(Seq<char>, nat),
    /// Attempt `attempts`, the last one allowed, failed.
    Failed(Seq<char>, nat),
}

/// The state after the outcome `o` of the attempt that `s` asked for.
/// A terminal state stays as it is.
pub open spec fn next_state(max_attempts: nat, s: ControllerModel, o: OutcomeModel) -> ControllerModel {
    match s {
        ControllerModel::Attempting(n) => match o {
            Ok(r) => ControllerModel::Succeeded(r, n),
            Err(e) => if n < max_attempts {
                ControllerModel::Attempting(n + 1)
            } else {
                ControllerModel::Failed(fatal_message(e), n)
            },
        },
        _ => s,
    }
}

/// The state reached from the first attempt through `outcomes`, in order.
pub open spec fn run(max_attempts: nat, outcomes: Seq<OutcomeModel>) -> ControllerModel
    decreases outcomes.len(),
{
    if outcomes.len() == 0 {
        ControllerModel::Attempting(1)
    } else {
        next_state(max_attempts, run(max_attempts, outcomes.drop_last()), outcomes.last())
    }
}

/// After the first `j` of a row of failures, with `j` under the ceiling,
/// attempt `j + 1` is due.
proof fn lemma_failure_prefix(max_attempts: nat, failures: Seq<OutcomeModel>, j: nat)
    requires
        j <= failures.len(),
        j < max_attempts,
        forall|i: int| 0 <= i < failures.len() ==> failures[i] is Err,
    ensures
        run(max_attempts, failures.take(j as int)) == ControllerModel::Attempting(j + 1),
    decreases j,
{
    if j > 0 {
        lemma_failure_prefix(max_attempts, failures, (j - 1) as nat);
        assert(failures.take(j as int).drop_last() =~= failures.take(j - 1));
    }
}

/// Each failure short of the ceiling makes exactly one more attempt due,
/// and a success after fewer failures than the ceiling ends the run in
/// success, with one attempt more than there were failures.
pub proof fn lemma_retry_until_success(
    max_attempts: nat,
    failures: Seq<OutcomeModel>,
    result: Seq<char>,
)
    requires
        failures.len() < max_attempts,
        forall|i: int| 0 <= i < failures.len() ==> failures[i] is Err,
    ensures
        forall|j: int|
            0 <= j <= failures.len() ==> run(max_attempts, #[trigger] failures.take(j))
                == ControllerModel::Attempting((j + 1) as nat),
        run(max_attempts, failures.push(Ok(result))) == ControllerModel::Succeeded(
            result,
            failures.len() + 1,
        ),
{
    assert forall|j: int| 0 <= j <= failures.len() implies run(
        max_attempts,
        #[trigger] failures.take(j),
    ) == ControllerModel::Attempting((j + 1) as nat) by {
        lemma_failure_prefix(max_attempts, failures, j as nat);
    }
    lemma_failure_prefix(max_attempts, failures, failures.len());
    assert(failures.push(Ok(result)).drop_last() =~= failures.take(failures.len() as int));
}

/// As many failures in a row as the ceiling allows end the run in failure:
/// the message is the fatal one built from the last error, and the attempt
/// count is the ceiling.
pub proof fn lemma_exhausted_attempts(max_attempts: nat, failures: Seq<OutcomeModel>)
    requires
        max_attempts >= 1,
        failures.len() == max_attempts,
        forall|i: int| 0 <= i < failures.len() ==> failures[i] is Err,
    ensures
        run(max_attempts, failures) == ControllerModel::Failed(
            fatal_message(failures.last()->Err_0),
            max_attempts,
        ),
{
    lemma_failure_prefix(max_attempts, failures, (max_attempts - 1) as nat);
    assert(failures.drop_last() =~= failures.take(max_attempts - 1));
}

/// The state of one run of generate-and-execute attempts.
#[derive(Debug)]
pub enum ControllerState {
    Attempting(u32),
    Succeeded { result: String, attempts: u32 },
    Failed { message: String, attempts: u32 },
}

impl View for ControllerState {
    type V = ControllerModel;

    open spec fn view(&self) -> ControllerModel {
        match self {
            ControllerState::Attempting(n) => ControllerModel::Attempting(*n as nat),
            ControllerState::Succeeded { result, attempts } => ControllerModel::Succeeded(
                result@,
                *attempts as nat,
            ),
            ControllerState::Failed { message, attempts } => ControllerModel::Failed(
                message@,
                *attempts as nat,
            ),
        }
    }
}

/// What is sent back to the controller once an instruction is done: the
/// result, or the fatal message, and the number of attempts used, in decimal.
#[derive(Debug)]
pub struct ReportPayload {
    pub message: String,
    pub attempts: String,
}

/// Drives attempts for one instruction: each failure asks for a fresh
/// script until the ceiling is reached.
#[derive(Debug)]
pub struct RetryController {
    max_attempts: u32,
    state: ControllerState,
}

impl RetryController {
    pub closed spec fn max_attempts_spec(&self) -> nat {
        self.max_attempts as nat
    }

    pub closed spec fn state_spec(&self) -> ControllerModel {
        self.state@
    }

    /// The attempt number stays between one and the ceiling.
    pub closed spec fn wf(&self) -> bool {
        &&& 1 <= self.max_attempts
        &&& match self.state@ {
            ControllerModel::Attempting(n) => 1 <= n <= self.max_attempts,
            ControllerModel::Succeeded(_, n) => 1 <= n <= self.max_attempts,
            ControllerModel::Failed(_, n) => n == self.max_attempts,
        }
    }

    /// A controller whose first attempt is due.
    pub fn new(max_attempts: u32) -> (r: Self)
        requires
            max_attempts >= 1,
        ensures
            r.wf(),
            r.max_attempts_spec() == max_attempts,
            r.state_spec() == run(max_attempts as nat, Seq::empty()),
    {
        RetryController { max_attempts, state: ControllerState::Attempting(1) }
    }

    /// The number of the attempt that is due, or `None` once the run is over.
    pub fn pending_attempt(&self) -> (r: Option<u32>)
        ensures
            r == (match self.state_spec() {
                ControllerModel::Attempting(n) => Some(n as u32),
                _ => None,
            }),
            r is Some ==> self.state_spec() == ControllerModel::Attempting(r->0 as nat),
    {
        match &self.state {
            ControllerState::Attempting(n) => Some(*n),
            _ => None,
        }
    }

    /// Takes in the outcome of the attempt that was due.
    pub fn record(&mut self, outcome: Result<String, AttemptError>)
        requires
            old(self).wf(),
        ensures
            final(self).wf(),
            final(self).max_attempts_spec() == old(self).max_attempts_spec(),
            final(self).state_spec() == next_state(
                old(self).max_attempts_spec(),
                old(self).state_spec(),
                outcome_of(outcome),
            ),
    {
        match &self.state {
            ControllerState::Attempting(n) => {
                let n = *n;
                match outcome {
                    Ok(result) => {
                        self.state = ControllerState::Succeeded { result, attempts: n };
                    },
                    Err(e) => {
                        if n < self.max_attempts {
                            self.state = ControllerState::Attempting(n + 1);
                        } else {
                            proof {
                                reveal_strlit("Fatal error generating Lua: ");
                            }
                            let mut message = String::from_str("Fatal error generating Lua: ");
                            let description = e.describe();
                            message.append(description.as_str());
                            assert(message@ =~= fatal_message(describe_of(e)));
                            self.state = ControllerState::Failed { message, attempts: n };
                        }
                    },
                }
            },
            _ => {},
        }
    }

    /// The report for a finished run, or `None` while an attempt is due.
    pub fn report(&self) -> (r: Option<ReportPayload>)
        ensures
            match self.state_spec() {
                ControllerModel::Attempting(_) => r is None,
                ControllerModel::Succeeded(result, n) => r is Some && r->0.message@ == result
                    && r->0.attempts@ == decimal_of(n),
                ControllerModel::Failed(message, n) => r is Some && r->0.message@ == message
                    && r->0.attempts@ == decimal_of(n),
            },
    {
        match &self.state {
            ControllerState::Attempting(_) => None,
            ControllerState::Succeeded { result, attempts } => Some(
                ReportPayload { message: result.clone(), attempts: to_decimal(*attempts) },
            ),
            ControllerState::Failed { message, attempts } => Some(
                ReportPayload { message: message.clone(), attempts: to_decimal(*attempts) },
            ),
        }
    }
}

} // verus!
