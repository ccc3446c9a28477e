use vstd::prelude::*;

verus! {

/// The route, under the controller's base address, that hands out the next
/// instruction.
pub const INSTRUCTION_ROUTE: &'static str = "get_message";

/// The route, under the controller's base address, that takes a report.
pub const REPLY_ROUTE: &'static str = "reply";

/// The status with which the controller says it has no instruction.
pub const NOT_FOUND: u16 = 404;

/// The seconds between two polls are drawn from these.
pub open spec fn jitter_seconds() -> Seq<u64> {
    seq![1, 3, 5, 2, 9, 4, 8]
}

/// The candidate pauses between two polls, in seconds.
pub fn jitter_candidates() -> (r: Vec<u64>)
    ensures
        r@ == jitter_seconds(),
{
    let r: Vec<u64> = vec![1, 3, 5, 2, 9, 4, 8];
    assert(r@ =~= jitter_seconds());
    r
}

/// Relies on rand's `IndexedRandom::choose` over the thread-local generator:
/// `None` for an empty slice, else one of its elements.
#[verifier::external_body]
fn choose_one(candidates: &Vec<u64>) -> (r: Option<u64>)
    ensures
        r is Some <==> candidates@.len() > 0,
        r is Some ==> candidates@.contains(r->0),
{
    rand::seq::IndexedRandom::choose(candidates.as_slice(), &mut rand::rng()).copied()
}

/// Draws the pause before the next poll, so that polls come at no fixed
/// rhythm.
pub fn next_sleep_seconds() -> (r: u64)
    ensures
        jitter_seconds().contains(r),
{
    let candidates = jitter_candidates();
    match choose_one(&candidates) {
        Some(seconds) => seconds,
        None => 1,
    }
}

/// Why the controller's answer held no instruction.
#[derive(Debug, Clone, Copy, PartialEq, Eq, Structural)]
pub enum FetchError {
    /// The body was not a message.
    MalformedBody,
}

/// Reads the controller's answer to a poll, given its status and the
/// `message` field of its body when the body held one: not-found means that
/// there is no instruction, which is the empty one.
pub fn instruction_from_response(status: u16, message: Option<String>) -> (r: Result<
    String,
    FetchError,
>)
    ensures
        status == NOT_FOUND ==> r is Ok && r->Ok_0@.len() == 0,
        status != NOT_FOUND ==> (r is Ok <==> message is Some),
        status != NOT_FOUND && r is Ok ==> r->Ok_0@ == message->0@,
        r is Err ==> r->Err_0 == FetchError::MalformedBody,
{
    if status == NOT_FOUND {
        Ok(String::new())
    } else {
        match message {
            Some(m) => Ok(m),
            None => Err(FetchError::MalformedBody),
        }
    }
}

/// Whether a poll that brought `instruction` leads to work, after
/// `previous` was the last instruction taken: it must be neither empty nor
/// the same text again.
pub open spec fn accepts(previous: Seq<char>, instruction: Seq<char>) -> bool {
    instruction.len() > 0 && instruction != previous
}

/// The last instruction taken, once a poll has brought `instruction`.
pub open spec fn previous_after(previous: Seq<char>, instruction: Seq<char>) -> Seq<char> {
    if accepts(previous, instruction) {
        instruction
    } else {
        previous
    }
}

/// The instructions taken up, in order, over a row of polls that start with
/// `previous` as the last instruction taken.
pub open spec fn accepted(previous: Seq<char>, polls: Seq<Seq<char>>) -> Seq<Seq<char>>
    decreases polls.len(),
{
    if polls.len() == 0 {
        Seq::empty()
    } else {
        let taken: Seq<Seq<char>> = if accepts(previous, polls[0]) {
            seq![polls[0]]
        } else {
            Seq::empty()
        };
        taken + accepted(previous_after(previous, polls[0]), polls.drop_first())
    }
}

/// What to do with the instruction a poll brought.
#[derive(Debug, Clone, Copy, PartialEq, Eq, Structural)]
pub enum PollDecision {
    /// Nothing new: wait for the next poll.
    Skip,
    /// A new instruction: generate, run and report.
    Process,
}

/// The memory of the polling loop: the last instruction taken up.
#[derive(Debug)]
pub struct Scheduler {
    previous: String,
}

impl Scheduler {
    pub closed spec fn previous_spec(&self) -> Seq<char> {
        self.previous@
    }

    /// A loop that has taken up no instruction yet.
    pub fn new() -> (r: Self)
        ensures
            r.previous_spec().len() == 0,
    {
        Scheduler { previous: String::new() }
    }

    /// Decides on the instruction a poll brought, and remembers it when it
    /// is taken up.
    pub fn on_instruction(&mut self, instruction: &String) -> (r: PollDecision)
        ensures
            (r == PollDecision::Process) == accepts(old(self).previous_spec(), instruction@),
            final(self).previous_spec() == previous_after(
                old(self).previous_spec(),
                instruction@,
            ),
    {
        if instruction.as_str().is_empty() || *instruction == self.previous {
            PollDecision::Skip
        } else {
            self.previous = instruction.clone();
            PollDecision::Process
        }
    }
}

/// Polls that bring only the empty instruction start no work, however many
/// there are.
pub proof fn lemma_empty_instructions_skipped(previous: Seq<char>, polls: Seq<Seq<char>>)
    requires
        forall|i: int| 0 <= i < polls.len() ==> (#[trigger] polls[i]).len() == 0,
    ensures
        accepted(previous, polls) == Seq::<Seq<char>>::empty(),
    decreases polls.len(),
{
    if polls.len() > 0 {
        lemma_empty_instructions_skipped(previous, polls.drop_first());
    }
}

/// Once an instruction is taken up, polls that bring it again start no new
/// work, however many there are.
pub proof fn lemma_repeated_instruction_skipped(
    previous: Seq<char>,
    instruction: Seq<char>,
    repeats: Seq<Seq<char>>,
)
    requires
        accepts(previous, instruction),
        forall|i: int| 0 <= i < repeats.len() ==> #[trigger] repeats[i] == instruction,
    ensures
        accepted(previous, seq![instruction] + repeats) == seq![instruction],
{
    lemma_same_instruction_skipped(instruction, repeats);
    assert((seq![instruction] + repeats).drop_first() =~= repeats);
    assert(seq![instruction] + Seq::<Seq<char>>::empty() =~= seq![instruction]);
}

/// Polls that bring the instruction last taken up start no work.
proof fn lemma_same_instruction_skipped(previous: Seq<char>, polls: Seq<Seq<char>>)
    requires
        forall|i: int| 0 <= i < polls.len() ==> #[trigger] polls[i] == previous,
    ensures
        accepted(previous, polls) == Seq::<Seq<char>>::empty(),
    decreases polls.len(),
{
    if polls.len() > 0 {
        lemma_same_instruction_skipped(previous, polls.drop_first());
    }
}

} // verus!
