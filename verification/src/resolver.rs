//! The per-item resolver: a short chain of dependent remote lookups that
//! produces the arguments of one submission, short-circuiting any failure
//! into a `Failure` outcome.
//!
//! The remote reads and the submission itself are performed by the
//! caller, which drives an [`ItemTask`] step by step: the task's state
//! says what to fetch next, and each `on_*` transition consumes the reply
//! of one remote round-trip. Decoding of fetched account data happens
//! inside the transitions, so every decision of the chain is made here.

use vstd::prelude::*;

use crate::accounts::{decode_program_buffer, decode_token_owner, token_owner_of, upgrade_buffer_of};
use crate::outcome::Outcome;

verus! {

/// The replies of the five remote round-trips of one item, each either a
/// plain value or an error message: the derived token-holding account,
/// that account's data, the owner account's controlling program, the
/// controlling program's account data, and the submission's signature.
pub struct StepResults {
    pub token_account: Result<String, String>,
    pub token_data: Result<Vec<u8>, String>,
    pub owner_program: Result<String, String>,
    pub program_data: Result<Vec<u8>, String>,
    pub submit: Result<String, String>,
}

/// Mathematical view of [`StepResults`].
pub struct StepResultsV {
    pub token_account: Result<Seq<char>, Seq<char>>,
    pub token_data: Result<Seq<u8>, Seq<char>>,
    pub owner_program: Result<Seq<char>, Seq<char>>,
    pub program_data: Result<Seq<u8>, Seq<char>>,
    pub submit: Result<Seq<char>, Seq<char>>,
}

impl View for StepResults {
    type V = StepResultsV;

    open spec fn view(&self) -> StepResultsV {
        StepResultsV {
            token_account: match self.token_account {
                Ok(v) => Ok(v@),
                Err(e) => Err(e@),
            },
            token_data: match self.token_data {
                Ok(v) => Ok(v@),
                Err(e) => Err(e@),
            },
            owner_program: match self.owner_program {
                Ok(v) => Ok(v@),
                Err(e) => Err(e@),
            },
            program_data: match self.program_data {
                Ok(v) => Ok(v@),
                Err(e) => Err(e@),
            },
            submit: match self.submit {
                Ok(v) => Ok(v@),
                Err(e) => Err(e@),
            },
        }
    }
}

/// The message of the first failing step of a resolution chain, if any.
///
/// The chain fails at the earliest of: the token-account derivation, the
/// token-account fetch, the decoding of the fetched token account, the
/// owner-account fetch, the controlling-program fetch, and the submission
/// itself. A controlling program that is not upgradeable is not a
/// failure.
pub open spec fn step_failure(v: StepResultsV) -> Option<Seq<char>> {
    if v.token_account is Err {
        Some(v.token_account->Err_0)
    } else if v.token_data is Err {
        Some(v.token_data->Err_0)
    } else if token_owner_of(v.token_data->Ok_0) is Err {
        Some(token_owner_of(v.token_data->Ok_0)->Err_0)
    } else if v.owner_program is Err {
        Some(v.owner_program->Err_0)
    } else if v.program_data is Err {
        Some(v.program_data->Err_0)
    } else if v.submit is Err {
        Some(v.submit->Err_0)
    } else {
        None
    }
}

/// Whether a resolution chain runs to a successful submission.
pub open spec fn item_succeeds(v: StepResultsV) -> bool {
    step_failure(v) is None
}

/// The transaction signature of a successful chain.
pub open spec fn item_sig(v: StepResultsV) -> Seq<char> {
    v.submit->Ok_0
}

/// Whether `o` is the one outcome that the resolution chain of item
/// `mint` with replies `v` must produce.
pub open spec fn outcome_matches(o: Outcome, mint: Seq<char>, v: StepResultsV) -> bool {
    match o {
        Outcome::Success { mint: m, sig } => {
            &&& item_succeeds(v)
            &&& m@ == mint
            &&& sig@ == item_sig(v)
        },
        Outcome::Failure { mint: m, error } => {
            &&& !item_succeeds(v)
            &&& m@ == mint
            &&& error@ == step_failure(v)->Some_0
        },
    }
}

/// Everything one submission call receives.
pub struct SubmitArgs {
    pub item_mint: String,
    pub item_token: String,
    pub token_owner: String,
    pub token_owner_program: String,
    pub token_owner_program_buffer: Option<String>,
    pub collection_mint: String,
    pub rule_set: String,
}

/// What an item's task is waiting for next.
pub enum TaskState {
    /// Waiting for the item's token-holding account address.
    AwaitTokenAccount,
    /// Waiting for the token-holding account's data.
    AwaitTokenData { item_token: String },
    /// Waiting for the program controlling the owner account.
    AwaitOwnerProgram { item_token: String, token_owner: String },
    /// Waiting for the controlling program's account data.
    AwaitProgramData { item_token: String, token_owner: String, token_owner_program: String },
    /// Waiting for the submission call's reply.
    AwaitSubmission { args: SubmitArgs },
    /// The item's one outcome is decided.
    Finished { outcome: Outcome },
}

/// The working record of one item: built incrementally, never shared.
pub struct ItemTask {
    pub mint: String,
    pub collection_mint: String,
    pub rule_set: String,
    pub state: TaskState,
}

impl ItemTask {
    /// The item identity and batch-level parameters are fixed at start.
    pub open spec fn same_header(self, t: ItemTask) -> bool {
        &&& t.mint@ == self.mint@
        &&& t.collection_mint@ == self.collection_mint@
        &&& t.rule_set@ == self.rule_set@
    }

    /// The task is finished with a failure carrying message `e`.
    pub open spec fn failed_with(self, e: Seq<char>) -> bool {
        &&& self.state matches TaskState::Finished { outcome } && outcome matches
            Outcome::Failure { mint, error } && mint@ == self.mint@ && error@ == e
    }

    /// Start the resolution of one item.
    pub fn begin(mint: String, collection_mint: String, rule_set: String) -> (t: ItemTask)
        ensures
            t.mint@ == mint@,
            t.collection_mint@ == collection_mint@,
            t.rule_set@ == rule_set@,
            t.state is AwaitTokenAccount,
    {
        ItemTask { mint, collection_mint, rule_set, state: TaskState::AwaitTokenAccount }
    }

    /// Whether the item's outcome is decided.
    pub fn is_finished(&self) -> (b: bool)
        ensures
            b == self.state is Finished,
    {
        match &self.state {
            TaskState::Finished { .. } => true,
            _ => false,
        }
    }

    /// Hand out the decided outcome.
    pub fn take_outcome(self) -> (o: Outcome)
        requires
            self.state is Finished,
        ensures
            (self.state matches TaskState::Finished { outcome } ==> o == outcome),
    {
        match self.state {
            TaskState::Finished { outcome } => outcome,
            _ => vstd::pervasive::unreached(),
        }
    }

    /// Consume the reply to the token-holding-account derivation. On
    /// success the task waits for that account's data; on error the item
    /// fails with the reply's message.
    pub fn on_token_account(self, r: Result<String, String>) -> (t: ItemTask)
        requires
            self.state is AwaitTokenAccount,
        ensures
            self.same_header(t),
            (r matches Ok(tok) ==> t.state matches TaskState::AwaitTokenData { item_token }
                && item_token@ == tok@),
            (r matches Err(e) ==> t.failed_with(e@)),
    {
        match r {
            Ok(item_token) => ItemTask {
                state: TaskState::AwaitTokenData { item_token },
                ..self
            },
            Err(error) => {
                let mint = self.mint.clone();
                ItemTask {
                    state: TaskState::Finished { outcome: Outcome::Failure { mint, error } },
                    ..self
                }
            },
        }
    }

    /// Step 3: consume the fetched token-account data and decode its
    /// owner. A fetch error or an undecodable record fails the item; a
    /// decoded owner moves the task on to the owner-program lookup.
    pub fn on_token_data(self, r: Result<Vec<u8>, String>) -> (t: ItemTask)
        requires
            self.state is AwaitTokenData,
        ensures
            self.same_header(t),
            (r matches Err(e) ==> t.failed_with(e@)),
            (r matches Ok(data) ==> {
                &&& (token_owner_of(data@) matches Ok(owner) ==> t.state matches
                    TaskState::AwaitOwnerProgram { item_token, token_owner }
                    && self.state matches TaskState::AwaitTokenData { item_token: it }
                    && item_token@ == it@ && token_owner@ == owner)
                &&& (token_owner_of(data@) matches Err(m) ==> t.failed_with(m))
            }),
    {
        let item_token = match self.state {
            TaskState::AwaitTokenData { item_token } => item_token,
            _ => vstd::pervasive::unreached(),
        };
        match r {
            Ok(data) => match decode_token_owner(&data) {
                Ok(token_owner) => ItemTask {
                    state: TaskState::AwaitOwnerProgram { item_token, token_owner },
                    mint: self.mint,
                    collection_mint: self.collection_mint,
                    rule_set: self.rule_set,
                },
                Err(error) => {
                    let mint = self.mint.clone();
                    ItemTask {
                        state: TaskState::Finished { outcome: Outcome::Failure { mint, error } },
                        mint: self.mint,
                        collection_mint: self.collection_mint,
                        rule_set: self.rule_set,
                    }
                },
            },
            Err(error) => {
                let mint = self.mint.clone();
                ItemTask {
                    state: TaskState::Finished { outcome: Outcome::Failure { mint, error } },
                    mint: self.mint,
                    collection_mint: self.collection_mint,
                    rule_set: self.rule_set,
                }
            },
        }
    }

    /// Step 4: consume the owner account's controlling program. On
    /// success the task waits for that program's account data; on error
    /// the item fails.
    pub fn on_owner_program(self, r: Result<String, String>) -> (t: ItemTask)
        requires
            self.state is AwaitOwnerProgram,
        ensures
            self.same_header(t),
            (r matches Ok(prog) ==> t.state matches TaskState::AwaitProgramData {
                item_token, token_owner, token_owner_program }
                && self.state matches TaskState::AwaitOwnerProgram {
                    item_token: it, token_owner: ow }
                && item_token@ == it@ && token_owner@ == ow@ && token_owner_program@ == prog@),
            (r matches Err(e) ==> t.failed_with(e@)),
    {
        let (item_token, token_owner) = match self.state {
            TaskState::AwaitOwnerProgram { item_token, token_owner } => (item_token, token_owner),
            _ => vstd::pervasive::unreached(),
        };
        match r {
            Ok(token_owner_program) => ItemTask {
                state: TaskState::AwaitProgramData { item_token, token_owner, token_owner_program },
                mint: self.mint,
                collection_mint: self.collection_mint,
                rule_set: self.rule_set,
            },
            Err(error) => {
                let mint = self.mint.clone();
                ItemTask {
                    state: TaskState::Finished { outcome: Outcome::Failure { mint, error } },
                    mint: self.mint,
                    collection_mint: self.collection_mint,
                    rule_set: self.rule_set,
                }
            },
        }
    }

    /// Step 5: consume the controlling program's account data and read
    /// it as an upgradeable-program descriptor. A fetched account always
    /// moves the task on to submission: a program that is not upgradeable
    /// leaves the buffer absent, which is a normal outcome and not a
    /// failure. Only a fetch error fails the item.
    pub fn on_program_data(self, r: Result<Vec<u8>, String>) -> (t: ItemTask)
        requires
            self.state is AwaitProgramData,
        ensures
            self.same_header(t),
            (r matches Ok(data) ==> t.state matches TaskState::AwaitSubmission { args }
                && self.state matches TaskState::AwaitProgramData {
                    item_token, token_owner, token_owner_program }
                && args.item_mint@ == self.mint@
                && args.item_token@ == item_token@
                && args.token_owner@ == token_owner@
                && args.token_owner_program@ == token_owner_program@
                && args.collection_mint@ == self.collection_mint@
                && args.rule_set@ == self.rule_set@
                && (args.token_owner_program_buffer is Some <==> upgrade_buffer_of(data@) is Some)
                && (args.token_owner_program_buffer matches Some(b) ==>
                    upgrade_buffer_of(data@) matches Some(s) && b@ == s)),
            (r matches Err(e) ==> t.failed_with(e@)),
    {
        let (item_token, token_owner, token_owner_program) = match self.state {
            TaskState::AwaitProgramData { item_token, token_owner, token_owner_program } => {
                (item_token, token_owner, token_owner_program)
            },
            _ => vstd::pervasive::unreached(),
        };
        match r {
            Ok(data) => {
                let token_owner_program_buffer = decode_program_buffer(&data);
                let args = SubmitArgs {
                    item_mint: self.mint.clone(),
                    item_token,
                    token_owner,
                    token_owner_program,
                    token_owner_program_buffer,
                    collection_mint: self.collection_mint.clone(),
                    rule_set: self.rule_set.clone(),
                };
                ItemTask {
                    state: TaskState::AwaitSubmission { args },
                    mint: self.mint,
                    collection_mint: self.collection_mint,
                    rule_set: self.rule_set,
                }
            },
            Err(error) => {
                let mint = self.mint.clone();
                ItemTask {
                    state: TaskState::Finished { outcome: Outcome::Failure { mint, error } },
                    mint: self.mint,
                    collection_mint: self.collection_mint,
                    rule_set: self.rule_set,
                }
            },
        }
    }

    /// Step 6: consume the submission call's reply and decide the item's
    /// outcome: the transaction signature on success, the call's error
    /// message on failure.
    pub fn on_submitted(self, r: Result<String, String>) -> (t: ItemTask)
        requires
            self.state is AwaitSubmission,
        ensures
            self.same_header(t),
            (r matches Ok(sig) ==> t.state matches TaskState::Finished { outcome }
                && outcome matches Outcome::Success { mint, sig: s }
                && mint@ == self.mint@ && s@ == sig@),
            (r matches Err(e) ==> t.failed_with(e@)),
    {
        match r {
            Ok(sig) => {
                let mint = self.mint.clone();
                ItemTask {
                    state: TaskState::Finished { outcome: Outcome::Success { mint, sig } },
                    ..self
                }
            },
            Err(error) => {
                let mint = self.mint.clone();
                ItemTask {
                    state: TaskState::Finished { outcome: Outcome::Failure { mint, error } },
                    ..self
                }
            },
        }
    }
}

/// Run one item's whole resolution chain against recorded replies and
/// return its one outcome.
///
/// Exactly one outcome is produced wherever the chain fails: the first
/// failing reply decides it, and later replies are not consulted.
pub fn resolve_item(
    mint: String,
    collection_mint: String,
    rule_set: String,
    steps: StepResults,
) -> (o: Outcome)
    ensures
        outcome_matches(o, mint@, steps@),
{
    let ghost v = steps@;
    let StepResults { token_account, token_data, owner_program, program_data, submit } = steps;
    let t = ItemTask::begin(mint, collection_mint, rule_set);
    let t = t.on_token_account(token_account);
    if t.is_finished() {
        return t.take_outcome();
    }
    let t = t.on_token_data(token_data);
    if t.is_finished() {
        return t.take_outcome();
    }
    let t = t.on_owner_program(owner_program);
    if t.is_finished() {
        return t.take_outcome();
    }
    let t = t.on_program_data(program_data);
    if t.is_finished() {
        return t.take_outcome();
    }
    let t = t.on_submitted(submit);
    t.take_outcome()
}

} // verus!
