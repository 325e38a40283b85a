//! The purchase and mint workflow.
//!
//! A workflow is a value that moves through the states below. Each step
//! takes the state and an event and gives the next state, together with the
//! transfer to request from the remote ledger if the step asks for one. The
//! caller performs the request and feeds the reply back as the next event.
//! Between request and reply other work may run: a workflow holds all it
//! needs in its own state and never reads the balance store.

use vstd::prelude::*;
use crate::error::{Error, LedgerError, TransportFailure};
use crate::identity::{principal_of_text, AccountIdentifier};
use crate::ledger::{default_account, is_transfer_of, query_balance, request_transfer, Account,
    TransferOptions, TransferReply, TransferRequest};
use crate::policy::{authorize_privileged_mint, authorized, compute_token_amount, token_amount};
use crate::quantity::Quantity;

verus! {

/// A buyer's claim to have paid `paid_amount`.
#[derive(Debug, Clone, PartialEq, Eq)]
pub struct PurchaseRequest {
    pub buyer: AccountIdentifier,
    pub paid_amount: u64,
}

/// The states of one purchase or mint.
#[derive(Debug, Clone, PartialEq, Eq)]
pub enum MintWorkflow {
    /// A purchase has arrived and nothing has been checked.
    Received { request: PurchaseRequest, options: TransferOptions },
    /// The amount to mint is fixed; nothing has been asked of the ledger.
    Validated { recipient: AccountIdentifier, amount: u64, options: TransferOptions },
    /// The transfer has been handed out and its reply is awaited.
    MintRequested { amount: u64 },
    /// The ledger made the transfer.
    Committed { amount: u64, block_index: Quantity },
    /// The ledger declined the transfer.
    Rejected { error: LedgerError },
    /// The call brought no answer: the transfer may have happened.
    Indeterminate { reason: TransportFailure },
    /// The request failed a local check; the ledger was never asked.
    Refused { cause: Error },
}

/// What a workflow is told.
#[derive(Debug, Clone, PartialEq, Eq)]
pub enum Event {
    /// Go on with what can be decided locally.
    Advance,
    /// The remote call that was asked for has ended.
    LedgerReplied(TransferReply),
}

/// What a finished mint gives.
#[derive(Debug, Clone, PartialEq, Eq)]
pub struct MintReceipt {
    pub amount: u64,
    pub block_index: Quantity,
}

/// The state that follows `state` on `event`. Pairs that are not listed
/// leave the state as it is.
pub open spec fn next_state(state: MintWorkflow, event: Event) -> MintWorkflow {
    match (state, event) {
        (MintWorkflow::Received { request, options }, Event::Advance) => match token_amount(
            request.paid_amount,
        ) {
            Some(amount) => MintWorkflow::Validated { recipient: request.buyer, amount, options },
            None => MintWorkflow::Refused { cause: Error::InvalidAmount },
        },
        (MintWorkflow::Validated { recipient, amount, options }, Event::Advance) =>
            MintWorkflow::MintRequested { amount },
        (
            MintWorkflow::MintRequested { amount },
            Event::LedgerReplied(TransferReply::Committed { block_index }),
        ) => MintWorkflow::Committed { amount, block_index },
        (
            MintWorkflow::MintRequested { amount },
            Event::LedgerReplied(TransferReply::Declined { error }),
        ) => MintWorkflow::Rejected { error },
        (
            MintWorkflow::MintRequested { amount },
            Event::LedgerReplied(TransferReply::Failed { failure }),
        ) => MintWorkflow::Indeterminate { reason: failure },
        (state, _) => state,
    }
}

/// Whether `call` is what the step from `state` on `event` hands out: the
/// mint of the validated amount to the recipient's default account, or
/// nothing.
pub open spec fn hands_out(
    state: MintWorkflow,
    event: Event,
    call: Option<TransferRequest>,
) -> bool {
    match (state, event) {
        (MintWorkflow::Validated { recipient, amount, options }, Event::Advance) => {
            &&& call matches Some(request)
            &&& is_transfer_of(request, default_account(recipient), amount, options)
        },
        _ => call is None,
    }
}

/// What a workflow has come to: nothing while it is under way.
pub open spec fn outcome_of(state: MintWorkflow) -> Option<Result<MintReceipt, Error>> {
    match state {
        MintWorkflow::Committed { amount, block_index } => Some(
            Ok(MintReceipt { amount, block_index }),
        ),
        MintWorkflow::Rejected { error } => Some(Err(Error::RemoteRejected(error))),
        MintWorkflow::Indeterminate { reason } => Some(Err(Error::RemoteIndeterminate(reason))),
        MintWorkflow::Refused { cause } => Some(Err(cause)),
        _ => None,
    }
}

/// How far a workflow has come: 0 on arrival, 3 when it has ended.
pub open spec fn progress(state: MintWorkflow) -> nat {
    match state {
        MintWorkflow::Received { .. } => 0,
        MintWorkflow::Validated { .. } => 1,
        MintWorkflow::MintRequested { .. } => 2,
        _ => 3,
    }
}

/// Whether the step from `state` on `event` asks the ledger for a transfer.
pub open spec fn asks_ledger(state: MintWorkflow, event: Event) -> bool {
    state is Validated && event is Advance
}

/// The state after a run of events, the first of them first.
pub open spec fn after_events(state: MintWorkflow, events: Seq<Event>) -> MintWorkflow
    decreases events.len(),
{
    if events.len() == 0 {
        state
    } else {
        after_events(next_state(state, events.first()), events.drop_first())
    }
}

/// How many transfers a run of events asks of the ledger.
pub open spec fn transfers_asked(state: MintWorkflow, events: Seq<Event>) -> nat
    decreases events.len(),
{
    if events.len() == 0 {
        0
    } else {
        let asked: nat = if asks_ledger(state, events.first()) {
            1
        } else {
            0
        };
        asked + transfers_asked(next_state(state, events.first()), events.drop_first())
    }
}

/// The state after all the steps that need nothing from outside.
pub open spec fn advanced(state: MintWorkflow) -> MintWorkflow {
    next_state(next_state(state, Event::Advance), Event::Advance)
}

/// The block index of a receipt as a 64-bit number, where it fits in one.
pub open spec fn block_index_of(receipt: MintReceipt) -> Option<u64> {
    if receipt.block_index@ <= u64::MAX {
        Some(receipt.block_index@ as u64)
    } else {
        None
    }
}

/// What a privileged mint reports for an outcome: the ledger's block index
/// as it is, and `InvalidAmount` for an index that 64 bits cannot hold.
pub open spec fn mint_report(outcome: Option<Result<MintReceipt, Error>>) -> Option<
    Result<u64, Error>,
> {
    match outcome {
        Some(Ok(receipt)) => match block_index_of(receipt) {
            Some(index) => Some(Ok(index)),
            None => Some(Err(Error::InvalidAmount)),
        },
        Some(Err(error)) => Some(Err(error)),
        None => None,
    }
}

/// Where the privileged mint of `amount` to `recipient` starts when `caller`
/// asks for it: refused unless the caller is the service itself.
pub open spec fn admin_mint_start(
    caller: Seq<u8>,
    service: Seq<u8>,
    recipient: AccountIdentifier,
    amount: u64,
    options: TransferOptions,
) -> MintWorkflow {
    if authorized(caller, service) {
        MintWorkflow::Validated { recipient, amount, options }
    } else {
        MintWorkflow::Refused { cause: Error::Unauthorized }
    }
}

impl MintWorkflow {
    /// Takes one step: the next state, and the transfer to ask of the ledger
    /// where the step asks for one.
    pub fn step(self, event: Event) -> (stepped: (MintWorkflow, Option<TransferRequest>))
        ensures
            stepped.0 == next_state(self, event),
            hands_out(self, event, stepped.1),
    {
        match (self, event) {
            (MintWorkflow::Received { request, options }, Event::Advance) => {
                match compute_token_amount(request.paid_amount) {
                    Ok(amount) => (
                        MintWorkflow::Validated { recipient: request.buyer, amount, options },
                        None,
                    ),
                    Err(cause) => (MintWorkflow::Refused { cause }, None),
                }
            },
            (MintWorkflow::Validated { recipient, amount, options }, Event::Advance) => {
                let to = Account { owner: recipient, subaccount: None };
                let request = request_transfer(to, amount, options);
                (MintWorkflow::MintRequested { amount }, Some(request))
            },
            (
                MintWorkflow::MintRequested { amount },
                Event::LedgerReplied(TransferReply::Committed { block_index }),
            ) => (MintWorkflow::Committed { amount, block_index }, None),
            (
                MintWorkflow::MintRequested { amount },
                Event::LedgerReplied(TransferReply::Declined { error }),
            ) => (MintWorkflow::Rejected { error }, None),
            (
                MintWorkflow::MintRequested { amount },
                Event::LedgerReplied(TransferReply::Failed { failure }),
            ) => (MintWorkflow::Indeterminate { reason: failure }, None),
            (state, _) => (state, None),
        }
    }

    /// Takes the steps that need nothing from outside: afterwards the
    /// workflow has ended, or waits for the reply to the transfer handed out
    /// here or earlier.
    pub fn advance(self) -> (stepped: (MintWorkflow, Option<TransferRequest>))
        ensures
            stepped.0 == advanced(self),
            hands_out(
                if self is Received {
                    next_state(self, Event::Advance)
                } else {
                    self
                },
                Event::Advance,
                stepped.1,
            ),
    {
        let (state, call) = self.step(Event::Advance);
        match call {
            Some(request) => (state, Some(request)),
            None => state.step(Event::Advance),
        }
    }

    /// Whether the workflow has ended.
    pub fn is_finished(&self) -> (finished: bool)
        ensures
            finished == outcome_of(*self).is_some(),
    {
        match self {
            MintWorkflow::Received { .. } => false,
            MintWorkflow::Validated { .. } => false,
            MintWorkflow::MintRequested { .. } => false,
            _ => true,
        }
    }

    /// What the workflow has come to, once it has ended.
    pub fn into_outcome(self) -> (outcome: Option<Result<MintReceipt, Error>>)
        ensures
            outcome == outcome_of(self),
    {
        match self {
            MintWorkflow::Committed { amount, block_index } => Some(
                Ok(MintReceipt { amount, block_index }),
            ),
            MintWorkflow::Rejected { error } => Some(Err(Error::RemoteRejected(error))),
            MintWorkflow::Indeterminate { reason } => Some(Err(Error::RemoteIndeterminate(reason))),
            MintWorkflow::Refused { cause } => Some(Err(cause)),
            _ => None,
        }
    }
}

impl MintReceipt {
    /// The block index as a 64-bit number, where it fits in one.
    pub fn block_index_u64(&self) -> (index: Option<u64>)
        ensures
            index == block_index_of(*self),
    {
        self.block_index.to_u64()
    }
}

/// Opens the purchase of tokens for `expected_icp_amount` paid by `caller`.
/// That the payment was made is taken on the caller's word.
pub fn purchase_crng_with_icp(
    caller: AccountIdentifier,
    expected_icp_amount: u64,
    options: TransferOptions,
) -> (start: MintWorkflow)
    ensures
        start == (MintWorkflow::Received {
            request: PurchaseRequest { buyer: caller, paid_amount: expected_icp_amount },
            options,
        }),
{
    MintWorkflow::Received {
        request: PurchaseRequest { buyer: caller, paid_amount: expected_icp_amount },
        options,
    }
}

/// What a purchase returns to the buyer: the amount minted.
pub fn purchase_result(workflow: MintWorkflow) -> (result: Option<Result<u64, Error>>)
    ensures
        result == match outcome_of(workflow) {
            Some(Ok(receipt)) => Some(Ok(receipt.amount)),
            Some(Err(error)) => Some(Err(error)),
            None => None,
        },
{
    match workflow.into_outcome() {
        Some(Ok(receipt)) => Some(Ok(receipt.amount)),
        Some(Err(error)) => Some(Err(error)),
        None => None,
    }
}

/// Opens the mint of `amount` to `recipient`, which only the service itself
/// may ask for. For any other caller the workflow starts out refused, and so
/// never asks anything of the ledger.
pub fn admin_mint(
    caller: &AccountIdentifier,
    service: &AccountIdentifier,
    recipient: AccountIdentifier,
    amount: u64,
    options: TransferOptions,
) -> (start: MintWorkflow)
    ensures
        start == admin_mint_start(caller@, service@, recipient, amount, options),
{
    if authorize_privileged_mint(caller, service) {
        MintWorkflow::Validated { recipient, amount, options }
    } else {
        MintWorkflow::Refused { cause: Error::Unauthorized }
    }
}

/// Opens the privileged mint of `crng_amount` to the principal that
/// `user_principal` spells. The caller is checked first; then a text that
/// spells no principal is refused.
pub fn mint_crng_for_user(
    caller: &AccountIdentifier,
    service: &AccountIdentifier,
    user_principal: &str,
    crng_amount: u64,
    options: TransferOptions,
) -> (start: MintWorkflow)
    ensures
        !authorized(caller@, service@) ==> start == (MintWorkflow::Refused {
            cause: Error::Unauthorized,
        }),
        authorized(caller@, service@) ==> match principal_of_text(user_principal@) {
            Some(bytes) => {
                &&& start matches MintWorkflow::Validated { recipient, amount, options: kept }
                &&& recipient@ == bytes
                &&& amount == crng_amount
                &&& kept == options
            },
            None => start == (MintWorkflow::Refused { cause: Error::InvalidIdentifier }),
        },
{
    if !authorize_privileged_mint(caller, service) {
        return MintWorkflow::Refused { cause: Error::Unauthorized };
    }
    match AccountIdentifier::from_text(user_principal) {
        Ok(recipient) => admin_mint(caller, service, recipient, crng_amount, options),
        Err(cause) => MintWorkflow::Refused { cause },
    }
}

/// What a privileged mint returns: the index of the block that holds it,
/// exactly as the ledger gave it. An index that 64 bits cannot hold is not
/// cut down to one that they can: the result is `InvalidAmount`, and the
/// index stays in full in the receipt that `into_outcome` gives.
pub fn mint_result(workflow: MintWorkflow) -> (result: Option<Result<u64, Error>>)
    ensures
        result == mint_report(outcome_of(workflow)),
{
    match workflow.into_outcome() {
        Some(Ok(receipt)) => match receipt.block_index_u64() {
            Some(index) => Some(Ok(index)),
            None => Some(Err(Error::InvalidAmount)),
        },
        Some(Err(error)) => Some(Err(error)),
        None => None,
    }
}

/// Opens the query for the token balance of the principal that
/// `user_principal` spells: the account to ask the ledger about.
pub fn get_crng_balance(user_principal: &str) -> (query: Result<Account, Error>)
    ensures
        match query {
            Ok(account) => principal_of_text(user_principal@) == Some(account.owner@)
                && account.subaccount is None,
            Err(error) => error == Error::InvalidIdentifier
                && principal_of_text(user_principal@) is None,
        },
{
    match AccountIdentifier::from_text(user_principal) {
        Ok(owner) => Ok(query_balance(owner)),
        Err(error) => Err(error),
    }
}

/// A workflow that has ended stays as it is, whatever it is told, and asks
/// nothing more of the ledger.
pub proof fn lemma_finished_is_final(
    state: MintWorkflow,
    event: Event,
    call: Option<TransferRequest>,
)
    requires
        outcome_of(state) is Some,
        hands_out(state, event, call),
    ensures
        next_state(state, event) == state,
        call is None,
{
}

/// A step never goes back, and a step that changes the state goes forward:
/// a workflow ends after at most three steps that change it.
pub proof fn lemma_steps_go_forward(state: MintWorkflow, event: Event)
    ensures
        progress(state) <= progress(next_state(state, event)) <= 3,
        next_state(state, event) != state ==> progress(state) < progress(next_state(state, event)),
        progress(state) == 3 <==> outcome_of(state) is Some,
{
}

/// The ledger is asked exactly when a workflow leaves `Validated`, and is
/// asked for the validated amount.
pub proof fn lemma_asks_on_leaving_validated(
    state: MintWorkflow,
    event: Event,
    call: Option<TransferRequest>,
)
    requires
        hands_out(state, event, call),
    ensures
        call is Some <==> asks_ledger(state, event),
        call is Some <==> progress(state) == 1 && progress(next_state(state, event)) == 2,
        call matches Some(request) ==> state matches MintWorkflow::Validated { amount, .. }
            && request.amount@ == amount,
        call matches Some(request) ==> request.memo is Some,
{
}

/// A workflow that is opened again with what it was opened with asks for the
/// same transfer: the same recipient, amount, fee, memo and creation time, by
/// which the ledger recognises the repetition.
pub proof fn lemma_repeated_request_is_the_same(
    state: MintWorkflow,
    first: Option<TransferRequest>,
    second: Option<TransferRequest>,
)
    requires
        hands_out(state, Event::Advance, first),
        hands_out(state, Event::Advance, second),
    ensures
        first is Some <==> second is Some,
        first matches Some(one) ==> second matches Some(other) ==> {
            &&& one.to == other.to
            &&& one.amount@ == other.amount@
            &&& one.fee is Some <==> other.fee is Some
            &&& one.fee matches Some(fee) ==> other.fee matches Some(again) ==> fee@ == again@
            &&& one.memo == other.memo
            &&& one.from_subaccount == other.from_subaccount
            &&& one.created_at_time == other.created_at_time
        },
{
}

/// Whatever a workflow is told, and in whatever order, it asks the ledger for
/// at most one transfer, and for none once it has asked: nothing is retried
/// behind the caller's back.
pub proof fn lemma_never_asks_twice(state: MintWorkflow, events: Seq<Event>)
    ensures
        transfers_asked(state, events) <= 1,
        progress(state) >= 2 ==> transfers_asked(state, events) == 0,
    decreases events.len(),
{
    if events.len() > 0 {
        lemma_steps_go_forward(state, events.first());
        lemma_never_asks_twice(next_state(state, events.first()), events.drop_first());
    }
}

/// Whatever a workflow is told once it has ended, it stays as it ended.
pub proof fn lemma_finished_stays(state: MintWorkflow, events: Seq<Event>)
    requires
        outcome_of(state) is Some,
    ensures
        after_events(state, events) == state,
    decreases events.len(),
{
    if events.len() > 0 {
        lemma_finished_stays(state, events.drop_first());
    }
}

/// After the local steps and the reply to the one transfer, every workflow
/// has ended.
pub proof fn lemma_reply_finishes(state: MintWorkflow, reply: TransferReply)
    ensures
        outcome_of(advanced(state)) is Some || advanced(state) is MintRequested,
        outcome_of(next_state(advanced(state), Event::LedgerReplied(reply))) is Some,
{
}

/// A caller other than the service gets `Unauthorized` from a privileged
/// mint, and whatever the workflow is told afterwards, it never asks the
/// ledger for anything.
pub proof fn lemma_unauthorized_mint_asks_nothing(
    caller: Seq<u8>,
    service: Seq<u8>,
    recipient: AccountIdentifier,
    amount: u64,
    options: TransferOptions,
    events: Seq<Event>,
)
    requires
        caller != service,
    ensures
        outcome_of(admin_mint_start(caller, service, recipient, amount, options)) == Some(
            Err::<MintReceipt, Error>(Error::Unauthorized),
        ),
        after_events(admin_mint_start(caller, service, recipient, amount, options), events)
            == admin_mint_start(caller, service, recipient, amount, options),
        transfers_asked(admin_mint_start(caller, service, recipient, amount, options), events)
            == 0,
{
    let start = admin_mint_start(caller, service, recipient, amount, options);
    lemma_finished_stays(start, events);
    lemma_never_asks_twice(start, events);
}

/// A payment whose tokens do not fit in 64 bits is refused with
/// `InvalidAmount` before the ledger is asked.
pub proof fn lemma_unconvertible_purchase_is_refused(
    request: PurchaseRequest,
    options: TransferOptions,
    call: Option<TransferRequest>,
)
    requires
        token_amount(request.paid_amount) is None,
        hands_out(MintWorkflow::Received { request, options }, Event::Advance, call),
    ensures
        outcome_of(next_state(MintWorkflow::Received { request, options }, Event::Advance)) == Some(
            Err::<MintReceipt, Error>(Error::InvalidAmount),
        ),
        call is None,
{
}

/// A transfer that the ledger declines ends the workflow as `Rejected`, and
/// the ledger's error reaches the caller unchanged inside `RemoteRejected`.
pub proof fn lemma_declined_is_rejected(amount: u64, error: LedgerError)
    ensures
        next_state(
            MintWorkflow::MintRequested { amount },
            Event::LedgerReplied(TransferReply::Declined { error }),
        ) == (MintWorkflow::Rejected { error }),
        outcome_of(MintWorkflow::Rejected { error }) == Some(
            Err::<MintReceipt, Error>(Error::RemoteRejected(error)),
        ),
{
}

/// A call that brings no answer ends the workflow as `Indeterminate`: the
/// caller gets `RemoteIndeterminate`, never `RemoteRejected`.
pub proof fn lemma_no_answer_is_indeterminate(amount: u64, failure: TransportFailure)
    ensures
        next_state(
            MintWorkflow::MintRequested { amount },
            Event::LedgerReplied(TransferReply::Failed { failure }),
        ) == (MintWorkflow::Indeterminate { reason: failure }),
        outcome_of(MintWorkflow::Indeterminate { reason: failure }) == Some(
            Err::<MintReceipt, Error>(Error::RemoteIndeterminate(failure)),
        ),
        !(Error::RemoteIndeterminate(failure) is RemoteRejected),
{
}

/// A privileged mint never reports a block index other than the ledger's: an
/// index is reported only for a committed workflow, and then it is the index
/// of the ledger's reply; an index within 64 bits is always reported.
pub proof fn lemma_mint_reports_the_ledgers_index(workflow: MintWorkflow)
    ensures
        mint_report(outcome_of(workflow)) matches Some(Ok(index)) ==> workflow matches MintWorkflow::Committed {
            block_index,
            ..
        } && index == block_index@,
        workflow matches MintWorkflow::Committed { block_index, .. } ==> mint_report(
            outcome_of(workflow),
        ) == (if block_index@ <= u64::MAX {
            Some(Ok::<u64, Error>(block_index@ as u64))
        } else {
            Some(Err::<u64, Error>(Error::InvalidAmount))
        }),
{
}

/// An authorized mint whose transfer the ledger makes ends committed with the
/// ledger's block index, which is what the mint reports.
pub proof fn lemma_authorized_mint_commits(
    service: Seq<u8>,
    recipient: AccountIdentifier,
    amount: u64,
    options: TransferOptions,
    block_index: Quantity,
)
    ensures
        ({
            let start = admin_mint_start(service, service, recipient, amount, options);
            let ended = next_state(
                advanced(start),
                Event::LedgerReplied(TransferReply::Committed { block_index }),
            );
            &&& ended == (MintWorkflow::Committed { amount, block_index })
            &&& block_index@ <= u64::MAX ==> mint_report(outcome_of(ended)) == Some(
                Ok::<u64, Error>(block_index@ as u64),
            )
            &&& block_index@ > u64::MAX ==> mint_report(outcome_of(ended)) == Some(
                Err::<u64, Error>(Error::InvalidAmount),
            )
        }),
{
}

/// A purchase whose payment converts, and whose transfer the ledger makes,
/// ends committed with the converted amount.
pub proof fn lemma_purchase_commits(
    request: PurchaseRequest,
    options: TransferOptions,
    block_index: Quantity,
)
    requires
        token_amount(request.paid_amount) is Some,
    ensures
        ({
            let received = MintWorkflow::Received { request, options };
            let validated = next_state(received, Event::Advance);
            let requested = next_state(validated, Event::Advance);
            let ended = next_state(
                requested,
                Event::LedgerReplied(TransferReply::Committed { block_index }),
            );
            &&& validated == (MintWorkflow::Validated {
                recipient: request.buyer,
                amount: token_amount(request.paid_amount)->Some_0,
                options,
            })
            &&& requested == (MintWorkflow::MintRequested {
                amount: token_amount(request.paid_amount)->Some_0,
            })
            &&& outcome_of(ended) == Some(
                Ok::<MintReceipt, Error>(
                    MintReceipt { amount: token_amount(request.paid_amount)->Some_0, block_index },
                ),
            )
        }),
{
}

} // verus!
