//! Dividing a space of candidates among workers, and scanning one share.

use crate::error::SigningError;
use crate::keys::{leaf_output_key, p2tr_address, CurveContext};
use crate::script::PUSH_LIMIT;
use crate::types::{opt_text, Args, ArgsView, CopiedData, Network, Payload};
use crate::utils::{get_address_by_copied_data, reveal_script};
use crate::worker::{candidate_outcome, predicate};
use crate::signal::{is_raised, raise};
use std::sync::atomic::AtomicBool;
use vstd::prelude::*;
use vstd::utf8::encode_utf8;

verus! {

/// How many sequence values there are.
pub const SEQUENCE_SPACE: u64 = 0x1_0000_0000;

/// The size of every share but the last.
pub open spec fn share(space: nat, workers: nat) -> nat {
    space / workers
}

/// Where the share of worker `index` starts.
pub open spec fn share_start(space: nat, workers: nat, index: nat) -> nat {
    index * share(space, workers)
}

/// Where the share of worker `index` ends; the end itself is not part of
/// the share. The last worker takes what division leaves over.
pub open spec fn share_end(space: nat, workers: nat, index: nat) -> nat {
    if index + 1 == workers {
        space
    } else {
        (index + 1) * share(space, workers)
    }
}

/// A run of consecutive candidates, from `start` up to but not including
/// `end`.
#[derive(Debug, Copy, Clone, PartialEq, Eq, Structural)]
pub struct Partition {
    pub start: u64,
    pub end: u64,
}

proof fn lemma_share_bounds(space: nat, workers: nat, index: nat)
    requires
        index < workers,
    ensures
        share_start(space, workers, index) <= share_end(space, workers, index) <= space,
        share_start(space, workers, index) + share(space, workers) <= share_end(space, workers, index),
        (index + 1) * share(space, workers) <= space,
{
    let each = space / workers;
    assert(each * workers <= space) by (nonlinear_arith)
        requires
            each == space / workers,
            workers > 0,
    ;
    assert((index + 1) * each <= workers * each) by (nonlinear_arith)
        requires
            index + 1 <= workers,
    ;
    assert((index + 1) * each == index * each + each) by (nonlinear_arith);
    assert(workers * each == each * workers) by (nonlinear_arith);
}

/// The share of one worker out of `workers`.
pub fn partition(space: u64, workers: u32, index: u32) -> (part: Partition)
    requires
        index < workers,
    ensures
        part.start == share_start(space as nat, workers as nat, index as nat),
        part.end == share_end(space as nat, workers as nat, index as nat),
        part.start <= part.end <= space,
{
    let each: u64 = space / (workers as u64);
    proof {
        lemma_share_bounds(space as nat, workers as nat, index as nat);
    }
    let start: u64 = (index as u64) * each;
    let end: u64 = if index + 1 == workers {
        space
    } else {
        (index as u64 + 1) * each
    };
    Partition { start, end }
}

/// The shares of all workers, in order.
pub fn partitions(space: u64, workers: u32) -> (parts: Vec<Partition>)
    ensures
        parts@.len() == workers,
        forall|index: int|
            0 <= index < workers ==> {
                &&& (#[trigger] parts@[index]).start == share_start(
                    space as nat,
                    workers as nat,
                    index as nat,
                )
                &&& parts@[index].end == share_end(space as nat, workers as nat, index as nat)
            },
{
    let mut parts: Vec<Partition> = Vec::new();
    let mut index: u32 = 0;
    while index < workers
        invariant
            index <= workers,
            parts@.len() == index,
            forall|earlier: int|
                0 <= earlier < index ==> {
                    &&& (#[trigger] parts@[earlier]).start == share_start(
                        space as nat,
                        workers as nat,
                        earlier as nat,
                    )
                    &&& parts@[earlier].end == share_end(
                        space as nat,
                        workers as nat,
                        earlier as nat,
                    )
                },
        decreases workers - index,
    {
        parts.push(partition(space, workers, index));
        index += 1;
    }
    parts
}

/// Two different shares have no candidate in common: the earlier one ends
/// before the later one starts.
pub proof fn lemma_shares_are_disjoint(space: nat, workers: nat, first: nat, second: nat)
    requires
        first < second < workers,
    ensures
        share_end(space, workers, first) <= share_start(space, workers, second),
{
    let each = share(space, workers);
    assert((first + 1) * each <= second * each) by (nonlinear_arith)
        requires
            first + 1 <= second,
    ;
}

/// The shares follow one another without a gap, from the first candidate to
/// the last.
pub proof fn lemma_shares_are_contiguous(space: nat, workers: nat, index: nat)
    requires
        index < workers,
    ensures
        share_start(space, workers, 0) == 0,
        index + 1 < workers ==> share_end(space, workers, index) == share_start(
            space,
            workers,
            index + 1,
        ),
        share_end(space, workers, (workers - 1) as nat) == space,
{
    assert(0 * share(space, workers) == 0) by (nonlinear_arith);
}

/// The worker whose share holds a candidate.
pub open spec fn owner(space: nat, workers: nat, candidate: nat) -> nat {
    if share(space, workers) == 0 || candidate / share(space, workers) >= workers {
        (workers - 1) as nat
    } else {
        candidate / share(space, workers)
    }
}

/// Every candidate of the space lies in a share: the shares together are
/// the whole space.
pub proof fn lemma_shares_cover_the_space(space: nat, workers: nat, candidate: nat)
    requires
        workers > 0,
        candidate < space,
    ensures
        owner(space, workers, candidate) < workers,
        share_start(space, workers, owner(space, workers, candidate)) <= candidate < share_end(
            space,
            workers,
            owner(space, workers, candidate),
        ),
{
    let each = share(space, workers);
    let index = owner(space, workers, candidate);
    lemma_share_bounds(space, workers, index);
    if each == 0 {
        assert(index * each == 0) by (nonlinear_arith)
            requires
                each == 0,
        ;
    } else {
        let quotient = candidate / each;
        assert(quotient * each <= candidate < (quotient + 1) * each) by (nonlinear_arith)
            requires
                quotient == candidate / each,
                each > 0,
        ;
        if quotient >= workers {
            assert(index * each <= quotient * each) by (nonlinear_arith)
                requires
                    index <= quotient,
            ;
        }
    }
}

/// No share lies outside the space.
pub proof fn lemma_shares_stay_in_the_space(space: nat, workers: nat, index: nat)
    requires
        index < workers,
    ensures
        share_start(space, workers, index) <= share_end(space, workers, index) <= space,
{
    lemma_share_bounds(space, workers, index);
}

/// Every share but the last has the size that division gives; the last one
/// has that size and the remainder.
pub proof fn lemma_share_sizes(space: nat, workers: nat, index: nat)
    requires
        index < workers,
    ensures
        index + 1 < workers ==> share_end(space, workers, index) - share_start(space, workers, index)
            == space / workers,
        index + 1 == workers ==> share_end(space, workers, index) - share_start(
            space,
            workers,
            index,
        ) == space / workers + space % workers,
{
    let each = space / workers;
    assert((index + 1) * each == index * each + each) by (nonlinear_arith);
    if index + 1 == workers {
        assert(space == workers * each + space % workers) by (nonlinear_arith)
            requires
                each == space / workers,
                workers > 0,
        ;
        assert(workers * each == index * each + each) by (nonlinear_arith)
            requires
                workers == index + 1,
        ;
    }
}

/// With no more workers than candidates, every worker has a candidate to
/// look at.
pub proof fn lemma_shares_are_not_empty(space: nat, workers: nat, index: nat)
    requires
        index < workers <= space,
    ensures
        share_start(space, workers, index) < share_end(space, workers, index),
{
    let each = space / workers;
    assert(each >= 1) by (nonlinear_arith)
        requires
            each == space / workers,
            0 < workers <= space,
    ;
    lemma_share_bounds(space, workers, index);
}

/// How the candidates of a search are told apart.
pub trait Evaluator {
    /// What must hold of the evaluator before it is asked.
    spec fn ready(&self) -> bool;

    /// Whether a candidate is what the search looks for.
    spec fn accepts(&self, candidate: u64) -> bool;

    fn evaluate(&self, candidate: u64) -> (accepted: bool)
        requires
            self.ready(),
        ensures
            accepted == self.accepts(candidate),
    ;
}

/// How the scan of a share ended.
#[derive(Debug, Copy, Clone, PartialEq, Eq, Structural)]
pub enum ScanOutcome {
    /// The candidate was accepted, and none before it in the share was.
    Found(u64),
    /// No candidate of the share was accepted.
    Exhausted,
    /// The stop signal was seen before this candidate was looked at; none
    /// before it in the share was accepted.
    Cancelled(u64),
}

/// No candidate from `start` up to but not including `end` is accepted.
pub open spec fn none_accepted<E: Evaluator>(evaluator: &E, start: u64, end: u64) -> bool {
    forall|candidate: u64| start <= candidate < end ==> !#[trigger] evaluator.accepts(candidate)
}

/// Scans a share in increasing order. The stop signal is looked at before
/// each candidate; the scan raises it when it finds a candidate.
pub fn scan<E: Evaluator>(evaluator: &E, part: Partition, stop: &AtomicBool) -> (outcome: ScanOutcome)
    requires
        evaluator.ready(),
    ensures
        match outcome {
            ScanOutcome::Found(candidate) => {
                &&& part.start <= candidate < part.end
                &&& evaluator.accepts(candidate)
                &&& none_accepted(evaluator, part.start, candidate)
            },
            ScanOutcome::Exhausted => none_accepted(evaluator, part.start, part.end),
            ScanOutcome::Cancelled(candidate) => {
                &&& part.start <= candidate < part.end
                &&& none_accepted(evaluator, part.start, candidate)
            },
        },
{
    let mut candidate: u64 = part.start;
    while candidate < part.end
        invariant
            evaluator.ready(),
            part.start <= candidate,
            none_accepted(evaluator, part.start, candidate),
        decreases part.end - candidate,
    {
        let seen = look(evaluator, candidate, is_raised(stop));
        if let Some(outcome) = seen {
            if let ScanOutcome::Found(_) = outcome {
                raise(stop);
            }
            return outcome;
        }
        candidate += 1;
    }
    ScanOutcome::Exhausted
}

/// The search for a sequence value: a candidate is accepted when it can be
/// signed and the id of the signed transaction meets the bitwork
/// requirement. A candidate that cannot be signed counts as no match.
pub struct SequenceSearch<'a> {
    pub payload: &'a Payload,
}

impl<'a> Evaluator for SequenceSearch<'a> {
    open spec fn ready(&self) -> bool {
        true
    }

    open spec fn accepts(&self, candidate: u64) -> bool {
        candidate < SEQUENCE_SPACE && candidate_outcome(candidate as u32, *self.payload)
            == Ok::<bool, SigningError>(true)
    }

    fn evaluate(&self, candidate: u64) -> (accepted: bool) {
        if candidate >= SEQUENCE_SPACE {
            return false;
        }
        match predicate(candidate as u32, self.payload) {
            Ok(found) => found,
            Err(_) => false,
        }
    }
}

/// The candidate that a search found, with the time and the nonce of the
/// run.
#[derive(Debug, Copy, Clone, PartialEq, Eq, Structural)]
pub struct SearchResult {
    pub sequence: u64,
    pub nonce: u64,
    pub time: u64,
}

/// How a search over the whole space ended.
#[derive(Debug, Copy, Clone, PartialEq, Eq, Structural)]
pub enum SearchOutcome {
    Found(SearchResult),
    /// Every share was scanned to its end and nothing was accepted.
    Exhausted,
    /// The stop signal was seen at this sequence value; none before it is accepted.
    Cancelled(u64),
}

/// Scans one worker's share of the sequence space.
pub fn mine_partition(payload: &Payload, part: Partition, stop: &AtomicBool) -> (outcome: ScanOutcome)
    ensures
        match outcome {
            ScanOutcome::Found(candidate) => {
                &&& part.start <= candidate < part.end
                &&& candidate < SEQUENCE_SPACE
                &&& candidate_outcome(candidate as u32, *payload) == Ok::<bool, SigningError>(true)
                &&& none_accepted(&SequenceSearch { payload }, part.start, candidate)
            },
            ScanOutcome::Exhausted => none_accepted(&SequenceSearch { payload }, part.start, part.end),
            ScanOutcome::Cancelled(candidate) => {
                &&& part.start <= candidate < part.end
                &&& none_accepted(&SequenceSearch { payload }, part.start, candidate)
            },
        },
{
    let search = SequenceSearch { payload };
    scan(&search, part, stop)
}

/// The result to publish for a sequence value that was found.
pub fn result_for(payload: &Payload, sequence: u64) -> (result: SearchResult)
    ensures
        result.sequence == sequence,
        result.nonce == payload.copied_data.args.nonce,
        result.time == payload.copied_data.args.time,
{
    SearchResult {
        sequence,
        nonce: payload.copied_data.args.nonce,
        time: payload.copied_data.args.time,
    }
}

/// Searches the whole sequence space, share after share, in the order of the
/// workers. With no worker nothing is looked at and the search is exhausted
/// at once. Otherwise it ends at the first sequence value at which the stop
/// signal is seen or which is accepted, whichever comes first, and it is
/// exhausted only when it has looked at every value and none is accepted.
pub fn mine(payload: &Payload, workers: u32, stop: &AtomicBool) -> (outcome: SearchOutcome)
    ensures
        workers == 0 ==> outcome == SearchOutcome::Exhausted,
        match outcome {
            SearchOutcome::Found(result) => {
                &&& workers > 0
                &&& result.sequence < SEQUENCE_SPACE
                &&& candidate_outcome(result.sequence as u32, *payload) == Ok::<bool, SigningError>(true)
                &&& none_accepted(&SequenceSearch { payload }, 0, result.sequence)
                &&& result.nonce == payload.copied_data.args.nonce
                &&& result.time == payload.copied_data.args.time
            },
            SearchOutcome::Exhausted => workers > 0 ==> none_accepted(
                &SequenceSearch { payload },
                0,
                SEQUENCE_SPACE,
            ),
            SearchOutcome::Cancelled(sequence) => {
                &&& workers > 0
                &&& sequence < SEQUENCE_SPACE
                &&& none_accepted(&SequenceSearch { payload }, 0, sequence)
            },
        },
{
    let search = SequenceSearch { payload };
    let mut index: u32 = 0;
    while index < workers
        invariant
            index <= workers,
            search.payload == payload,
            forall|earlier: nat|
                earlier < index ==> none_accepted(
                    &search,
                    #[trigger] share_start(SEQUENCE_SPACE as nat, workers as nat, earlier) as u64,
                    share_end(SEQUENCE_SPACE as nat, workers as nat, earlier) as u64,
                ),
        decreases workers - index,
    {
        let part = partition(SEQUENCE_SPACE, workers, index);
        match scan(&search, part, stop) {
            ScanOutcome::Found(candidate) => {
                proof {
                    lemma_nothing_accepted_before(&search, SEQUENCE_SPACE, workers, index, candidate);
                }
                return SearchOutcome::Found(result_for(payload, candidate));
            },
            ScanOutcome::Cancelled(candidate) => {
                proof {
                    lemma_nothing_accepted_before(&search, SEQUENCE_SPACE, workers, index, candidate);
                }
                return SearchOutcome::Cancelled(candidate);
            },
            ScanOutcome::Exhausted => {},
        }
        index += 1;
    }
    proof {
        if workers > 0 {
            assert forall|candidate: u64| 0 <= candidate < SEQUENCE_SPACE implies !#[trigger] search.accepts(
                candidate,
            ) by {
                let space = SEQUENCE_SPACE as nat;
                lemma_shares_cover_the_space(space, workers as nat, candidate as nat);
                let holder = owner(space, workers as nat, candidate as nat);
                lemma_shares_stay_in_the_space(space, workers as nat, holder);
                assert(none_accepted(
                    &search,
                    share_start(space, workers as nat, holder) as u64,
                    share_end(space, workers as nat, holder) as u64,
                ));
            }
        }
    }
    SearchOutcome::Exhausted
}

/// The search for a nonce: a candidate is accepted when the commit address
/// of the mint arguments with that nonce, at the search's time, is the
/// wanted one.
pub struct NonceSearch<'a> {
    pub secp: &'a CurveContext,
    pub xonly_public_key: &'a [u8; 32],
    /// The mint arguments; their time and nonce are not looked at.
    pub copied_data: &'a CopiedData,
    pub time: u64,
    pub op_type: &'a String,
    pub network: Network,
    pub wanted: &'a String,
}

impl<'a> NonceSearch<'a> {
    /// The mint arguments of a candidate.
    pub open spec fn args(&self, nonce: u64) -> ArgsView {
        ArgsView { time: self.time, nonce, ..self.copied_data@ }
    }
}

/// A copy of an optional string.
fn copy_text(text: &Option<String>) -> (copy: Option<String>)
    ensures
        opt_text(copy) == opt_text(*text),
{
    match text {
        Some(chars) => Some(chars.clone()),
        None => None,
    }
}

impl<'a> Evaluator for NonceSearch<'a> {
    open spec fn ready(&self) -> bool {
        encode_utf8(self.op_type@).len() < PUSH_LIMIT
    }

    open spec fn accepts(&self, candidate: u64) -> bool {
        let output_key = leaf_output_key(
            self.xonly_public_key@,
            reveal_script(self.xonly_public_key@, self.op_type@, self.args(candidate)),
        );
        output_key is Some && p2tr_address(output_key->0, self.network) == self.wanted@
    }

    fn evaluate(&self, candidate: u64) -> (accepted: bool) {
        let data = CopiedData {
            args: Args {
                time: self.time,
                nonce: candidate,
                bitworkc: copy_text(&self.copied_data.args.bitworkc),
                bitworkr: copy_text(&self.copied_data.args.bitworkr),
                mint_ticker: self.copied_data.args.mint_ticker.clone(),
            },
        };
        assert(data@ == self.args(candidate));
        match get_address_by_copied_data(
            self.secp,
            self.xonly_public_key,
            &data,
            self.op_type,
            self.network,
        ) {
            Ok((address, _script)) => address == *self.wanted,
            Err(_) => false,
        }
    }
}

/// How a sweep over times and nonces ended.
#[derive(Debug, Copy, Clone, PartialEq, Eq, Structural)]
pub enum SweepOutcome {
    Found { time: u64, nonce: u64 },
    /// Every time down to 1 was tried with every nonce.
    Exhausted,
    /// The stop signal was seen before this nonce was looked at, at this
    /// time; nothing that came before is accepted.
    Cancelled { time: u64, nonce: u64 },
}

/// Sweeps the nonces of `nonces` at the search's time, then at the second
/// before it, and so on down to time 1, until a nonce is accepted.
///
/// The sweep ends at the first nonce at which the stop signal is seen or
/// which is accepted, whichever comes first; `swept_in_vain` says what was
/// tried before it. With no time above zero or no nonce to try, nothing is
/// looked at and the sweep is exhausted.
pub fn sweep<'a>(search: NonceSearch<'a>, nonces: Partition, stop: &AtomicBool) -> (outcome: SweepOutcome)
    requires
        search.ready(),
    ensures
        search.time == 0 || nonces.start >= nonces.end ==> outcome == SweepOutcome::Exhausted,
        match outcome {
            SweepOutcome::Found { time, nonce } => {
                &&& 0 < time <= search.time
                &&& nonces.start <= nonce < nonces.end
                &&& (NonceSearch { time, ..search }).accepts(nonce)
                &&& swept_in_vain(search, nonces, time, nonce)
            },
            SweepOutcome::Exhausted => forall|time: u64|
                0 < time <= search.time ==> none_accepted(
                    &#[trigger] (NonceSearch { time, ..search }),
                    nonces.start,
                    nonces.end,
                ),
            SweepOutcome::Cancelled { time, nonce } => {
                &&& 0 < time <= search.time
                &&& nonces.start <= nonce < nonces.end
                &&& swept_in_vain(search, nonces, time, nonce)
            },
        },
{
    let mut current = search;
    while current.time > 0
        invariant
            current.ready(),
            current.time <= search.time,
            current == (NonceSearch { time: current.time, ..search }),
            forall|time: u64|
                current.time < time <= search.time ==> none_accepted(
                    &#[trigger] (NonceSearch { time, ..search }),
                    nonces.start,
                    nonces.end,
                ),
        decreases current.time,
    {
        match scan(&current, nonces, stop) {
            ScanOutcome::Found(nonce) => {
                return SweepOutcome::Found { time: current.time, nonce };
            },
            ScanOutcome::Cancelled(nonce) => {
                return SweepOutcome::Cancelled { time: current.time, nonce };
            },
            ScanOutcome::Exhausted => {},
        }
        current.time = current.time - 1;
    }
    SweepOutcome::Exhausted
}

/// What one look at a candidate comes to, given what the stop signal
/// showed just before: the scan is cancelled at the candidate where the
/// signal was raised, it has found the candidate where that is accepted,
/// and it goes on otherwise. The candidate is not evaluated once the signal
/// is raised.
pub fn look<E: Evaluator>(evaluator: &E, candidate: u64, raised: bool) -> (seen: Option<ScanOutcome>)
    requires
        evaluator.ready(),
    ensures
        seen == (if raised {
            Some(ScanOutcome::Cancelled(candidate))
        } else if evaluator.accepts(candidate) {
            Some(ScanOutcome::Found(candidate))
        } else {
            None
        }),
{
    if raised {
        Some(ScanOutcome::Cancelled(candidate))
    } else if evaluator.evaluate(candidate) {
        Some(ScanOutcome::Found(candidate))
    } else {
        None
    }
}

/// With the shares of the workers before `index` exhausted, and nothing
/// accepted in the share of `index` before `candidate`, nothing is accepted
/// before `candidate` at all.
proof fn lemma_nothing_accepted_before<E: Evaluator>(
    evaluator: &E,
    space: u64,
    workers: u32,
    index: u32,
    candidate: u64,
)
    requires
        index < workers,
        share_start(space as nat, workers as nat, index as nat) <= candidate <= share_end(
            space as nat,
            workers as nat,
            index as nat,
        ),
        none_accepted(
            evaluator,
            share_start(space as nat, workers as nat, index as nat) as u64,
            candidate,
        ),
        forall|earlier: nat|
            earlier < index ==> none_accepted(
                evaluator,
                #[trigger] share_start(space as nat, workers as nat, earlier) as u64,
                share_end(space as nat, workers as nat, earlier) as u64,
            ),
    ensures
        none_accepted(evaluator, 0, candidate),
{
    let all = space as nat;
    lemma_shares_stay_in_the_space(all, workers as nat, index as nat);
    assert forall|earlier: u64| 0 <= earlier < candidate implies !#[trigger] evaluator.accepts(
        earlier,
    ) by {
        lemma_shares_cover_the_space(all, workers as nat, earlier as nat);
        let holder = owner(all, workers as nat, earlier as nat);
        lemma_shares_stay_in_the_space(all, workers as nat, holder);
        if holder > index {
            lemma_shares_are_disjoint(all, workers as nat, index as nat, holder);
        } else if holder < index {
            assert(none_accepted(
                evaluator,
                share_start(all, workers as nat, holder) as u64,
                share_end(all, workers as nat, holder) as u64,
            ));
        }
    }
}

/// Nothing is accepted at the times after `time` up to the search's own, nor
/// at `time` before `nonce`.
pub open spec fn swept_in_vain<'a>(search: NonceSearch<'a>, nonces: Partition, time: u64, nonce: u64) -> bool {
    &&& none_accepted(&(NonceSearch { time, ..search }), nonces.start, nonce)
    &&& forall|later: u64|
        time < later <= search.time ==> none_accepted(
            &#[trigger] (NonceSearch { time: later, ..search }),
            nonces.start,
            nonces.end,
        )
}

} // verus!
