//! The record store: an append-only ordered collection of bet records, with
//! indexed lookup, paginated range reads, a guarded in-place update of the
//! resolution field, and a resolution-request emitter that builds the event
//! line for a stored record without touching the store.

use vstd::prelude::*;
use vstd::string::StringExecFns;

use crate::events::{agent_payload, event_log_line, run_agent};
use crate::text::{dec_digits, u32_to_decimal};

verus! {

/// One bet record. `id` is assigned at creation as "record count + 1" and is
/// never reused; `terms` and `creator` are immutable after creation; the
/// `resolution` is the one field the guarded update path may rewrite, with
/// the empty string standing for "unresolved".
pub struct Bet {
    pub bet_id: u64,
    pub terms: String,
    pub resolution: String,
    pub creator: String,
}

/// The mathematical model of a record.
pub ghost struct BetView {
    pub bet_id: int,
    pub terms: Seq<char>,
    pub resolution: Seq<char>,
    pub creator: Seq<char>,
}

impl View for Bet {
    type V = BetView;

    open spec fn view(&self) -> BetView {
        BetView {
            bet_id: self.bet_id as int,
            terms: self.terms@,
            resolution: self.resolution@,
            creator: self.creator@,
        }
    }
}

impl DeepView for Bet {
    type V = BetView;

    open spec fn deep_view(&self) -> BetView {
        self.view()
    }
}

impl Clone for Bet {
    fn clone(&self) -> (r: Self)
        ensures
            r == *self,
    {
        Bet {
            bet_id: self.bet_id,
            terms: self.terms.clone(),
            resolution: self.resolution.clone(),
            creator: self.creator.clone(),
        }
    }
}

/// How a mutating call can fail. Failures are atomic: a call that reports one
/// of these has changed nothing.
#[derive(Clone, Copy, Debug, PartialEq, Eq, Structural)]
pub enum BetError {
    /// The index names no stored record.
    NotFound,
    /// The caller is not the configured resolver identity.
    Unauthorized,
}

/// The single identity that the guarded update path accepts.
pub open spec fn resolver_id() -> Seq<char> {
    "term-resolver.near"@
}

/// The access-control guard for the update path: a pure test of the caller
/// against the configured resolver identity.
pub fn is_authorized(caller: &String) -> (r: bool)
    ensures
        r == (caller@ == resolver_id()),
{
    let resolver = "term-resolver.near".to_owned();
    *caller == resolver
}

/// The identifier of the external agent that resolution requests address.
pub open spec fn resolve_agent() -> Seq<char> {
    "ai-creator.near/term-resolver/latest"@
}

/// The message of a resolution request: the record's terms, an underscore,
/// and the requested index in decimal, to give the agent positional context.
pub open spec fn resolve_message(terms: Seq<char>, index: u32) -> Seq<char> {
    terms + "_"@ + dec_digits(index as nat)
}

/// The whole log line that `request_resolve` emits for a record with the
/// given terms at the given index, signed by the given caller.
pub open spec fn resolve_event(terms: Seq<char>, index: u32, signer: Seq<char>) -> Seq<char> {
    event_log_line("run_agent"@, agent_payload(resolve_message(terms, index), resolve_agent(), signer))
}

/// The store after appending a fresh record: it gets the next id, the given
/// terms and creator, and an empty resolution.
pub open spec fn with_new_bet(s: Seq<BetView>, terms: Seq<char>, creator: Seq<char>) -> Seq<
    BetView,
> {
    s.push(
        BetView { bet_id: s.len() as int + 1, terms, resolution: Seq::empty(), creator },
    )
}

/// The store after rewriting the resolution of the record at `index`; out of
/// range, the store is unchanged.
pub open spec fn with_resolution(s: Seq<BetView>, index: int, resolution: Seq<char>) -> Seq<
    BetView,
> {
    if 0 <= index < s.len() {
        s.update(index, BetView { resolution, ..s[index] })
    } else {
        s
    }
}

/// A page of up to `limit` records starting at position `from`, in store
/// order; an out-of-range start or a zero limit yields the empty sequence.
pub open spec fn page(s: Seq<BetView>, from: int, limit: int) -> Seq<BetView> {
    if from < 0 || limit < 0 || from >= s.len() {
        Seq::empty()
    } else if from + limit <= s.len() {
        s.subrange(from, from + limit)
    } else {
        s.subrange(from, s.len() as int)
    }
}

/// An optional page parameter, or its default.
pub open spec fn or_default(v: Option<u64>, d: u64) -> int {
    match v {
        Option::Some(x) => x as int,
        Option::None => d as int,
    }
}

/// The store that a fresh instance reaches after appending the given
/// (terms, creator) entries in order, starting from the empty store.
pub open spec fn store_after(entries: Seq<(Seq<char>, Seq<char>)>) -> Seq<BetView>
    decreases entries.len(),
{
    if entries.len() == 0 {
        Seq::empty()
    } else {
        with_new_bet(store_after(entries.drop_last()), entries.last().0, entries.last().1)
    }
}

/// Appending n records to a fresh store yields a store of n records in
/// insertion order, the i-th carrying id i + 1, the i-th terms and creator,
/// and an empty resolution; and a page read of the whole store returns
/// exactly those records in that order.
pub proof fn lemma_inserts_preserve_order(entries: Seq<(Seq<char>, Seq<char>)>)
    ensures
        store_after(entries).len() == entries.len(),
        forall|i: int|
            0 <= i < entries.len() ==> (#[trigger] store_after(entries)[i]) == (BetView {
                bet_id: i + 1,
                terms: entries[i].0,
                resolution: Seq::<char>::empty(),
                creator: entries[i].1,
            }),
        page(store_after(entries), 0, entries.len() as int) =~= store_after(entries),
    decreases entries.len(),
{
    if entries.len() > 0 {
        lemma_inserts_preserve_order(entries.drop_last());
    }
}

/// A page read with limit zero returns the empty sequence, whatever the
/// store holds and wherever it starts.
pub proof fn lemma_zero_limit_page_is_empty(s: Seq<BetView>, from: int)
    ensures
        page(s, from, 0) =~= Seq::<BetView>::empty(),
{
}

/// The message of a resolution request contains the record's terms: they are
/// its prefix, ahead of the separator and the index.
pub proof fn lemma_resolve_message_contains_terms(terms: Seq<char>, index: u32)
    ensures
        resolve_message(terms, index).len() >= terms.len(),
        resolve_message(terms, index).subrange(0, terms.len() as int) =~= terms,
{
}

/// The record count never decreases: an append grows the store by one, a
/// resolution update leaves its length as it was, and every other operation
/// reads the store without touching it.
pub proof fn lemma_count_monotonic(
    s: Seq<BetView>,
    terms: Seq<char>,
    creator: Seq<char>,
    index: int,
    resolution: Seq<char>,
)
    ensures
        with_new_bet(s, terms, creator).len() == s.len() + 1,
        with_resolution(s, index, resolution).len() == s.len(),
{
}

/// The ordered store of bet records. Its model is the sequence of record
/// views, in insertion order; records only ever enter at the end.
pub struct BetTermStorage {
    bets: Vec<Bet>,
}

impl View for BetTermStorage {
    type V = Seq<BetView>;

    closed spec fn view(&self) -> Seq<BetView> {
        self.bets.deep_view()
    }
}

impl BetTermStorage {
    /// Position equals id minus one for every record, and the count stays
    /// within the range of the index type.
    #[verifier::type_invariant]
    spec fn wf(self) -> bool {
        &&& self.bets@.len() <= u32::MAX as int
        &&& forall|i: int|
            0 <= i < self.bets@.len() ==> (#[trigger] self.bets@[i]).bet_id == i + 1
    }
}

impl Default for BetTermStorage {
    /// The store starts empty.
    fn default() -> (r: Self)
        ensures
            r@ == Seq::<BetView>::empty(),
    {
        let r = BetTermStorage { bets: Vec::new() };
        proof {
            assert(r@ =~= Seq::<BetView>::empty());
        }
        r
    }
}

impl BetTermStorage {
    /// Appends a new record with the given terms, an empty resolution, the
    /// next id, and the creating caller's identity.
    pub fn add_bet(&mut self, terms: String, creator: String)
        requires
            old(self)@.len() < u32::MAX,
        ensures
            final(self)@ == with_new_bet(old(self)@, terms@, creator@),
            final(self)@.len() == old(self)@.len() + 1,
    {
        proof {
            use_type_invariant(&*self);
        }
        let mut bets: Vec<Bet> = Vec::new();
        std::mem::swap(&mut bets, &mut self.bets);
        let bet = Bet {
            bet_id: (bets.len() as u64) + 1,
            terms,
            resolution: String::new(),
            creator,
        };
        bets.push(bet);
        self.bets = bets;
        proof {
            assert(final(self)@ =~= with_new_bet(old(self)@, terms@, creator@));
        }
    }

    /// Looks up the record at `index`; absence is a legitimate outcome, not
    /// an error.
    pub fn get_bet(&self, index: u32) -> (r: Option<Bet>)
        ensures
            index < self@.len() ==> (r matches Some(b) && b@ == self@[index as int]),
            index >= self@.len() ==> r is None,
    {
        proof {
            use_type_invariant(&*self);
        }
        if (index as usize) < self.bets.len() {
            Some(self.bets[index as usize].clone())
        } else {
            None
        }
    }

    /// A paginated read: up to `limit` records starting at `from_index`, in
    /// store order; the defaults are position 0 and 10 records.
    pub fn get_bets(&self, from_index: Option<u64>, limit: Option<u64>) -> (r: Vec<Bet>)
        ensures
            r.deep_view() == page(self@, or_default(from_index, 0), or_default(limit, 10)),
    {
        proof {
            use_type_invariant(&*self);
        }
        let from: u64 = match from_index {
            Some(f) => f,
            None => 0,
        };
        let limit: u64 = match limit {
            Some(l) => l,
            None => 10,
        };
        let n = self.bets.len();
        let mut r: Vec<Bet> = Vec::new();
        if from >= n as u64 {
            proof {
                assert(r.deep_view() =~= page(self@, from as int, limit as int));
            }
            return r;
        }
        let mut i: usize = from as usize;
        let mut taken: u64 = 0;
        while i < n && taken < limit
            invariant
                n == self.bets@.len(),
                i <= n,
                from as int <= i as int,
                i as int == from + taken,
                taken <= limit,
                r.deep_view() =~= self@.subrange(from as int, i as int),
            decreases n - i,
        {
            r.push(self.bets[i].clone());
            proof {
                assert(self@.subrange(from as int, i + 1).drop_last() =~= self@.subrange(
                    from as int,
                    i as int,
                ));
                assert(r.deep_view() =~= self@.subrange(from as int, i + 1));
            }
            i = i + 1;
            taken = taken + 1;
        }
        proof {
            assert(r.deep_view() =~= page(self@, from as int, limit as int));
        }
        r
    }

    /// Rewrites the resolution of the record at `index`, leaving its id,
    /// terms and creator as they were. Only the configured resolver identity
    /// may call this; any other caller, and any out-of-range index, changes
    /// nothing.
    pub fn update_bet(&mut self, index: u32, resolution: String, caller: &String) -> (r: Result<
        (),
        BetError,
    >)
        ensures
            caller@ != resolver_id() ==> r == Err::<(), BetError>(BetError::Unauthorized)
                && final(self)@ == old(self)@,
            caller@ == resolver_id() && index >= old(self)@.len() ==> r == Err::<(), BetError>(
                BetError::NotFound,
            ) && final(self)@ == old(self)@,
            caller@ == resolver_id() && index < old(self)@.len() ==> r == Ok::<(), BetError>(())
                && final(self)@ == with_resolution(old(self)@, index as int, resolution@),
            final(self)@.len() == old(self)@.len(),
    {
        proof {
            use_type_invariant(&*self);
        }
        if !is_authorized(caller) {
            return Err(BetError::Unauthorized);
        }
        if (index as usize) >= self.bets.len() {
            return Err(BetError::NotFound);
        }
        let mut bets: Vec<Bet> = Vec::new();
        std::mem::swap(&mut bets, &mut self.bets);
        let i = index as usize;
        let mut bet = bets.remove(i);
        bet.resolution = resolution;
        bets.insert(i, bet);
        self.bets = bets;
        proof {
            assert(final(self)@ =~= with_resolution(old(self)@, index as int, resolution@));
        }
        Ok(())
    }

    /// The number of stored records.
    pub fn total_bets(&self) -> (r: u32)
        ensures
            r == self@.len(),
    {
        proof {
            use_type_invariant(&*self);
        }
        self.bets.len() as u32
    }

    /// Emits a resolution request for the record at `index`: builds the
    /// "run_agent" event line addressed to the configured agent, signed by
    /// the calling identity. The store is not touched; each call on a present
    /// record yields one independent event line.
    pub fn request_resolve(&self, index: u32, signer: &String) -> (r: Result<String, BetError>)
        ensures
            index < self@.len() ==> (r matches Ok(line) && line@ == resolve_event(
                self@[index as int].terms,
                index,
                signer@,
            )),
            index >= self@.len() ==> r == Err::<String, BetError>(BetError::NotFound),
    {
        proof {
            use_type_invariant(&*self);
        }
        if (index as usize) >= self.bets.len() {
            return Err(BetError::NotFound);
        }
        let bet = &self.bets[index as usize];
        let mut message = bet.terms.clone();
        message.append("_");
        let digits = u32_to_decimal(index);
        message.append(digits.as_str());
        proof {
            assert(message@ =~= resolve_message(self@[index as int].terms, index));
        }
        let line = run_agent(message.as_str(), "ai-creator.near/term-resolver/latest", signer.as_str());
        Ok(line)
    }
}

} // verus!
