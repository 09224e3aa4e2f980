//! The module's state cells and the mint operation.
//!
//! One invocation of the mint operation validates the caller, takes the
//! entropy value the host drew, derives an identifier from the entropy,
//! the caller and the current nonce, and — in a single atomic state
//! transition — advances the nonce by one, binds the identifier to the
//! caller in the ownership registry, and records one creation event.
//! On any failure nothing is changed.

use vstd::prelude::*;

use crate::derivation::{derive_kitten_id, derived_id};
use crate::registry::Registry;
use crate::types::{AccountId, Entropy, Kitty};
use crate::types::KittenId;

verus! {

/// The ways a mint operation can fail.
#[derive(Clone, Copy, PartialEq, Eq, Debug)]
pub enum MintError {
    /// The caller context does not resolve to a signed identity.
    Unauthenticated,
    /// The entropy source could not supply a value.
    EntropyUnavailable,
    /// The atomic two-write commit could not be applied.
    CommitFailure,
}

/// The caller context, as the host hands it in: a context signed by an
/// account, the root context, or an unsigned one.
#[derive(Clone, Copy)]
pub enum Origin {
    /// The context carries a verified signature of this account.
    Signed(AccountId),
    /// The host's privileged context; it carries no account.
    Root,
    /// No signature at all.
    Unsigned,
}

/// Resolves a caller context to the signing account. Any context that
/// is not signed fails with `Unauthenticated`.
pub fn ensure_signed(origin: Origin) -> (r: Result<AccountId, MintError>)
    ensures
        origin matches Origin::Signed(a) ==> r matches Ok(b) && b@ == a@,
        !(origin is Signed) ==> r == Err::<AccountId, MintError>(MintError::Unauthenticated),
{
    match origin {
        Origin::Signed(a) => Ok(a),
        Origin::Root => Err(MintError::Unauthenticated),
        Origin::Unsigned => Err(MintError::Unauthenticated),
    }
}

/// The record-created notification: the new identifier and its owner.
#[derive(Clone, Copy, PartialEq, Eq, Debug)]
pub enum Event {
    /// A record was minted: carries its identifier and its owner.
    KittenCreated(KittenId, AccountId),
}

impl View for Event {
    type V = (Seq<u8>, Seq<u8>);

    open spec fn view(&self) -> (Seq<u8>, Seq<u8>) {
        match self {
            Event::KittenCreated(id, owner) => (id@, owner@),
        }
    }
}

/// The single process-wide nonce: initialized to zero at genesis,
/// strictly non-decreasing, advanced by exactly one on every successful
/// mint and only then.
pub struct NonceCounter {
    value: u64,
}

impl View for NonceCounter {
    type V = u64;

    closed spec fn view(&self) -> u64 {
        self.value
    }
}

impl NonceCounter {
    /// The genesis counter, at zero.
    pub fn new() -> (r: NonceCounter)
        ensures
            r@ == 0,
    {
        NonceCounter { value: 0 }
    }

    /// Returns the current value; no side effect.
    pub fn read(&self) -> (n: u64)
        ensures
            n == self@,
    {
        self.value
    }

    /// Increments the stored value by one.
    pub fn advance(&mut self)
        requires
            old(self)@ < u64::MAX,
        ensures
            final(self)@ == old(self)@ + 1,
    {
        self.value = self.value + 1;
    }
}

/// The whole observable state: the nonce, the ownership bindings, and
/// the events recorded so far, each event as an (identifier, owner)
/// pair.
pub struct PalletView {
    pub nonce: u64,
    pub owners: Map<Seq<u8>, Seq<u8>>,
    pub events: Seq<(Seq<u8>, Seq<u8>)>,
}

/// The outcome a mint operation owes for given inputs: the first check
/// that fails — authentication, then entropy, then commit — or success.
pub open spec fn mint_outcome(origin: Origin, entropy: Option<Entropy>, commit_ok: bool) -> Result<
    (),
    MintError,
> {
    if !(origin is Signed) {
        Err(MintError::Unauthenticated)
    } else if !(entropy is Some) {
        Err(MintError::EntropyUnavailable)
    } else if !commit_ok {
        Err(MintError::CommitFailure)
    } else {
        Ok(())
    }
}

/// The module's two state cells and its event record.
pub struct Pallet {
    nonce: NonceCounter,
    kittens: Registry,
    events: Vec<Event>,
}

impl View for Pallet {
    type V = PalletView;

    closed spec fn view(&self) -> PalletView {
        PalletView {
            nonce: self.nonce@,
            owners: self.kittens@,
            events: self.events@.map_values(|e: Event| e@),
        }
    }
}

impl Pallet {
    /// Well-formedness: the registry holds at most one entry per
    /// identifier.
    pub closed spec fn wf(self) -> bool {
        self.kittens.wf()
    }

    /// The genesis state: nonce zero, no bindings, no events.
    pub fn new() -> (r: Pallet)
        ensures
            r.wf(),
            r@.nonce == 0,
            r@.owners == Map::<Seq<u8>, Seq<u8>>::empty(),
            r@.events == Seq::<(Seq<u8>, Seq<u8>)>::empty(),
    {
        let r = Pallet { nonce: NonceCounter::new(), kittens: Registry::empty(), events: Vec::new() };
        proof {
            assert(r@.events =~= Seq::<(Seq<u8>, Seq<u8>)>::empty());
        }
        r
    }

    /// The current nonce; no side effect.
    pub fn get_nonce(&self) -> (n: u64)
        ensures
            n == self@.nonce,
    {
        self.nonce.read()
    }

    /// The current owner of `id`, or nothing if no record with that
    /// identifier was minted.
    pub fn lookup_owner(&self, id: &KittenId) -> (r: Option<AccountId>)
        requires
            self.wf(),
        ensures
            crate::registry::opt_owner_view(r) == crate::registry::spec_lookup(self@.owners, id@),
    {
        self.kittens.lookup(id)
    }

    /// How many records are registered.
    pub fn kitten_count(&self) -> (n: usize)
        requires
            self.wf(),
        ensures
            n == self@.owners.dom().len(),
    {
        self.kittens.len()
    }

    /// The events recorded so far, oldest first.
    pub fn events(&self) -> (r: &Vec<Event>)
        ensures
            r@.map_values(|e: Event| e@) == self@.events,
    {
        &self.events
    }

    /// The mint operation. `origin` is the caller context; `entropy` is
    /// the value the host's randomness source supplied, or nothing if
    /// the source was unavailable; `commit_ok` says whether the host's
    /// storage substrate can apply the atomic two-write commit.
    ///
    /// On success the nonce advances by exactly one, the derived
    /// identifier is bound to the caller, and one creation event is
    /// recorded. On any failure the state is exactly as before the
    /// call.
    pub fn create_kitten(
        &mut self,
        origin: Origin,
        entropy: Option<Entropy>,
        commit_ok: bool,
    ) -> (r: Result<(), MintError>)
        requires
            old(self).wf(),
            mint_outcome(origin, entropy, commit_ok) is Ok ==> old(self)@.nonce < u64::MAX,
        ensures
            final(self).wf(),
            r == mint_outcome(origin, entropy, commit_ok),
            r is Err ==> *final(self) == *old(self),
            r is Ok ==> (origin matches Origin::Signed(sender) && entropy matches Some(ent) && ({
                let id = derived_id(ent@, sender@, old(self)@.nonce);
                &&& final(self)@.nonce == old(self)@.nonce + 1
                &&& final(self)@.owners == old(self)@.owners.insert(id, sender@)
                &&& final(self)@.events == old(self)@.events.push((id, sender@))
            })),
    {
        let sender = match ensure_signed(origin) {
            Ok(s) => s,
            Err(e) => {
                return Err(e);
            },
        };
        let drawn = match entropy {
            Some(e) => e,
            None => {
                return Err(MintError::EntropyUnavailable);
            },
        };
        let nonce = self.nonce.read();
        let new_id = derive_kitten_id(&drawn, &sender, nonce);
        let new_kitty = Kitty::new(new_id);
        if !commit_ok {
            return Err(MintError::CommitFailure);
        }
        let ghost pre_events = self.events@.map_values(|e: Event| e@);
        let kid = new_kitty.id();
        self.nonce.advance();
        self.kittens.insert(kid, sender);
        self.events.push(Event::KittenCreated(kid, sender));
        proof {
            assert(self.events@.map_values(|e: Event| e@) =~= pre_events.push((kid@, sender@)));
        }
        Ok(())
    }
}

} // verus!
