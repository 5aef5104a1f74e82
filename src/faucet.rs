//! A faucet that hands out a fixed amount to an account at most once per
//! lock period.
use vstd::prelude::*;
use crate::address::AccountId;
use crate::table::Table;

verus! {

/// The faucet's configuration.
pub struct Config {
    /// The amount handed out by each drip.
    pub faucet_amount: u128,
    /// The number of blocks that must pass between two drips to one account.
    pub lock_period: u32,
}

/// Why a drip was refused.
#[derive(Debug, Clone, Copy, PartialEq, Eq, Structural)]
pub enum Error {
    /// The account asked again before the lock period passed.
    DripTooSoon,
}

/// Notifications for outside observers.
#[derive(Debug, Clone, Copy, PartialEq, Eq)]
pub enum Event {
    /// `amount` is to be credited to `who`.
    FaucetCalled { who: AccountId, amount: u128 },
}

/// Whether an account last served at block `last` (zero: never) may be
/// served at block `current`.
pub open spec fn drip_allowed(last: u32, current: u32, lock_period: u32) -> bool {
    last == 0 || current >= last + lock_period
}

/// The block at which `who` was last served; zero when never.
pub open spec fn last_drip_of(last_drip: Map<Seq<u8>, u32>, who: Seq<u8>) -> u32 {
    if last_drip.contains_key(who) {
        last_drip[who]
    } else {
        0
    }
}

/// The faucet's state: the block of each account's last drip, and the
/// notifications emitted so far.
pub struct Pallet {
    faucet_amount: u128,
    lock_period: u32,
    last_drip: Table<u32>,
    events: Vec<Event>,
}

impl Pallet {
    /// The table is well formed.
    pub closed spec fn wf(&self) -> bool {
        self.last_drip.wf()
    }

    /// The amount handed out by each drip.
    pub closed spec fn amount(&self) -> u128 {
        self.faucet_amount
    }

    /// The blocks that must pass between two drips.
    pub closed spec fn period(&self) -> u32 {
        self.lock_period
    }

    /// Account to the block of its last drip.
    pub closed spec fn last_drips(&self) -> Map<Seq<u8>, u32> {
        self.last_drip@
    }

    /// The notifications emitted, oldest first.
    pub closed spec fn event_log(&self) -> Seq<Event> {
        self.events@
    }

    /// A faucet that has served nobody yet.
    pub fn new(config: Config) -> (p: Pallet)
        ensures
            p.wf(),
            p.amount() == config.faucet_amount,
            p.period() == config.lock_period,
            p.last_drips() == Map::<Seq<u8>, u32>::empty(),
            p.event_log() == Seq::<Event>::empty(),
    {
        Pallet {
            faucet_amount: config.faucet_amount,
            lock_period: config.lock_period,
            last_drip: Table::new(),
            events: Vec::new(),
        }
    }

    /// Serves `who` at block `current_block`, unless it was served less than
    /// a lock period ago.
    pub fn drip(&mut self, who: AccountId, current_block: u32) -> (r: Result<(), Error>)
        requires
            old(self).wf(),
        ensures
            final(self).wf(),
            final(self).amount() == old(self).amount(),
            final(self).period() == old(self).period(),
            r is Ok <==> drip_allowed(
                last_drip_of(old(self).last_drips(), who@),
                current_block,
                old(self).period(),
            ),
            r is Ok ==> final(self).last_drips() == old(self).last_drips().insert(who@, current_block)
                && final(self).event_log() == old(self).event_log().push(
                Event::FaucetCalled { who, amount: old(self).amount() },
            ),
            r is Err ==> r == Err::<(), Error>(Error::DripTooSoon) && final(self).last_drips()
                == old(self).last_drips() && final(self).event_log() == old(self).event_log(),
    {
        let key = vstd::slice::slice_to_vec(who.as_slice());
        let last: u32 = match self.last_drip.get(key.as_slice()) {
            Some(b) => *b,
            None => 0,
        };
        if !(last == 0 || current_block as u64 >= last as u64 + self.lock_period as u64) {
            return Err(Error::DripTooSoon);
        }
        self.last_drip.insert(key, current_block);
        self.events.push(Event::FaucetCalled { who, amount: self.faucet_amount });
        Ok(())
    }

    /// The block of `who`'s last drip; zero when never.
    pub fn last_drip(&self, who: &AccountId) -> (r: u32)
        requires
            self.wf(),
        ensures
            r == last_drip_of(self.last_drips(), who@),
    {
        let key = vstd::slice::slice_to_vec(who.as_slice());
        match self.last_drip.get(key.as_slice()) {
            Some(b) => *b,
            None => 0,
        }
    }

    /// The notifications emitted, oldest first.
    pub fn events(&self) -> (r: &Vec<Event>)
        ensures
            r@ == self.event_log(),
    {
        &self.events
    }
}

} // verus!
