//! Instruments and the data feed registry.
//!
//! An instrument carries an immutable identifier (wrapped in a category
//! tag), a set of market-state fields updated atomically as one unit, and a
//! subscriber counter. Prices are held in integer minor units so that a
//! snapshot is a plain value.

use vstd::prelude::*;

verus! {

/// Exclusive upper bound of the randomized tick values, and of the
/// randomized inter-tick sleep durations a concurrent driver may use.
pub const TICK_RANGE: u64 = 1000;

/// Relies on rand::Rng::gen_range over the range 0..bound: the result is
/// drawn uniformly from [0, bound), and the call panics only on an empty
/// range, which the precondition rules out.
#[verifier::external_body]
fn random_below(bound: u64) -> (r: u64)
    requires
        bound > 0,
    ensures
        r < bound,
{
    rand::Rng::gen_range(&mut rand::thread_rng(), 0..bound)
}

/// The category of a tradable instrument; each variant carries the
/// instrument's identifier.
#[derive(Debug, Clone)]
pub enum Kind {
    Equity(String),
    Bond(String),
    Warrant(String),
    Currency(String),
}

/// The identifier carried by a category tag.
pub open spec fn name_of(k: Kind) -> Seq<char> {
    match k {
        Kind::Equity(s) => s@,
        Kind::Bond(s) => s@,
        Kind::Warrant(s) => s@,
        Kind::Currency(s) => s@,
    }
}

/// One consistent snapshot of an instrument's market state: prices in
/// integer minor units and the tick counter.
#[derive(Debug, Clone, Copy, PartialEq, Eq, Structural)]
pub struct Data {
    pub last: u64,
    pub bid: u64,
    pub ask: u64,
    pub open: u64,
    pub close: u64,
    pub tick: usize,
}

impl Data {
    /// One tick on the protected unit alone: set `last`, advance the tick
    /// counter, leave every other field untouched. A concurrent driver
    /// calls this while holding the exclusive side of whatever guards the
    /// unit, so a reader never sees the two writes torn apart.
    pub fn apply_tick(&mut self, new_last: u64)
        requires
            old(self).tick < usize::MAX,
        ensures
            final(self).last == new_last,
            final(self).tick == old(self).tick + 1,
            final(self).bid == old(self).bid,
            final(self).ask == old(self).ask,
            final(self).open == old(self).open,
            final(self).close == old(self).close,
    {
        self.last = new_last;
        self.tick = self.tick + 1;
    }
}

/// Whether a pushed notification is a full image or an incremental update.
#[derive(Debug, Clone, Copy, PartialEq, Eq, Structural)]
pub enum Push {
    Image,
    Update,
}

/// One notification pushed to subscribers: the instrument's identifier and
/// a consistent snapshot of its state at the moment of the push.
#[derive(Debug, Clone)]
pub struct Emission {
    pub push: Push,
    pub name: String,
    pub data: Data,
}

impl View for Emission {
    type V = (Push, Seq<char>, Data);

    open spec fn view(&self) -> (Push, Seq<char>, Data) {
        (self.push, self.name@, self.data)
    }
}

/// The image notification an instrument emits to a new subscriber.
pub open spec fn image_view(i: Instrument) -> (Push, Seq<char>, Data) {
    (Push::Image, name_of(i.kind), i.data)
}

/// The update notification an instrument emits after a tick.
pub open spec fn update_view(i: Instrument) -> (Push, Seq<char>, Data) {
    (Push::Update, name_of(i.kind), i.data)
}

/// A tradable instrument: immutable identity, market state, and the number
/// of interested subscribers.
#[derive(Debug)]
pub struct Instrument {
    pub kind: Kind,
    pub data: Data,
    pub subscribers: usize,
}

impl Instrument {
    /// A fresh instrument: zero-valued market state and no subscribers.
    pub fn new(kind: Kind) -> (r: Instrument)
        ensures
            r.kind == kind,
            r.data == (Data { last: 0, bid: 0, ask: 0, open: 0, close: 0, tick: 0 }),
            r.subscribers == 0,
    {
        Instrument {
            kind,
            data: Data { last: 0, bid: 0, ask: 0, open: 0, close: 0, tick: 0 },
            subscribers: 0,
        }
    }

    /// The instrument's identifier, regardless of its category.
    pub fn get_name(&self) -> (r: &String)
        ensures
            r@ == name_of(self.kind),
    {
        match &self.kind {
            Kind::Equity(equity) => equity,
            Kind::Bond(bond) => bond,
            Kind::Warrant(warrant) => warrant,
            Kind::Currency(currency) => currency,
        }
    }

    /// The immutable identity: the identifier together with its category
    /// tag. Pure and lock-free however the instrument is guarded.
    pub fn get_identity(&self) -> (r: (&String, &Kind))
        ensures
            r.0@ == name_of(self.kind),
            *r.1 == self.kind,
    {
        (self.get_name(), &self.kind)
    }

    /// How many subscribers are currently interested in this instrument.
    pub fn get_subscribers(&self) -> (r: usize)
        ensures
            r == self.subscribers,
    {
        self.subscribers
    }

    /// Record one more subscriber.
    pub fn increment_subscriber(&mut self)
        requires
            old(self).subscribers < usize::MAX,
        ensures
            final(self).subscribers == old(self).subscribers + 1,
            final(self).kind == old(self).kind,
            final(self).data == old(self).data,
    {
        self.subscribers = self.subscribers + 1;
    }

    /// A consistent snapshot of the whole market state, read as one unit.
    pub fn read_snapshot(&self) -> (r: Data)
        ensures
            r == self.data,
    {
        self.data
    }

    /// One atomic tick: set `last` to the new price and advance the tick
    /// counter; the remaining fields are untouched.
    pub fn apply_tick(&mut self, new_last: u64)
        requires
            old(self).data.tick < usize::MAX,
        ensures
            final(self).kind == old(self).kind,
            final(self).subscribers == old(self).subscribers,
            final(self).data.last == new_last,
            final(self).data.tick == old(self).data.tick + 1,
            final(self).data.bid == old(self).data.bid,
            final(self).data.ask == old(self).data.ask,
            final(self).data.open == old(self).data.open,
            final(self).data.close == old(self).data.close,
    {
        self.data.apply_tick(new_last);
    }

    /// The full-state image pushed to a newly interested subscriber.
    pub fn on_image(&self) -> (r: Emission)
        ensures
            r@ == image_view(*self),
    {
        Emission { push: Push::Image, name: self.get_name().clone(), data: self.data }
    }

    /// The incremental notification pushed after a tick.
    pub fn on_update(&self) -> (r: Emission)
        ensures
            r@ == update_view(*self),
    {
        Emission { push: Push::Update, name: self.get_name().clone(), data: self.data }
    }

    /// One simulated tick followed by the notification decision: the update
    /// is pushed if and only if somebody subscribed.
    pub fn tick_step(&mut self, new_last: u64) -> (r: Option<Emission>)
        requires
            old(self).data.tick < usize::MAX,
        ensures
            final(self).kind == old(self).kind,
            final(self).subscribers == old(self).subscribers,
            final(self).data.last == new_last,
            final(self).data.tick == old(self).data.tick + 1,
            final(self).data.bid == old(self).data.bid,
            final(self).data.ask == old(self).data.ask,
            final(self).data.open == old(self).data.open,
            final(self).data.close == old(self).data.close,
            match r {
                Some(em) => old(self).subscribers > 0 && em@ == update_view(*final(self)),
                None => old(self).subscribers == 0,
            },
    {
        self.apply_tick(new_last);
        if self.get_subscribers() > 0 {
            Some(self.on_update())
        } else {
            None
        }
    }

    /// The bounded simulation loop of one instrument: exactly `loops`
    /// randomized ticks, each followed by the notification decision.
    /// Returns the pushed updates, oldest first: one per tick when the
    /// instrument is subscribed, none at all when it is not.
    pub fn run(&mut self, loops: usize) -> (r: Vec<Emission>)
        requires
            old(self).data.tick + loops <= usize::MAX,
        ensures
            final(self).kind == old(self).kind,
            final(self).subscribers == old(self).subscribers,
            final(self).data.tick == old(self).data.tick + loops,
            final(self).data.bid == old(self).data.bid,
            final(self).data.ask == old(self).data.ask,
            final(self).data.open == old(self).data.open,
            final(self).data.close == old(self).data.close,
            loops > 0 ==> final(self).data.last < TICK_RANGE,
            loops == 0 ==> final(self).data == old(self).data,
            old(self).subscribers > 0 ==> r@.len() == loops,
            old(self).subscribers == 0 ==> r@.len() == 0,
            forall|k: int|
                0 <= k < r@.len() ==> (#[trigger] r@[k])@.0 == Push::Update
                    && r@[k]@.1 == name_of(old(self).kind)
                    && r@[k]@.2.tick == old(self).data.tick + k + 1
                    && r@[k]@.2.last < TICK_RANGE
                    && r@[k]@.2.bid == old(self).data.bid
                    && r@[k]@.2.ask == old(self).data.ask
                    && r@[k]@.2.open == old(self).data.open
                    && r@[k]@.2.close == old(self).data.close,
    {
        let mut out: Vec<Emission> = Vec::new();
        let mut n: usize = 0;
        while n < loops
            invariant
                n <= loops,
                old(self).data.tick + loops <= usize::MAX,
                self.kind == old(self).kind,
                self.subscribers == old(self).subscribers,
                self.data.tick == old(self).data.tick + n,
                self.data.bid == old(self).data.bid,
                self.data.ask == old(self).data.ask,
                self.data.open == old(self).data.open,
                self.data.close == old(self).data.close,
                n > 0 ==> self.data.last < TICK_RANGE,
                n == 0 ==> self.data == old(self).data,
                old(self).subscribers > 0 ==> out@.len() == n,
                old(self).subscribers == 0 ==> out@.len() == 0,
                forall|k: int|
                    0 <= k < out@.len() ==> (#[trigger] out@[k])@.0 == Push::Update
                        && out@[k]@.1 == name_of(old(self).kind)
                        && out@[k]@.2.tick == old(self).data.tick + k + 1
                        && out@[k]@.2.last < TICK_RANGE
                        && out@[k]@.2.bid == old(self).data.bid
                        && out@[k]@.2.ask == old(self).data.ask
                        && out@[k]@.2.open == old(self).data.open
                        && out@[k]@.2.close == old(self).data.close,
            decreases loops - n,
        {
            let v = random_below(TICK_RANGE);
            match self.tick_step(v) {
                Some(em) => out.push(em),
                None => {},
            }
            n = n + 1;
        }
        out
    }
}

/// Errors of the registry: an unknown identifier on subscription (a user
/// error, never fatal) and a duplicate identifier on registration.
#[derive(Debug, Clone, Copy, PartialEq, Eq, Structural)]
pub enum FeedError {
    NotFound,
    DuplicateIdentifier,
}

/// True when some instrument in `regs` carries the identifier `name`.
pub open spec fn has_name(regs: Seq<Instrument>, name: Seq<char>) -> bool {
    exists|j: int| 0 <= j < regs.len() && name_of(regs[j].kind) == name
}

/// The image notifications a flush pushes: one per instrument with
/// subscribers, in registry order.
pub open spec fn flush_emissions(regs: Seq<Instrument>) -> Seq<(Push, Seq<char>, Data)>
    decreases regs.len(),
{
    if regs.len() == 0 {
        Seq::empty()
    } else if regs.last().subscribers > 0 {
        flush_emissions(regs.drop_last()).push(image_view(regs.last()))
    } else {
        flush_emissions(regs.drop_last())
    }
}

/// The views of a sequence of emissions, in order.
pub open spec fn views_of(s: Seq<Emission>) -> Seq<(Push, Seq<char>, Data)> {
    s.map_values(|e: Emission| e@)
}

/// A named data feed owning its registry of instruments. The registry is
/// built by `add` calls before the simulation starts and is structurally
/// immutable afterwards; only the instruments' interior state changes.
pub struct DataFeed {
    pub name: String,
    pub registry: Vec<Instrument>,
}

impl DataFeed {
    /// Registry identifiers are unique.
    pub open spec fn wf(&self) -> bool {
        forall|i: int, j: int|
            0 <= i < j < self.registry@.len() ==> name_of(self.registry@[i].kind) != name_of(
                self.registry@[j].kind,
            )
    }

    /// An empty feed under the given name.
    pub fn new(name: String) -> (r: DataFeed)
        ensures
            r.name == name,
            r.registry@.len() == 0,
            r.wf(),
    {
        DataFeed { name, registry: Vec::new() }
    }

    /// The position of the instrument carrying `name`, if any.
    fn find(&self, name: &String) -> (r: Option<usize>)
        ensures
            match r {
                Some(j) => j < self.registry@.len() && name_of(self.registry@[j as int].kind)
                    == name@,
                None => !has_name(self.registry@, name@),
            },
    {
        let mut j: usize = 0;
        while j < self.registry.len()
            invariant
                j <= self.registry@.len(),
                forall|k: int| 0 <= k < j ==> name_of(self.registry@[k].kind) != name@,
            decreases self.registry@.len() - j,
        {
            if *self.registry[j].get_name() == *name {
                return Some(j);
            }
            j = j + 1;
        }
        None
    }

    /// Register an instrument under its identifier; a second registration
    /// of the same identifier is rejected and changes nothing.
    pub fn add(&mut self, i: Instrument) -> (r: Result<(), FeedError>)
        ensures
            final(self).name == old(self).name,
            r is Ok <==> !has_name(old(self).registry@, name_of(i.kind)),
            match r {
                Ok(()) => final(self).registry@ == old(self).registry@.push(i),
                Err(e) => e == FeedError::DuplicateIdentifier && final(self).registry@ == old(
                    self,
                ).registry@,
            },
            old(self).wf() ==> final(self).wf(),
    {
        match self.find(i.get_name()) {
            Some(j) => {
                proof {
                    assert(has_name(self.registry@, name_of(i.kind)));
                }
                Err(FeedError::DuplicateIdentifier)
            },
            None => {
                self.registry.push(i);
                Ok(())
            },
        }
    }

    /// Subscribe to an instrument by identifier: count the new subscriber
    /// and push one full-state image synchronously, as the return value.
    /// An unknown identifier is reported as `NotFound` and changes nothing.
    pub fn subscribe(&mut self, name: String) -> (r: Result<Emission, FeedError>)
        requires
            forall|j: int|
                0 <= j < old(self).registry@.len()
                    ==> (#[trigger] old(self).registry@[j]).subscribers < usize::MAX,
        ensures
            final(self).name == old(self).name,
            final(self).registry@.len() == old(self).registry@.len(),
            r is Ok <==> has_name(old(self).registry@, name@),
            match r {
                Ok(em) => exists|j: int|
                    {
                        &&& 0 <= j < old(self).registry@.len()
                        &&& name_of((#[trigger] old(self).registry@[j]).kind) == name@
                        &&& final(self).registry@[j].kind == old(self).registry@[j].kind
                        &&& final(self).registry@[j].data == old(self).registry@[j].data
                        &&& final(self).registry@[j].subscribers == old(self).registry@[j].subscribers
                            + 1
                        &&& em@ == image_view(final(self).registry@[j])
                        &&& forall|k: int|
                            0 <= k < old(self).registry@.len() && k != j
                                ==> final(self).registry@[k] == old(self).registry@[k]
                    },
                Err(e) => e == FeedError::NotFound && final(self).registry@ == old(self).registry@,
            },
            old(self).wf() ==> final(self).wf(),
    {
        match self.find(&name) {
            Some(j) => {
                let inst = &mut self.registry[j];
                inst.increment_subscriber();
                let em = self.registry[j].on_image();
                Ok(em)
            },
            None => Err(FeedError::NotFound),
        }
    }

    /// Push one full-state image for every instrument that currently has
    /// subscribers, in registry order; unsubscribed instruments push
    /// nothing. Uses only read paths, so a concurrent driver may interleave
    /// it freely with ticks.
    pub fn flush(&self) -> (r: Vec<Emission>)
        ensures
            views_of(r@) == flush_emissions(self.registry@),
    {
        let mut out: Vec<Emission> = Vec::new();
        let mut j: usize = 0;
        while j < self.registry.len()
            invariant
                j <= self.registry@.len(),
                views_of(out@) == flush_emissions(self.registry@.take(j as int)),
            decreases self.registry@.len() - j,
        {
            proof {
                assert(self.registry@.take(j + 1).drop_last() =~= self.registry@.take(j as int));
                assert(self.registry@.take(j + 1).last() == self.registry@[j as int]);
            }
            if self.registry[j].get_subscribers() > 0 {
                let em = self.registry[j].on_image();
                proof {
                    assert(views_of(out@.push(em)) =~= views_of(out@).push(em@));
                }
                out.push(em);
            }
            j = j + 1;
        }
        proof {
            assert(self.registry@.take(self.registry@.len() as int) =~= self.registry@);
        }
        out
    }

    /// Drive the bounded simulation of every registered instrument to its
    /// `Completed` state: each performs exactly `loops` randomized ticks
    /// and pushes one update per tick only while it has subscribers. Entry
    /// `j` of the result holds the updates of instrument `j`, oldest first;
    /// a concurrent driver gives no ordering across instruments.
    pub fn start(&mut self, loops: usize) -> (r: Vec<Vec<Emission>>)
        requires
            forall|j: int|
                0 <= j < old(self).registry@.len()
                    ==> (#[trigger] old(self).registry@[j]).data.tick + loops <= usize::MAX,
        ensures
            final(self).name == old(self).name,
            final(self).registry@.len() == old(self).registry@.len(),
            r@.len() == old(self).registry@.len(),
            forall|j: int|
                0 <= j < old(self).registry@.len() ==> {
                    &&& (#[trigger] final(self).registry@[j]).kind == old(self).registry@[j].kind
                    &&& final(self).registry@[j].subscribers == old(self).registry@[j].subscribers
                    &&& final(self).registry@[j].data.tick == old(self).registry@[j].data.tick
                        + loops
                    &&& final(self).registry@[j].data.bid == old(self).registry@[j].data.bid
                    &&& final(self).registry@[j].data.ask == old(self).registry@[j].data.ask
                    &&& final(self).registry@[j].data.open == old(self).registry@[j].data.open
                    &&& final(self).registry@[j].data.close == old(self).registry@[j].data.close
                    &&& old(self).registry@[j].subscribers > 0 ==> r@[j]@.len() == loops
                    &&& old(self).registry@[j].subscribers == 0 ==> r@[j]@.len() == 0
                    &&& forall|k: int|
                        0 <= k < r@[j]@.len() ==> {
                            &&& (#[trigger] r@[j]@[k])@.0 == Push::Update
                            &&& r@[j]@[k]@.1 == name_of(old(self).registry@[j].kind)
                            &&& r@[j]@[k]@.2.tick == old(self).registry@[j].data.tick + k + 1
                            &&& r@[j]@[k]@.2.last < TICK_RANGE
                            &&& r@[j]@[k]@.2.bid == old(self).registry@[j].data.bid
                            &&& r@[j]@[k]@.2.ask == old(self).registry@[j].data.ask
                            &&& r@[j]@[k]@.2.open == old(self).registry@[j].data.open
                            &&& r@[j]@[k]@.2.close == old(self).registry@[j].data.close
                        }
                },
            old(self).wf() ==> final(self).wf(),
    {
        let mut out: Vec<Vec<Emission>> = Vec::new();
        let mut j: usize = 0;
        while j < self.registry.len()
            invariant
                j <= self.registry@.len(),
                self.name == old(self).name,
                self.registry@.len() == old(self).registry@.len(),
                out@.len() == j,
                forall|k: int|
                    j <= k < self.registry@.len() ==> #[trigger] self.registry@[k] == old(
                        self,
                    ).registry@[k],
                forall|k: int|
                    0 <= k < old(self).registry@.len()
                        ==> (#[trigger] old(self).registry@[k]).data.tick + loops <= usize::MAX,
                forall|i: int|
                    0 <= i < j ==> {
                        &&& (#[trigger] self.registry@[i]).kind == old(self).registry@[i].kind
                        &&& self.registry@[i].subscribers == old(self).registry@[i].subscribers
                        &&& self.registry@[i].data.tick == old(self).registry@[i].data.tick + loops
                        &&& self.registry@[i].data.bid == old(self).registry@[i].data.bid
                        &&& self.registry@[i].data.ask == old(self).registry@[i].data.ask
                        &&& self.registry@[i].data.open == old(self).registry@[i].data.open
                        &&& self.registry@[i].data.close == old(self).registry@[i].data.close
                        &&& old(self).registry@[i].subscribers > 0 ==> out@[i]@.len() == loops
                        &&& old(self).registry@[i].subscribers == 0 ==> out@[i]@.len() == 0
                        &&& forall|k: int|
                            0 <= k < out@[i]@.len() ==> {
                                &&& (#[trigger] out@[i]@[k])@.0 == Push::Update
                                &&& out@[i]@[k]@.1 == name_of(old(self).registry@[i].kind)
                                &&& out@[i]@[k]@.2.tick == old(self).registry@[i].data.tick + k + 1
                                &&& out@[i]@[k]@.2.last < TICK_RANGE
                                &&& out@[i]@[k]@.2.bid == old(self).registry@[i].data.bid
                                &&& out@[i]@[k]@.2.ask == old(self).registry@[i].data.ask
                                &&& out@[i]@[k]@.2.open == old(self).registry@[i].data.open
                                &&& out@[i]@[k]@.2.close == old(self).registry@[i].data.close
                            }
                    },
            decreases self.registry@.len() - j,
        {
            let inst = &mut self.registry[j];
            let ems = inst.run(loops);
            out.push(ems);
            j = j + 1;
        }
        out
    }
}

/// A flush over a registry in which no instrument was ever subscribed
/// pushes no notification at all.
pub proof fn lemma_flush_silent(regs: Seq<Instrument>)
    requires
        forall|j: int| 0 <= j < regs.len() ==> (#[trigger] regs[j]).subscribers == 0,
    ensures
        flush_emissions(regs).len() == 0,
    decreases regs.len(),
{
    if regs.len() > 0 {
        lemma_flush_silent(regs.drop_last());
    }
}

/// Along one instrument's run, the tick counter carried by successive
/// updates is strictly increasing: a reader that follows the stream never
/// observes it decrease, and it advances exactly once per tick. The update
/// stream `run` returns satisfies the premise, with `t0` the tick count on
/// entry.
pub proof fn lemma_updates_strictly_increase(ems: Seq<(Push, Seq<char>, Data)>, t0: int)
    requires
        forall|k: int| 0 <= k < ems.len() ==> (#[trigger] ems[k]).2.tick == t0 + k + 1,
    ensures
        forall|k1: int, k2: int| 0 <= k1 < k2 < ems.len() ==> ems[k1].2.tick < ems[k2].2.tick,
{
}

/// An instrument that was never subscribed reports exactly one subscriber
/// after a single subscription: `new` starts the count at zero, and one
/// `subscribe` adds exactly one, so the count then reads one.
pub proof fn lemma_single_subscription(before: Instrument, after: Instrument)
    requires
        before.subscribers == 0,
        after.subscribers == before.subscribers + 1,
    ensures
        after.subscribers == 1,
{
}

} // verus!
