//! The bulk-load driver: a two-state machine that accumulates generated
//! triples into per-kind batch buffers, reports when a relational flush is
//! due, evaluates the volume-ceiling stop at flush boundaries only, and
//! flushes any partial final batch so no generated record is dropped.

use vstd::prelude::*;
use vstd::arithmetic::div_mod::lemma_fundamental_div_mod_converse;
use crate::buffer::BatchBuffer;
use crate::models::{Order, Product, User};

verus! {

/// The two states of the bulk phase.
#[derive(Clone, Copy, PartialEq, Eq, Structural, Debug)]
pub enum Phase {
    Generating,
    Stopped,
}

/// Process-start-time configuration of the bulk phase.
#[derive(Clone, Copy, PartialEq, Eq, Structural, Debug)]
pub struct BulkConfig {
    /// Total number of record triples to generate.
    pub total_records: u64,
    /// Number of triples accumulated before one relational flush.
    pub batch_size: usize,
    /// Combined file-sink size, in bytes, at which the bulk phase stops.
    pub volume_ceiling: u64,
}

/// One relational flush: the three per-kind batches drained together, each
/// in insertion order.
pub struct FlushBatches {
    pub users: Vec<User>,
    pub products: Vec<Product>,
    pub orders: Vec<Order>,
}

/// The number of relational flush events a complete run of `total` records
/// with batches of `batch` performs: one per full batch, plus one for a
/// partial final batch.
pub open spec fn required_flushes(total: int, batch: int) -> int
    recommends
        batch >= 1,
{
    if total % batch == 0 {
        total / batch
    } else {
        total / batch + 1
    }
}

/// The bulk-load driver. It owns the three batch buffers; the caller routes
/// each generated triple to the file sinks itself and performs the
/// relational writes that the driver hands out.
pub struct BulkDriver {
    pub config: BulkConfig,
    /// Triples generated so far.
    pub generated: u64,
    /// Relational flush events so far.
    pub flushes: u64,
    pub phase: Phase,
    pub users: BatchBuffer<User>,
    pub products: BatchBuffer<Product>,
    pub orders: BatchBuffer<Order>,
}

impl BulkDriver {
    /// The driver invariant: the three buffers move in lockstep, hold
    /// strictly less than one batch between steps, and the generated count
    /// splits exactly into full flushes plus the buffered remainder.
    pub open spec fn wf(self) -> bool {
        &&& self.config.batch_size >= 1
        &&& self.users.cap() == self.config.batch_size
        &&& self.products.cap() == self.config.batch_size
        &&& self.orders.cap() == self.config.batch_size
        &&& self.products@.len() == self.users@.len()
        &&& self.orders@.len() == self.users@.len()
        &&& self.users@.len() < self.config.batch_size
        &&& self.phase is Generating ==> self.generated as int == self.flushes as int
            * self.config.batch_size as int + self.users@.len() as int
        &&& self.phase is Stopped ==> self.users@.len() == 0 && self.flushes as int
            == required_flushes(self.generated as int, self.config.batch_size as int)
    }

    /// Whether the driver still owes a generation step: it is Generating and
    /// the total-record target is not reached.
    pub open spec fn can_generate(self) -> bool {
        self.phase is Generating && self.generated < self.config.total_records
    }

    /// A fresh driver in the Generating state with empty buffers.
    pub fn new(config: BulkConfig) -> (d: BulkDriver)
        requires
            config.batch_size >= 1,
        ensures
            d.wf(),
            d.config == config,
            d.generated == 0,
            d.flushes == 0,
            d.phase is Generating,
            d.users@ == Seq::<User>::empty(),
            d.products@ == Seq::<Product>::empty(),
            d.orders@ == Seq::<Order>::empty(),
    {
        BulkDriver {
            config,
            generated: 0,
            flushes: 0,
            phase: Phase::Generating,
            users: BatchBuffer::new(config.batch_size),
            products: BatchBuffer::new(config.batch_size),
            orders: BatchBuffer::new(config.batch_size),
        }
    }

    /// Whether the caller should perform another generation step.
    pub fn should_generate(&self) -> (r: bool)
        ensures
            r == self.can_generate(),
    {
        self.phase == Phase::Generating && self.generated < self.config.total_records
    }

    /// Records one generated triple: appends it to the three buffers and
    /// advances the progress counter. Exactly when the appended count
    /// reaches the batch size, the buffers are drained and returned as one
    /// flush event, due at the relational sink as a whole.
    pub fn record_triple(&mut self, u: User, p: Product, o: Order) -> (flush: Option<FlushBatches>)
        requires
            old(self).wf(),
            old(self).can_generate(),
        ensures
            final(self).wf(),
            final(self).config == old(self).config,
            final(self).phase == old(self).phase,
            final(self).generated == old(self).generated + 1,
            match flush {
                Some(b) => {
                    &&& old(self).users@.len() + 1 == old(self).config.batch_size
                    &&& b.users@ == old(self).users@.push(u)
                    &&& b.products@ == old(self).products@.push(p)
                    &&& b.orders@ == old(self).orders@.push(o)
                    &&& final(self).users@ == Seq::<User>::empty()
                    &&& final(self).products@ == Seq::<Product>::empty()
                    &&& final(self).orders@ == Seq::<Order>::empty()
                    &&& final(self).flushes == old(self).flushes + 1
                },
                None => {
                    &&& old(self).users@.len() + 1 < old(self).config.batch_size
                    &&& final(self).users@ == old(self).users@.push(u)
                    &&& final(self).products@ == old(self).products@.push(p)
                    &&& final(self).orders@ == old(self).orders@.push(o)
                    &&& final(self).flushes == old(self).flushes
                },
            },
    {
        proof {
            lemma_flushes_below_generated(
                self.flushes as int,
                self.config.batch_size as int,
                self.users@.len() as int,
                self.generated as int,
            );
        }
        self.users.append(u);
        self.products.append(p);
        self.orders.append(o);
        self.generated = self.generated + 1;
        if self.users.is_full() {
            let users = self.users.drain();
            let products = self.products.drain();
            let orders = self.orders.drain();
            self.flushes = self.flushes + 1;
            proof {
                let f = old(self).flushes as int;
                let b = old(self).config.batch_size as int;
                assert((f + 1) * b == f * b + b) by (nonlinear_arith);
            }
            Some(FlushBatches { users, products, orders })
        } else {
            None
        }
    }

    /// Evaluates the volume-ceiling stop at a flush boundary: when the
    /// combined file-sink size meets or exceeds the ceiling, the driver
    /// stops, and no further record is generated afterward; below the
    /// ceiling nothing changes.
    pub fn observe_volume(&mut self, total_size_bytes: u64)
        requires
            old(self).wf(),
            old(self).users@.len() == 0,
        ensures
            final(self).wf(),
            final(self).config == old(self).config,
            final(self).generated == old(self).generated,
            final(self).flushes == old(self).flushes,
            final(self).users@ == old(self).users@,
            final(self).products@ == old(self).products@,
            final(self).orders@ == old(self).orders@,
            total_size_bytes >= old(self).config.volume_ceiling ==> final(self).phase is Stopped
                && !final(self).can_generate(),
            total_size_bytes < old(self).config.volume_ceiling ==> final(self).phase == old(
                self,
            ).phase,
    {
        proof {
            if self.phase is Generating {
                lemma_fundamental_div_mod_converse(
                    self.generated as int,
                    self.config.batch_size as int,
                    self.flushes as int,
                    0,
                );
            }
        }
        if total_size_bytes >= self.config.volume_ceiling {
            self.phase = Phase::Stopped;
        }
    }

    /// Transitions to Stopped once no generation step is owed, draining any
    /// partially filled buffers as one last flush event so no generated
    /// record is dropped. Afterwards the flush count is exactly the number
    /// a complete run of the generated records requires: one flush per full
    /// batch plus one for a partial final batch.
    pub fn finish(&mut self) -> (tail: Option<FlushBatches>)
        requires
            old(self).wf(),
            !old(self).can_generate(),
        ensures
            final(self).wf(),
            final(self).config == old(self).config,
            final(self).generated == old(self).generated,
            final(self).phase is Stopped,
            match tail {
                Some(b) => {
                    &&& old(self).users@.len() > 0
                    &&& b.users@ == old(self).users@
                    &&& b.products@ == old(self).products@
                    &&& b.orders@ == old(self).orders@
                    &&& final(self).flushes == old(self).flushes + 1
                },
                None => {
                    &&& old(self).users@.len() == 0
                    &&& final(self).flushes == old(self).flushes
                },
            },
            final(self).flushes as int == required_flushes(
                old(self).generated as int,
                old(self).config.batch_size as int,
            ),
    {
        proof {
            if self.phase is Generating {
                lemma_flushes_below_generated(
                    self.flushes as int,
                    self.config.batch_size as int,
                    self.users@.len() as int,
                    self.generated as int,
                );
                lemma_fundamental_div_mod_converse(
                    self.generated as int,
                    self.config.batch_size as int,
                    self.flushes as int,
                    self.users@.len() as int,
                );
            }
        }
        self.phase = Phase::Stopped;
        if self.users.len() > 0 {
            let users = self.users.drain();
            let products = self.products.drain();
            let orders = self.orders.drain();
            self.flushes = self.flushes + 1;
            Some(FlushBatches { users, products, orders })
        } else {
            None
        }
    }
}

/// When `generated` splits as `flushes` full batches plus a remainder, the
/// flush count cannot exceed the generated count, so incrementing it cannot
/// overflow a counter that `generated` fits in.
proof fn lemma_flushes_below_generated(flushes: int, batch: int, rest: int, generated: int)
    requires
        batch >= 1,
        flushes >= 0,
        rest >= 0,
        generated == flushes * batch + rest,
    ensures
        flushes + rest <= generated,
{
    assert(flushes * batch >= flushes * 1) by (nonlinear_arith)
        requires
            batch >= 1,
            flushes >= 0,
    ;
}

} // verus!
