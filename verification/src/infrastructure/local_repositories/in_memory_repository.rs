//! Orders that could not reach the remote stores yet, kept in memory in
//! arrival order, one queue per destination.
use crate::domain::models::Destination;
use crate::models::model::Order;
use std::collections::VecDeque;
use vstd::prelude::*;

verus! {

/// The two queues of orders waiting for a retry.
pub struct InMemoryReposiory {
    postgres_raw_data: VecDeque<Order>,
    redis_raw_data: VecDeque<Order>,
}

impl InMemoryReposiory {
    /// The orders waiting for `dest`, oldest first.
    pub closed spec fn queue(&self, dest: Destination) -> Seq<Order> {
        match dest {
            Destination::Postgres => self.postgres_raw_data@,
            Destination::Redis => self.redis_raw_data@,
        }
    }

    /// Both queues are empty.
    pub fn new() -> (r: Self)
        ensures
            r.queue(Destination::Postgres) == Seq::<Order>::empty(),
            r.queue(Destination::Redis) == Seq::<Order>::empty(),
    {
        InMemoryReposiory { postgres_raw_data: VecDeque::new(), redis_raw_data: VecDeque::new() }
    }

    /// Replaces the contents of both queues: the first list goes to Postgres
    /// (and Redis), the second to Redis alone.
    pub fn save_raw_orders(&mut self, orders: (VecDeque<Order>, VecDeque<Order>))
        ensures
            final(self).queue(Destination::Postgres) == orders.0@,
            final(self).queue(Destination::Redis) == orders.1@,
    {
        self.postgres_raw_data = orders.0;
        self.redis_raw_data = orders.1;
    }

    /// Appends an order at the back of the queue for `dest`.
    pub fn save_raw_order(&mut self, dest: Destination, order: Order)
        ensures
            final(self).queue(dest) == old(self).queue(dest).push(order),
            final(self).queue(other_destination(dest)) == old(self).queue(other_destination(dest)),
    {
        match dest {
            Destination::Postgres => self.postgres_raw_data.push_back(order),
            Destination::Redis => self.redis_raw_data.push_back(order),
        }
    }

    /// Takes the oldest order waiting for `dest`, if any.
    pub fn take_next(&mut self, dest: Destination) -> (r: Option<Order>)
        ensures
            old(self).queue(dest).len() == 0 ==> r is None && final(self).queue(dest) == old(
                self,
            ).queue(dest),
            old(self).queue(dest).len() > 0 ==> r == Some(old(self).queue(dest)[0])
                && final(self).queue(dest) == old(self).queue(dest).drop_first(),
            final(self).queue(other_destination(dest)) == old(self).queue(other_destination(dest)),
    {
        let r = match dest {
            Destination::Postgres => self.postgres_raw_data.pop_front(),
            Destination::Redis => self.redis_raw_data.pop_front(),
        };
        proof {
            if old(self).queue(dest).len() > 0 {
                assert(old(self).queue(dest).subrange(1, old(self).queue(dest).len() as int)
                    =~= old(self).queue(dest).drop_first());
            }
        }
        r
    }

    /// The orders waiting for `dest`, oldest first.
    pub fn get_raw_orders(&self, dest: Destination) -> (r: &VecDeque<Order>)
        ensures
            r@ == self.queue(dest),
    {
        match dest {
            Destination::Postgres => &self.postgres_raw_data,
            _ => &self.redis_raw_data,
        }
    }
}

/// The destination other than `dest`.
pub open spec fn other_destination(dest: Destination) -> Destination {
    match dest {
        Destination::Postgres => Destination::Redis,
        Destination::Redis => Destination::Postgres,
    }
}

} // verus!
