//! A train station mediating arrivals and departures: one train on the
//! platform at a time, the rest waiting in a queue. The station tracks trains
//! by name.

use std::collections::VecDeque;
use vstd::prelude::*;
use vstd::string::StringExecFns;

verus! {

/// A mediator grants the platform to one arrival at a time and queues the
/// rest.
pub trait Mediator {
    /// The name of the train on the platform, if any.
    spec fn platform(&self) -> Option<Seq<char>>;

    /// The names waiting for the platform, in arrival order.
    spec fn queue(&self) -> Seq<Seq<char>>;

    /// Announces an arrival. The train takes the platform when it is free,
    /// and joins the queue otherwise; the result says whether it got the
    /// platform.
    fn notify_about_arrival(&mut self, train_name: &str) -> (r: bool)
        ensures
            match old(self).platform() {
                Some(_) => !r && final(self).platform() == old(self).platform() && final(self).queue() == old(self).queue().push(train_name@),
                None => r && final(self).platform() == Some(train_name@) && final(self).queue()
                    == old(self).queue(),
            },
    ;

    /// Announces a departure. When the named train holds the platform, it is
    /// released to the queue's head (or left empty); otherwise nothing
    /// changes.
    fn notify_about_departure(&mut self, train_name: &str)
        ensures
            if old(self).platform() == Some(train_name@) {
                if old(self).queue().len() > 0 {
                    final(self).platform() == Some(old(self).queue()[0]) && final(self).queue()
                        == old(self).queue().drop_first()
                } else {
                    final(self).platform() is None && final(self).queue() == old(self).queue()
                }
            } else {
                final(self).platform() == old(self).platform() && final(self).queue() == old(self).queue()
            },
    ;
}

/// A station with one platform and a waiting queue.
pub struct TrainStation {
    train_queue: VecDeque<String>,
    train_on_platform: Option<String>,
}

impl TrainStation {
    /// The name of the train on the platform, if any.
    pub closed spec fn spec_platform(&self) -> Option<Seq<char>> {
        match self.train_on_platform {
            Some(ref name) => Some(name@),
            None => None,
        }
    }

    /// The waiting names in arrival order.
    pub closed spec fn spec_queue(&self) -> Seq<Seq<char>> {
        self.train_queue@.map_values(|s: String| s@)
    }
}

impl Default for TrainStation {
    /// An empty station: free platform, empty queue.
    fn default() -> (s: TrainStation)
        ensures
            s.spec_platform() is None,
            s.spec_queue().len() == 0,
    {
        let s = TrainStation { train_queue: VecDeque::new(), train_on_platform: None };
        proof {
            assert(s.spec_queue() =~= Seq::<Seq<char>>::empty());
        }
        s
    }
}

impl Mediator for TrainStation {
    open spec fn platform(&self) -> Option<Seq<char>> {
        self.spec_platform()
    }

    open spec fn queue(&self) -> Seq<Seq<char>> {
        self.spec_queue()
    }

    fn notify_about_arrival(&mut self, train_name: &str) -> (r: bool) {
        if self.train_on_platform.is_some() {
            self.train_queue.push_back(train_name.to_owned());
            proof {
                assert(self.spec_queue() =~= old(self).spec_queue().push(train_name@));
            }
            false
        } else {
            self.train_on_platform = Some(train_name.to_owned());
            true
        }
    }

    fn notify_about_departure(&mut self, train_name: &str) {
        let name = train_name.to_owned();
        let on_platform = match &self.train_on_platform {
            Some(p) => *p == name,
            None => false,
        };
        if on_platform {
            self.train_on_platform = self.train_queue.pop_front();
            proof {
                if old(self).spec_queue().len() > 0 {
                    assert(self.spec_queue() =~= old(self).spec_queue().drop_first());
                }
            }
        }
    }
}

/// A train announcing itself to a mediator by its name.
pub trait Train {
    /// The train's name.
    spec fn spec_name(&self) -> Seq<char>;

    /// Returns the train's name.
    fn name(&self) -> (n: &String)
        ensures
            n@ == self.spec_name(),
    ;

    /// Arrives at the station; the result says whether the train got the
    /// platform rather than a place in the queue.
    fn arrive<M: Mediator>(&mut self, mediator: &mut M) -> (r: bool)
        ensures
            self == old(self),
            match old(mediator).platform() {
                Some(_) => !r && final(mediator).platform() == old(mediator).platform() && final(mediator).queue() == old(mediator).queue().push(old(self).spec_name()),
                None => r && final(mediator).platform() == Some(old(self).spec_name()) && final(mediator).queue() == old(mediator).queue(),
            },
    ;

    /// Departs, releasing the platform when this train holds it.
    fn depart<M: Mediator>(&mut self, mediator: &mut M)
        ensures
            self == old(self),
            if old(mediator).platform() == Some(old(self).spec_name()) {
                if old(mediator).queue().len() > 0 {
                    final(mediator).platform() == Some(old(mediator).queue()[0]) && final(mediator).queue() == old(mediator).queue().drop_first()
                } else {
                    final(mediator).platform() is None && final(mediator).queue() == old(mediator).queue()
                }
            } else {
                final(mediator).platform() == old(mediator).platform() && final(mediator).queue()
                    == old(mediator).queue()
            },
    ;
}

/// A freight train.
pub struct FreightTrain {
    name: String,
}

impl FreightTrain {
    /// A freight train with this name.
    pub fn new(name: &str) -> (t: FreightTrain)
        ensures
            t.spec_name() == name@,
    {
        FreightTrain { name: name.to_owned() }
    }
}

impl Train for FreightTrain {
    closed spec fn spec_name(&self) -> Seq<char> {
        self.name@
    }

    fn name(&self) -> (n: &String) {
        &self.name
    }

    fn arrive<M: Mediator>(&mut self, mediator: &mut M) -> (r: bool) {
        mediator.notify_about_arrival(self.name.as_str())
    }

    fn depart<M: Mediator>(&mut self, mediator: &mut M) {
        mediator.notify_about_departure(self.name.as_str());
    }
}

/// A passenger train.
pub struct PassengerTrain {
    name: String,
}

impl PassengerTrain {
    /// A passenger train with this name.
    pub fn new(name: &str) -> (t: PassengerTrain)
        ensures
            t.spec_name() == name@,
    {
        PassengerTrain { name: name.to_owned() }
    }
}

impl Train for PassengerTrain {
    closed spec fn spec_name(&self) -> Seq<char> {
        self.name@
    }

    fn name(&self) -> (n: &String) {
        &self.name
    }

    fn arrive<M: Mediator>(&mut self, mediator: &mut M) -> (r: bool) {
        mediator.notify_about_arrival(self.name.as_str())
    }

    fn depart<M: Mediator>(&mut self, mediator: &mut M) {
        mediator.notify_about_departure(self.name.as_str());
    }
}

} // verus!
