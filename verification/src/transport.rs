use vstd::prelude::*;

verus! {

/// Who may ride a sky train.
#[derive(Debug, Clone, Copy, PartialEq, Eq, Structural)]
pub enum TrainType {
    Public,
    Private,
}

/// A sky train that carries players from one room to another.
#[derive(Debug, Clone)]
pub struct SkyTrain {
    pub origin: String,
    pub destination: String,
    pub train_type: TrainType,
    pub in_transit: bool,
}

/// The mathematical state of a sky train.
pub struct TrainView {
    pub origin: Seq<char>,
    pub destination: Seq<char>,
    pub train_type: TrainType,
    pub in_transit: bool,
}

impl View for SkyTrain {
    type V = TrainView;

    open spec fn view(&self) -> TrainView {
        TrainView {
            origin: self.origin@,
            destination: self.destination@,
            train_type: self.train_type,
            in_transit: self.in_transit,
        }
    }
}

/// A train that waits at `origin` for the trip to `destination`.
pub open spec fn waiting_train(origin: Seq<char>, destination: Seq<char>, train_type: TrainType) -> TrainView {
    TrainView { origin, destination, train_type, in_transit: false }
}

/// The same train with its passengers on board and under way.
pub open spec fn boarded(t: TrainView) -> TrainView {
    TrainView { in_transit: true, ..t }
}

/// The same train, come to a halt at the end of its trip.
pub open spec fn arrived(t: TrainView) -> TrainView {
    TrainView { in_transit: false, ..t }
}

impl SkyTrain {
    /// A train on the route from `origin` to `destination`, not yet moving.
    pub fn new(origin: String, destination: String, train_type: TrainType) -> (train: SkyTrain)
        ensures
            train@ == waiting_train(origin@, destination@, train_type),
    {
        SkyTrain { origin, destination, train_type, in_transit: false }
    }

    /// Passengers board and the train leaves.
    pub fn board(&mut self)
        ensures
            final(self)@ == boarded(old(self)@),
    {
        self.in_transit = true;
    }

    /// The train reaches its destination and stops.
    pub fn arrive(&mut self)
        ensures
            final(self)@ == arrived(old(self)@),
    {
        self.in_transit = false;
    }
}

/// A trip ends where it began, in state: a train that boards and then arrives
/// is on the same route and no longer moving, and a train just made for a
/// route that boards and arrives is the train that was made.
pub proof fn lemma_trip_returns_to_rest(t: TrainView)
    ensures
        arrived(boarded(t)) == arrived(t),
        arrived(boarded(t)).origin == t.origin,
        arrived(boarded(t)).destination == t.destination,
        arrived(boarded(t)).train_type == t.train_type,
        !arrived(boarded(t)).in_transit,
        boarded(t).in_transit,
        forall|o: Seq<char>, d: Seq<char>, k: TrainType|
            #![trigger waiting_train(o, d, k)]
            arrived(boarded(waiting_train(o, d, k))) == waiting_train(o, d, k),
{
}

} // verus!
