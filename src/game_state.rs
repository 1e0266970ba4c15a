use vstd::prelude::*;
use crate::ball::{Ball, BallA, ball_to_lanes, lanes_to_ball};
use crate::boostpad::{BoostPad, BoostPadA, pad_to_lanes, lanes_to_pad};
use crate::car::{
    Car, CarA, CarConfig, CarConfigA, Team, car_to_lanes, lanes_to_car, config_to_lanes,
    lanes_to_config,
};

verus! {

/// One roster entry in canonical form: id, team, car and archetype.
pub type CarEntry = (u32, Team, Car, CarConfig);

/// One roster entry in lane-packed form.
pub type CarEntryA = (u32, Team, CarA, CarConfigA);

/// A whole snapshot of a match in canonical form.
#[derive(Clone, Debug)]
pub struct GameState {
    /// Ticks per simulated second, as a float's bit pattern.
    pub tick_rate: u32,
    pub tick_count: u64,
    pub cars: Vec<CarEntry>,
    pub ball: Ball,
    pub pads: Vec<BoostPad>,
}

/// A whole snapshot of a match in lane-packed form.
#[derive(Clone, Debug)]
pub struct GameStateA {
    pub tick_rate: u32,
    pub tick_count: u64,
    pub cars: Vec<CarEntryA>,
    pub ball: BallA,
    pub pads: Vec<BoostPadA>,
}

pub open spec fn entry_to_lanes(e: CarEntry) -> CarEntryA {
    (e.0, e.1, car_to_lanes(e.2), config_to_lanes(e.3))
}

pub open spec fn lanes_to_entry(e: CarEntryA) -> CarEntry {
    (e.0, e.1, lanes_to_car(e.2), lanes_to_config(e.3))
}

/// Every vector in the snapshot has a clear padding lane.
pub open spec fn state_padding_clear(g: GameState) -> bool {
    &&& g.ball.padding_clear()
    &&& forall|i: int| 0 <= i < g.cars@.len() ==> (#[trigger] g.cars@[i]).2.padding_clear()
        && g.cars@[i].3.padding_clear()
    &&& forall|i: int| 0 <= i < g.pads@.len() ==> (#[trigger] g.pads@[i]).position._w == 0
}

impl GameStateA {
    /// The lane-packed snapshot: every entity converted on its own, the
    /// order of cars and pads kept.
    pub fn from_state(value: &GameState) -> (r: GameStateA)
        ensures
            r.tick_rate == value.tick_rate,
            r.tick_count == value.tick_count,
            r.cars@ == value.cars@.map_values(|e: CarEntry| entry_to_lanes(e)),
            r.ball == ball_to_lanes(value.ball),
            r.pads@ == value.pads@.map_values(|p: BoostPad| pad_to_lanes(p)),
    {
        let mut cars: Vec<CarEntryA> = Vec::new();
        let mut i: usize = 0;
        while i < value.cars.len()
            invariant
                i <= value.cars@.len(),
                cars@.len() == i,
                forall|j: int| 0 <= j < i ==> cars@[j] == entry_to_lanes(value.cars@[j]),
            decreases value.cars@.len() - i,
        {
            let e = value.cars[i];
            cars.push((e.0, e.1, CarA::from(e.2), CarConfigA::from(e.3)));
            i += 1;
        }
        let mut pads: Vec<BoostPadA> = Vec::new();
        let mut k: usize = 0;
        while k < value.pads.len()
            invariant
                k <= value.pads@.len(),
                pads@.len() == k,
                forall|j: int| 0 <= j < k ==> pads@[j] == pad_to_lanes(value.pads@[j]),
            decreases value.pads@.len() - k,
        {
            pads.push(BoostPadA::from(value.pads[k]));
            k += 1;
        }
        assert(cars@ =~= value.cars@.map_values(|e: CarEntry| entry_to_lanes(e)));
        assert(pads@ =~= value.pads@.map_values(|p: BoostPad| pad_to_lanes(p)));
        GameStateA {
            tick_rate: value.tick_rate,
            tick_count: value.tick_count,
            cars,
            ball: BallA::from(value.ball),
            pads,
        }
    }
}

impl GameState {
    /// Whether every car on the roster has consistent ability and demolition
    /// flags; a snapshot taken at any tick boundary should pass.
    pub fn cars_consistent(&self) -> (r: bool)
        ensures
            r == forall|i: int|
                0 <= i < self.cars@.len() ==> (#[trigger] self.cars@[i]).2.flags_consistent(),
    {
        let mut i: usize = 0;
        while i < self.cars.len()
            invariant
                i <= self.cars@.len(),
                forall|k: int| 0 <= k < i ==> (#[trigger] self.cars@[k]).2.flags_consistent(),
            decreases self.cars@.len() - i,
        {
            if !self.cars[i].2.is_consistent() {
                return false;
            }
            i += 1;
        }
        true
    }

    /// The canonical snapshot: every entity converted on its own, the order
    /// of cars and pads kept.
    pub fn from_lanes(value: &GameStateA) -> (r: GameState)
        ensures
            r.tick_rate == value.tick_rate,
            r.tick_count == value.tick_count,
            r.cars@ == value.cars@.map_values(|e: CarEntryA| lanes_to_entry(e)),
            r.ball == lanes_to_ball(value.ball),
            r.pads@ == value.pads@.map_values(|p: BoostPadA| lanes_to_pad(p)),
    {
        let mut cars: Vec<CarEntry> = Vec::new();
        let mut i: usize = 0;
        while i < value.cars.len()
            invariant
                i <= value.cars@.len(),
                cars@.len() == i,
                forall|j: int| 0 <= j < i ==> cars@[j] == lanes_to_entry(value.cars@[j]),
            decreases value.cars@.len() - i,
        {
            let e = value.cars[i];
            cars.push((e.0, e.1, Car::from(e.2), CarConfig::from(e.3)));
            i += 1;
        }
        let mut pads: Vec<BoostPad> = Vec::new();
        let mut k: usize = 0;
        while k < value.pads.len()
            invariant
                k <= value.pads@.len(),
                pads@.len() == k,
                forall|j: int| 0 <= j < k ==> pads@[j] == lanes_to_pad(value.pads@[j]),
            decreases value.pads@.len() - k,
        {
            pads.push(BoostPad::from(value.pads[k]));
            k += 1;
        }
        assert(cars@ =~= value.cars@.map_values(|e: CarEntryA| lanes_to_entry(e)));
        assert(pads@ =~= value.pads@.map_values(|p: BoostPadA| lanes_to_pad(p)));
        GameState {
            tick_rate: value.tick_rate,
            tick_count: value.tick_count,
            cars,
            ball: Ball::from(value.ball),
            pads,
        }
    }
}

impl From<GameState> for GameStateA {
    fn from(value: GameState) -> (r: GameStateA)
        ensures
            r.tick_rate == value.tick_rate,
            r.tick_count == value.tick_count,
            r.cars@ == value.cars@.map_values(|e: CarEntry| entry_to_lanes(e)),
            r.ball == ball_to_lanes(value.ball),
            r.pads@ == value.pads@.map_values(|p: BoostPad| pad_to_lanes(p)),
    {
        GameStateA::from_state(&value)
    }
}

/// A snapshot holds vectors, which a specification value cannot build, so
/// the conversion is described by the `ensures` of `from` alone.
impl vstd::std_specs::convert::FromSpecImpl<GameState> for GameStateA {
    open spec fn obeys_from_spec() -> bool {
        false
    }

    open spec fn from_spec(v: GameState) -> GameStateA {
        arbitrary()
    }
}

impl CarA {
    /// The other car this car is touching, looked up by id in the roster of
    /// `state`: none when the id is zero or no longer names a car there,
    /// otherwise the car of the first roster entry with that id.
    pub fn get_contacting_car(&self, state: &GameStateA) -> (r: Option<CarA>)
        ensures
            r is None <==> (self.other_car_id == 0 || forall|i: int|
                0 <= i < state.cars@.len() ==> (#[trigger] state.cars@[i]).0
                    != self.other_car_id),
            r matches Some(c) ==> exists|i: int|
                0 <= i < state.cars@.len() && (#[trigger] state.cars@[i]).0 == self.other_car_id
                    && state.cars@[i].2 == c && forall|k: int|
                    0 <= k < i ==> state.cars@[k].0 != self.other_car_id,
    {
        if self.other_car_id == 0 {
            return None;
        }
        let mut i: usize = 0;
        while i < state.cars.len()
            invariant
                i <= state.cars@.len(),
                self.other_car_id != 0,
                forall|k: int| 0 <= k < i ==> state.cars@[k].0 != self.other_car_id,
            decreases state.cars@.len() - i,
        {
            let entry = &state.cars[i];
            if entry.0 == self.other_car_id {
                assert(state.cars@[i as int].0 == self.other_car_id);
                return Some(entry.2);
            }
            i += 1;
        }
        None
    }
}

/// A snapshot whose vectors all have clear padding lanes survives the trip
/// through its lane-packed form unchanged: the same tick rate and count, the
/// same roster in the same order, the same ball and the same pads.
pub proof fn lemma_state_round_trip(g: GameState)
    requires
        state_padding_clear(g),
    ensures
        g.cars@.map_values(|e: CarEntry| entry_to_lanes(e)).map_values(
            |e: CarEntryA| lanes_to_entry(e),
        ) == g.cars@,
        lanes_to_ball(ball_to_lanes(g.ball)) == g.ball,
        g.pads@.map_values(|p: BoostPad| pad_to_lanes(p)).map_values(
            |p: BoostPadA| lanes_to_pad(p),
        ) == g.pads@,
{
    let cars2 = g.cars@.map_values(|e: CarEntry| entry_to_lanes(e)).map_values(
        |e: CarEntryA| lanes_to_entry(e),
    );
    assert forall|i: int| 0 <= i < g.cars@.len() implies cars2[i] == g.cars@[i] by {
        crate::car::lemma_car_round_trip(g.cars@[i].2);
        crate::car::lemma_config_round_trip(g.cars@[i].3);
    }
    assert(cars2 =~= g.cars@);
    crate::ball::lemma_ball_round_trip(g.ball);
    let pads2 = g.pads@.map_values(|p: BoostPad| pad_to_lanes(p)).map_values(
        |p: BoostPadA| lanes_to_pad(p),
    );
    assert forall|i: int| 0 <= i < g.pads@.len() implies pads2[i] == g.pads@[i] by {
        crate::boostpad::lemma_pad_round_trip(g.pads@[i]);
    }
    assert(pads2 =~= g.pads@);
}

} // verus!
