use liborchestra::repository::worker::{Finished, FutureState, Starting, Waiting};
use liborchestra::stateful::{Machine as MachineState, State, Stateful, TransitionsTo};

#[derive(Clone, Debug)]
struct StateA {
    integer: i32,
}

#[derive(Clone, Debug)]
struct StateB {
    string: String,
}

#[derive(Clone, Debug)]
enum Machine {
    A(StateA),
    B(StateB),
}

impl MachineState for Machine {
    fn state_id(&self) -> u64 {
        match self {
            Machine::A(_) => 0,
            Machine::B(_) => 1,
        }
    }
}

impl State<Machine> for StateA {
    fn type_id() -> u64 {
        0
    }

    fn any(&self) -> Machine {
        self.as_any()
    }

    fn cast(any: Machine) -> Option<Self> {
        Self::from_any(&any)
    }

    fn cast_any(&self) {}

    fn cast_some(_any: Machine) {}

    fn as_any(&self) -> Machine {
        Machine::A(self.clone())
    }

    fn from_any(any: &Machine) -> Option<Self> {
        match any {
            Machine::A(state) => Some(state.clone()),
            _ => None,
        }
    }
}

impl State<Machine> for StateB {
    fn type_id() -> u64 {
        1
    }

    fn any(&self) -> Machine {
        self.as_any()
    }

    fn cast(any: Machine) -> Option<Self> {
        Self::from_any(&any)
    }

    fn cast_any(&self) {}

    fn cast_some(_any: Machine) {}

    fn as_any(&self) -> Machine {
        Machine::B(self.clone())
    }

    fn from_any(any: &Machine) -> Option<Self> {
        match any {
            Machine::B(state) => Some(state.clone()),
            _ => None,
        }
    }
}

// Transitions
impl TransitionsTo<StateB> for StateA {}
impl TransitionsTo<StateA> for StateB {}

#[test]
fn test_stateful() {
    // Using the state machine
    let mut machine: Stateful<Machine> = Stateful::from(StateA { integer: 0 });
    for a in 1..10 {
        println!("Machine state is: {:?}", machine);
        // We transition depending on the state. This is not far from a match statement.
        if let Some(state_a) = machine.to_state::<StateA>() {
            machine.transition::<StateA, StateB>(StateB {
                string: format!("{}", state_a.integer + 1),
            });
            assert!(machine.is_state::<StateB>());
            assert!(!machine.is_state::<StateA>());
            assert_eq!(machine.to_state::<StateB>().unwrap().string, format!("{}", (a + 1) / 2));
        } else if let Some(state_b) = machine.to_state::<StateB>() {
            machine.transition::<StateB, StateA>(StateA {
                integer: state_b.string.parse::<i32>().unwrap(),
            });
            assert!(machine.is_state::<StateA>());
            assert_eq!(machine.to_state::<StateA>().unwrap().integer, a / 2);
        } else {
            panic!("No transition occurred");
        }
    }
}

#[derive(Clone, Debug)]
struct St<A>(A);

impl<A: Clone> MachineState for St<A> {
    fn state_id(&self) -> u64 {
        0
    }
}

impl<A: Clone> State<St<A>> for St<A> {
    fn type_id() -> u64 {
        0
    }

    fn any(&self) -> St<A> {
        self.as_any()
    }

    fn cast(any: St<A>) -> Option<Self> {
        Self::from_any(&any)
    }

    fn cast_any(&self) {}

    fn cast_some(_any: St<A>) {}

    fn as_any(&self) -> St<A> {
        self.clone()
    }

    fn from_any(any: &St<A>) -> Option<Self> {
        Some(any.clone())
    }
}

#[test]
fn test_derive() {
    let a = St(44);
    a.as_any();
    assert_eq!(a.as_any().0, 44);
}

#[test]
fn states_of_a_future() {
    let mut state: Stateful<FutureState> = Stateful::from(Starting);
    assert!(state.is_state::<Starting>());
    assert!(!state.is_state::<Waiting>());
    state.transition::<Starting, Waiting>(Waiting);
    assert!(state.to_state::<Starting>().is_none());
    assert!(state.to_state::<Waiting>().is_some());
    state.transition::<Waiting, Finished>(Finished);
    assert!(state.is_state::<Finished>());
    assert_eq!(Starting.transition_to(Waiting), Waiting);
}
