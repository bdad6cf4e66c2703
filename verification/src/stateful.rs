//! Tools to create stateful objects whose transitions are checked to be correct by the compiler.
use vstd::prelude::*;

verus! {

/// Any state of a machine. Each one is of exactly one of the types of states, which is told by its
/// number.
pub trait Machine: Sized {
    /// The number of the type of the state.
    spec fn state_id(&self) -> u64;
}

/// A type is a state of a machine if it can be told from the other states of the machine. `M` stands
/// for any state of the machine: `as_any` turns a state to it, and `from_any` casts it back to the
/// concrete type, if it is of that type. State implementors must also be `Clone`, since the cast
/// gives a clone.
pub trait State<M: Machine>: Sized {
    /// The number of this type, by which it differs from the other types of states.
    spec fn type_id() -> u64;

    /// The state, as one of those of the machine.
    spec fn any(&self) -> M;

    /// The state of this type that a state of the machine is, if it is one.
    spec fn cast(any: M) -> Option<Self>;

    /// Turns the state to one of those of the machine.
    fn as_any(&self) -> (res: M)
        ensures
            res == self.any(),
    ;

    /// Casts a state of the machine to this type.
    fn from_any(any: &M) -> (res: Option<Self>)
        ensures
            res == Self::cast(*any),
    ;

    /// Casting gives back the state that was turned to one of the machine.
    proof fn cast_any(&self)
        ensures
            Self::cast(self.any()) == Some(*self),
    ;

    /// Casting succeeds exactly on the states of this type, and gives nothing but the state.
    proof fn cast_some(any: M)
        ensures
            Self::cast(any) is Some <==> any.state_id() == Self::type_id(),
            Self::cast(any) is Some ==> Self::cast(any)->Some_0.any() == any,
    ;
}

/// A trait that allows to transition from one state (self:Self) to another (init:A). It is a marker
/// trait that unlocks the `transition_to` method, which itself allows to transition to another
/// state. It replaces the `From<T>` trait which is usually used for state machines and allows to
/// transition to value based states.
pub trait TransitionsTo<A>: Sized {
    fn transition_to(self, init: A) -> (res: A)
        ensures
            res == init,
    {
        init
    }
}

/// Stateful wraps a state, and allows to cast it to its concrete type.
#[derive(Debug)]
pub struct Stateful<M: Machine> {
    state: M,
}

impl<M: Machine> View for Stateful<M> {
    type V = M;

    closed spec fn view(&self) -> M {
        self.state
    }
}

impl<M: Machine> Stateful<M> {
    /// A machine in the given state.
    pub fn from<A: State<M>>(other: A) -> (res: Stateful<M>)
        ensures
            res@ == other.any(),
    {
        Stateful { state: other.as_any() }
    }

    /// Returns whether the state is A.
    pub fn is_state<A: State<M>>(&self) -> (res: bool)
        ensures
            res == (A::cast(self@) is Some),
    {
        A::from_any(&self.state).is_some()
    }

    /// Creates a clone of the state if it is A.
    pub fn to_state<A: State<M>>(&self) -> (res: Option<A>)
        ensures
            res == A::cast(self@),
    {
        A::from_any(&self.state)
    }

    /// Transitions from one state to another. The machine has to be in a state of the first type.
    pub fn transition<F: State<M> + TransitionsTo<T>, T: State<M>>(&mut self, other: T)
        requires
            F::cast(old(self)@) is Some,
        ensures
            final(self)@ == other.any(),
    {
        self.state = other.as_any();
    }
}

/// A state of a type is not one of another type.
pub proof fn states_are_disjoint<M: Machine, A: State<M>, B: State<M>>(a: A, b: B)
    requires
        A::type_id() != B::type_id(),
    ensures
        a.any() != b.any(),
        A::cast(b.any()) is None,
        B::cast(a.any()) is None,
{
    a.cast_any();
    b.cast_any();
    A::cast_some(a.any());
    A::cast_some(b.any());
    B::cast_some(a.any());
    B::cast_some(b.any());
}

/// A machine that was made from a state gives that state back, and no state of another type.
pub proof fn machine_gives_its_state<M: Machine, A: State<M>, X: State<M>>(
    machine: Stateful<M>,
    a: A,
)
    requires
        machine@ == a.any(),
    ensures
        A::cast(machine@) == Some(a),
        X::type_id() != A::type_id() ==> X::cast(machine@) is None,
{
    a.cast_any();
    A::cast_some(machine@);
    X::cast_some(machine@);
}

/// After a transition the machine is in the state that it went to, and in none of another type: where
/// it came from another type, it is not in a state of that type any more.
pub proof fn transition_gives_state<
    M: Machine,
    F: State<M> + TransitionsTo<T>,
    T: State<M>,
    X: State<M>,
>(before: Stateful<M>, other: T, after: Stateful<M>)
    requires
        F::cast(before@) is Some,
        after@ == other.any(),
    ensures
        T::cast(after@) == Some(other),
        X::type_id() != T::type_id() ==> X::cast(after@) is None,
        F::type_id() != T::type_id() ==> F::cast(after@) is None,
{
    machine_gives_its_state::<M, T, X>(after, other);
    machine_gives_its_state::<M, T, F>(after, other);
}

/// A machine is in states of two types only if they are the same type.
pub proof fn states_do_not_overlap<M: Machine, A: State<M>, B: State<M>>(machine: Stateful<M>)
    requires
        A::cast(machine@) is Some,
        B::cast(machine@) is Some,
    ensures
        A::type_id() == B::type_id(),
        A::cast(machine@)->Some_0.any() == B::cast(machine@)->Some_0.any(),
{
    A::cast_some(machine@);
    B::cast_some(machine@);
}

/// A machine tells the state that it was made from: it is in a state of that type, which it gives back,
/// and in none of another type.
pub proof fn machine_tells_its_state<M: Machine, A: State<M>, X: State<M>>(
    a: A,
    machine: Stateful<M>,
    is: bool,
    state: Option<A>,
    is_other: bool,
    other: Option<X>,
)
    requires
        call_ensures(Stateful::<M>::from::<A>, (a,), machine),
        call_ensures(Stateful::<M>::is_state::<A>, (&machine,), is),
        call_ensures(Stateful::<M>::to_state::<A>, (&machine,), state),
        call_ensures(Stateful::<M>::is_state::<X>, (&machine,), is_other),
        call_ensures(Stateful::<M>::to_state::<X>, (&machine,), other),
    ensures
        is,
        state == Some(a),
        X::type_id() != A::type_id() ==> !is_other && other is None,
{
    machine_gives_its_state::<M, A, X>(machine, a);
}

/// After a transition the machine is in the state that it went to.
pub proof fn machine_goes_to_its_state<M: Machine, F: State<M> + TransitionsTo<T>, T: State<M>>(
    machine: &mut Stateful<M>,
    other: T,
)
    requires
        call_ensures(Stateful::<M>::transition::<F, T>, (machine, other), ()),
    ensures
        final(machine)@ == other.any(),
        T::cast(final(machine)@) == Some(other),
        F::type_id() != T::type_id() ==> F::cast(final(machine)@) is None,
{
    other.cast_any();
    F::cast_some(final(machine)@);
    T::cast_some(final(machine)@);
}

} // verus!
