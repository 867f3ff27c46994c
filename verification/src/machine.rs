//! The machines of the base, as far as events touch them.

use crate::texts::same_text;
use vstd::prelude::*;

verus! {

/// What a machine is doing.
#[derive(Copy, Clone, Debug, PartialEq, Eq, Structural)]
pub enum State {
    Broken,
    Idle,
    Running,
}

/// A machine of the base: its stable name and its present state.
#[derive(Clone, Debug, PartialEq, Eq)]
pub struct Machine {
    pub name: String,
    pub state: State,
}

/// A machine as contracts see it.
pub struct MachineView {
    pub name: Seq<char>,
    pub state: State,
}

impl View for Machine {
    type V = MachineView;

    open spec fn view(&self) -> MachineView {
        MachineView { name: self.name@, state: self.state }
    }
}

impl MachineView {
    /// This machine after every machine called `name` was put into `state`.
    pub open spec fn with_state_of(self, name: Seq<char>, state: State) -> MachineView {
        if self.name == name {
            MachineView { name: self.name, state }
        } else {
            self
        }
    }
}

/// The machines after every one called `name` was put into `state`. Where
/// none bears the name, nothing changes.
pub open spec fn machines_with_state(
    machines: Seq<MachineView>,
    name: Seq<char>,
    state: State,
) -> Seq<MachineView> {
    Seq::new(machines.len(), |i: int| machines[i].with_state_of(name, state))
}

/// The views of a list of machines, in order.
pub open spec fn machine_views(machines: Seq<Machine>) -> Seq<MachineView> {
    Seq::new(machines.len(), |i: int| machines[i]@)
}

impl Machine {
    /// A machine called `name` in the given state.
    pub fn new(name: &str, state: State) -> (machine: Machine)
        ensures
            machine@ == (MachineView { name: name@, state }),
    {
        Machine { name: name.to_owned(), state }
    }

    /// Puts the machine into `new_state`.
    pub fn change_state_to(&mut self, new_state: &State)
        ensures
            final(self)@ == (MachineView { name: old(self)@.name, state: *new_state }),
    {
        self.state = *new_state;
    }
}

/// Puts every machine called `name` into `state`.
pub fn set_state(machines: &mut Vec<Machine>, name: &str, state: State)
    ensures
        machine_views(final(machines)@) == machines_with_state(
            machine_views(old(machines)@),
            name@,
            state,
        ),
{
    let mut i: usize = 0;
    while i < machines.len()
        invariant
            i <= machines.len(),
            machines.len() == old(machines).len(),
            forall|j: int|
                0 <= j < i ==> (#[trigger] machines@[j])@ == old(machines)@[j]@.with_state_of(
                    name@,
                    state,
                ),
            forall|j: int| i <= j < machines.len() ==> #[trigger] machines@[j] == old(machines)@[j],
        decreases machines.len() - i,
    {
        if same_text(machines[i].name.as_str(), name) {
            machines[i].change_state_to(&state);
        }
        i += 1;
    }
    assert(machine_views(machines@) =~= machines_with_state(
        machine_views(old(machines)@),
        name@,
        state,
    ));
}

} // verus!
