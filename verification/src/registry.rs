//! The compositor's globals as the registry announces and withdraws them,
//! and the search for the one that offers an interface.

use crate::output_info::OutputId;
use crate::types::{CapturerError, ErrorView};
use vstd::prelude::*;
use vstd::string::*;

verus! {

/// One object that the compositor offers: its number, the name of its
/// interface, and the version of it.
#[derive(Debug, Clone, PartialEq, Eq)]
pub struct Global {
    pub name: u32,
    pub interface: String,
    pub version: u32,
}

/// The mathematical value of a [`Global`].
pub struct GlobalView {
    pub name: u32,
    pub interface: Seq<char>,
    pub version: u32,
}

impl View for Global {
    type V = GlobalView;

    open spec fn view(&self) -> GlobalView {
        GlobalView { name: self.name, interface: self.interface@, version: self.version }
    }
}

/// What the registry says.
#[derive(Debug, Clone, PartialEq, Eq)]
pub enum RegistryEvent {
    /// A global is offered.
    Global { name: u32, interface: String, version: u32 },
    /// The global with this number is withdrawn.
    GlobalRemove { name: u32 },
}

/// The values of a list of globals.
pub open spec fn global_views(globals: Seq<Global>) -> Seq<GlobalView> {
    Seq::new(globals.len(), |i: int| globals[i]@)
}

/// The globals of a list that offer an interface, in their order.
pub open spec fn offering(globals: Seq<GlobalView>, interface: Seq<char>) -> Seq<GlobalView> {
    globals.filter(|global: GlobalView| global.interface == interface)
}

/// Whether the global at a place is the first with the given number.
pub open spec fn first_named(globals: Seq<GlobalView>, name: u32, at: int) -> bool {
    &&& 0 <= at < globals.len()
    &&& globals[at].name == name
    &&& forall|j: int| 0 <= j < at ==> (#[trigger] globals[j]).name != name
}

/// A list without the first global of the given number: the last global
/// takes its place. A list without such a global stays as it is.
pub open spec fn withdrawn(globals: Seq<GlobalView>, name: u32) -> Seq<GlobalView> {
    if exists|at: int| first_named(globals, name, at) {
        let at = choose|at: int| first_named(globals, name, at);
        globals.update(at, globals.last()).drop_last()
    } else {
        globals
    }
}

/// What the engine knows of the compositor's objects.
#[derive(Debug, Clone, PartialEq, Eq)]
pub struct AppData {
    pub outputs: Vec<OutputId>,
    pub globals_list: Vec<Global>,
}

/// The copy of a global.
fn copy_of(global: &Global) -> (copy: Global)
    ensures
        copy@ == global@,
{
    Global { name: global.name, interface: global.interface.clone(), version: global.version }
}

impl AppData {
    /// The globals that the engine holds.
    pub open spec fn globals(&self) -> Seq<GlobalView> {
        global_views(self.globals_list@)
    }

    /// Knowledge of nothing.
    pub fn new() -> (data: AppData)
        ensures
            data.globals() == Seq::<GlobalView>::empty(),
            data.outputs@ == Seq::<OutputId>::empty(),
    {
        let data = AppData { outputs: Vec::new(), globals_list: Vec::new() };
        assert(data.globals() =~= Seq::<GlobalView>::empty());
        data
    }

    /// The globals that offer an interface, in the order in which the
    /// engine holds them.
    pub fn get_globals_by_interface_name(&self, interface: &str) -> (found: Vec<Global>)
        ensures
            global_views(found@) == offering(self.globals(), interface@),
    {
        let wanted = String::from_str(interface);
        let mut found: Vec<Global> = Vec::new();
        let mut i: usize = 0;
        assert(self.globals().take(0) =~= Seq::<GlobalView>::empty());
        assert(global_views(found@) =~= offering(self.globals().take(0), interface@)) by {
            reveal(Seq::filter);
        }
        while i < self.globals_list.len()
            invariant
                i <= self.globals_list@.len(),
                wanted@ == interface@,
                global_views(found@) == offering(self.globals().take(i as int), interface@),
            decreases self.globals_list@.len() - i,
        {
            let ghost before = global_views(found@);
            let ghost front = self.globals().take(i as int);
            let ghost longer = self.globals().take(i + 1);
            proof {
                assert(longer.drop_last() =~= front);
                assert(longer.last() == self.globals_list@[i as int]@);
                reveal(Seq::filter);
            }
            if self.globals_list[i].interface == wanted {
                found.push(copy_of(&self.globals_list[i]));
                assert(global_views(found@) =~= before.push(self.globals_list@[i as int]@));
            }
            i += 1;
        }
        assert(self.globals().take(i as int) =~= self.globals());
        found
    }

    /// The first global that offers an interface. Fails where none does.
    pub fn get_global_by_interface_name(&self, interface: &str) -> (r: Result<
        Global,
        CapturerError,
    >)
        ensures
            match r {
                Ok(global) => offering(self.globals(), interface@).len() > 0 && global@ == offering(
                    self.globals(),
                    interface@,
                )[0],
                Err(e) => offering(self.globals(), interface@).len() == 0 && e@ == (
                ErrorView::ProtocolUnavailable { interface: interface@ }),
            },
    {
        let wanted = String::from_str(interface);
        let mut i: usize = 0;
        assert(self.globals().take(0) =~= Seq::<GlobalView>::empty());
        assert(offering(self.globals().take(0), interface@).len() == 0) by {
            reveal(Seq::filter);
        }
        while i < self.globals_list.len()
            invariant
                i <= self.globals_list@.len(),
                wanted@ == interface@,
                offering(self.globals().take(i as int), interface@).len() == 0,
            decreases self.globals_list@.len() - i,
        {
            let ghost front = self.globals().take(i as int);
            let ghost longer = self.globals().take(i + 1);
            proof {
                assert(longer.drop_last() =~= front);
                assert(longer.last() == self.globals_list@[i as int]@);
                reveal(Seq::filter);
            }
            if self.globals_list[i].interface == wanted {
                let global = copy_of(&self.globals_list[i]);
                proof {
                    let rest = self.globals().skip(i + 1);
                    assert(self.globals() =~= longer + rest);
                    Seq::filter_distributes_over_add(
                        longer,
                        rest,
                        |global: GlobalView| global.interface == interface@,
                    );
                    assert(offering(longer, interface@) =~= seq![global@]);
                }
                return Ok(global);
            }
            i += 1;
        }
        assert(self.globals().take(i as int) =~= self.globals());
        Err(CapturerError::ProtocolUnavailable { interface: wanted })
    }

    /// Takes in what the registry says: a global that is offered joins the
    /// end of the list; of a number that is withdrawn the first global
    /// leaves, and the last takes its place.
    pub fn event(&mut self, event: RegistryEvent)
        ensures
            final(self).outputs == old(self).outputs,
            match event {
                RegistryEvent::Global { name, interface, version } => final(self).globals() == old(
                    self,
                ).globals().push(GlobalView { name, interface: interface@, version }),
                RegistryEvent::GlobalRemove { name } => final(self).globals() == withdrawn(
                    old(self).globals(),
                    name,
                ),
            },
    {
        match event {
            RegistryEvent::Global { name, interface, version } => {
                self.globals_list.push(Global { name, interface, version });
                assert(self.globals() =~= old(self).globals().push(
                    GlobalView { name, interface: interface@, version },
                ));
            },
            RegistryEvent::GlobalRemove { name } => {
                match self.position(name) {
                    Some(at) => {
                        proof {
                            let globals = old(self).globals();
                            let chosen = choose|chosen: int| first_named(globals, name, chosen);
                            assert(chosen == at) by {
                                if chosen < at {
                                    assert(globals[chosen].name != name);
                                } else if at < chosen {
                                    assert(globals[at as int].name != name);
                                }
                            }
                        }
                        self.globals_list.swap_remove(at);
                        assert(self.globals() =~= withdrawn(old(self).globals(), name));
                    },
                    None => {},
                }
            },
        }
    }

    /// The place of the first global with the given number.
    pub fn position(&self, name: u32) -> (found: Option<usize>)
        ensures
            match found {
                Some(at) => first_named(self.globals(), name, at as int),
                None => forall|at: int| !first_named(self.globals(), name, at),
            },
    {
        let mut i: usize = 0;
        while i < self.globals_list.len()
            invariant
                i <= self.globals_list@.len(),
                forall|j: int| 0 <= j < i ==> (#[trigger] self.globals()[j]).name != name,
            decreases self.globals_list@.len() - i,
        {
            if self.globals_list[i].name == name {
                return Some(i);
            }
            i += 1;
        }
        assert forall|at: int| !first_named(self.globals(), name, at) by {
            if 0 <= at < self.globals().len() {
                assert(self.globals()[at].name != name);
            }
        }
        None
    }
}

/// A global that is offered and withdrawn again leaves the list as it was,
/// where no global had its number before.
pub proof fn lemma_offer_then_withdraw(globals: Seq<GlobalView>, global: GlobalView)
    requires
        forall|j: int| 0 <= j < globals.len() ==> (#[trigger] globals[j]).name != global.name,
    ensures
        withdrawn(globals.push(global), global.name) == globals,
{
    let longer = globals.push(global);
    assert(first_named(longer, global.name, globals.len() as int));
    let at = choose|at: int| first_named(longer, global.name, at);
    if at < globals.len() {
        assert(longer[at] == globals[at]);
    }
    assert(longer.update(at, longer.last()).drop_last() =~= globals);
}

/// A number that no global has withdraws nothing.
pub proof fn lemma_withdraw_absent(globals: Seq<GlobalView>, name: u32)
    requires
        forall|j: int| 0 <= j < globals.len() ==> (#[trigger] globals[j]).name != name,
    ensures
        withdrawn(globals, name) == globals,
{
}

} // verus!
