//! The command registry: a mapping from subcommand name to the descriptor
//! that was registered for it, built once at startup and read-only afterwards.
//!
//! Registration appends; a later registration under the same name shadows an
//! earlier one, which gives the insert-with-overwrite behaviour of a map.

use vstd::prelude::*;
use crate::file_cmd::File;
use crate::time_cmd::Time;

verus! {

/// Which compiled-in handler a descriptor stands for. The argument schema and
/// the handler body live outside the registry; the registry only names them.
#[derive(Clone, Copy, PartialEq, Eq, Structural)]
pub enum CommandKind {
    FileOps,
    TimeOps,
}

/// The immutable record describing one subcommand: its unique name, its help
/// text, and which handler it dispatches to.
pub struct Module {
    pub name: String,
    pub desc: String,
    pub kind: CommandKind,
}

/// A subcommand that can describe itself to the registry.
pub trait Command {
    fn module() -> Module;
}

/// The descriptor found for `name` among the registered ones: the latest
/// registration under that name wins.
pub open spec fn spec_lookup(s: Seq<Module>, name: Seq<char>) -> Option<Module>
    decreases s.len(),
{
    if s.len() == 0 {
        None
    } else if s.last().name@ == name {
        Some(s.last())
    } else {
        spec_lookup(s.drop_last(), name)
    }
}

/// Holds every registered subcommand descriptor, in registration order.
pub struct ModuleManager {
    pub modules: Vec<Module>,
}

impl ModuleManager {
    /// Builds the registry of every compiled-in subcommand, one descriptor
    /// per subcommand module.
    pub fn new() -> (r: ModuleManager)
        ensures
            r.modules@.len() == 2,
            spec_lookup(r.modules@, "file"@) matches Some(d) && d.kind == CommandKind::FileOps,
            spec_lookup(r.modules@, "time"@) matches Some(d) && d.kind == CommandKind::TimeOps,
    {
        let mut mm = ModuleManager { modules: Vec::new() };
        mm.register(File::module());
        mm.register(Time::module());
        proof {
            reveal_strlit("file");
            reveal_strlit("time");
            assert("file"@[0] == 'f' && "time"@[0] == 't');
        }
        mm
    }

    /// Inserts a descriptor under its name; an existing descriptor of the
    /// same name is shadowed, every other name keeps its descriptor.
    pub fn register(&mut self, module: Module)
        ensures
            final(self).modules@ == old(self).modules@.push(module),
            spec_lookup(final(self).modules@, module.name@) == Some(module),
            forall|n: Seq<char>|
                n != module.name@ ==> spec_lookup(final(self).modules@, n) == spec_lookup(
                    old(self).modules@,
                    n,
                ),
    {
        self.modules.push(module);
        proof {
            assert(self.modules@.drop_last() =~= old(self).modules@);
        }
    }

    /// Finds the descriptor registered for `name`, if any.
    pub fn lookup(&self, name: &str) -> (r: Option<&Module>)
        ensures
            match r {
                Some(d) => spec_lookup(self.modules@, name@) == Some(*d),
                None => spec_lookup(self.modules@, name@) is None,
            },
    {
        let target: String = name.to_owned();
        let mut i: usize = self.modules.len();
        proof {
            assert(self.modules@.take(i as int) =~= self.modules@);
        }
        while i > 0
            invariant
                target@ == name@,
                i <= self.modules@.len(),
                spec_lookup(self.modules@, name@) == spec_lookup(
                    self.modules@.take(i as int),
                    name@,
                ),
            decreases i,
        {
            if self.modules[i - 1].name == target {
                proof {
                    assert(self.modules@.take(i as int).last() == self.modules@[i - 1]);
                }
                return Some(&self.modules[i - 1]);
            }
            proof {
                assert(self.modules@.take(i as int).drop_last() =~= self.modules@.take(i - 1));
            }
            i = i - 1;
        }
        proof {
            assert(self.modules@.take(0) =~= Seq::<Module>::empty());
        }
        None
    }
}

/// Law: a descriptor that was just registered is found again under its exact
/// name, and a lookup of any other name is unaffected by the registration.
pub proof fn lemma_lookup_after_register(s: Seq<Module>, d: Module, n: Seq<char>)
    ensures
        spec_lookup(s.push(d), d.name@) == Some(d),
        n != d.name@ ==> spec_lookup(s.push(d), n) == spec_lookup(s, n),
{
    assert(s.push(d).drop_last() =~= s);
}

} // verus!
