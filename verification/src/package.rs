//! Packages: the modules that a package declares.

use vstd::prelude::*;

verus! {

/// A named unit of output, with the block at which its data begins.
pub struct Module {
    pub name: String,
    pub initial_block: u64,
}

/// What a `Module` is, as plain values.
pub struct ModuleView {
    pub name: Seq<char>,
    pub initial_block: u64,
}

impl View for Module {
    type V = ModuleView;

    open spec fn view(&self) -> ModuleView {
        ModuleView { name: self.name@, initial_block: self.initial_block }
    }
}

/// The views of a list of modules, in order.
pub open spec fn modules_view(modules: Seq<Module>) -> Seq<ModuleView> {
    Seq::new(modules.len(), |i: int| modules[i]@)
}

/// No two modules of the list have the same name.
pub open spec fn unique_module_names(modules: Seq<ModuleView>) -> bool {
    forall|i: int, j: int|
        0 <= i < j < modules.len() ==> (#[trigger] modules[i]).name != (#[trigger] modules[j]).name
}

/// The index of the first module called `name`, or the number of modules when there is none.
pub open spec fn module_position(modules: Seq<ModuleView>, name: Seq<char>) -> int
    decreases modules.len(),
{
    if modules.len() == 0 || modules[0].name == name {
        0
    } else {
        1 + module_position(modules.drop_first(), name)
    }
}

/// The module called `name`, if the list declares one.
pub open spec fn declared_module(modules: Seq<ModuleView>, name: Seq<char>) -> Option<ModuleView> {
    let i = module_position(modules, name);
    if i < modules.len() {
        Some(modules[i])
    } else {
        None
    }
}

/// `module_position` is the least index of a module called `name`.
pub proof fn lemma_module_position(modules: Seq<ModuleView>, name: Seq<char>)
    ensures
        0 <= module_position(modules, name) <= modules.len(),
        module_position(modules, name) < modules.len() ==> modules[module_position(
            modules,
            name,
        )].name == name,
        forall|j: int| 0 <= j < module_position(modules, name) ==> modules[j].name != name,
    decreases modules.len(),
{
    if modules.len() > 0 && modules[0].name != name {
        let rest = modules.drop_first();
        lemma_module_position(rest, name);
        assert forall|j: int| 0 <= j < module_position(modules, name) implies modules[j].name
            != name by {
            if j > 0 {
                assert(modules[j] == rest[j - 1]);
            }
        }
    }
}

/// Where module names are unique, a module of the list is the one declared under its name.
pub proof fn lemma_declared_module_is_unique(modules: Seq<ModuleView>, i: int)
    requires
        unique_module_names(modules),
        0 <= i < modules.len(),
    ensures
        declared_module(modules, modules[i].name) == Some(modules[i]),
{
    lemma_module_position(modules, modules[i].name);
}

/// An index that holds a module called `name` and has none before it is the first one.
pub proof fn lemma_module_position_is(modules: Seq<ModuleView>, name: Seq<char>, i: int)
    requires
        0 <= i <= modules.len(),
        i < modules.len() ==> modules[i].name == name,
        forall|j: int| 0 <= j < i ==> modules[j].name != name,
    ensures
        module_position(modules, name) == i,
{
    lemma_module_position(modules, name);
}

/// The modules that a package declares. Module names are unique within a package.
pub struct Package {
    modules: Vec<Module>,
}

impl View for Package {
    type V = Seq<ModuleView>;

    closed spec fn view(&self) -> Seq<ModuleView> {
        modules_view(self.modules@)
    }
}

impl Package {
    #[verifier::type_invariant]
    spec fn names_are_unique(&self) -> bool {
        unique_module_names(modules_view(self.modules@))
    }

    /// Makes a package of `modules`, or returns none where two of them share a name.
    pub fn new(modules: Vec<Module>) -> (package: Option<Package>)
        ensures
            unique_module_names(modules_view(modules@)) <==> package is Some,
            package matches Some(p) ==> p@ == modules_view(modules@),
    {
        let mut i: usize = 0;
        while i < modules.len()
            invariant
                i <= modules.len(),
                forall|a: int, b: int|
                    0 <= a < b < modules.len() && a < i ==> modules@[a].name@ != modules@[b].name@,
            decreases modules.len() - i,
        {
            let mut j: usize = i + 1;
            while j < modules.len()
                invariant
                    i < j <= modules.len(),
                    forall|b: int| i < b < j ==> modules@[i as int].name@ != modules@[b].name@,
                decreases modules.len() - j,
            {
                if modules[i].name == modules[j].name {
                    proof {
                        let view = modules_view(modules@);
                        assert(view[i as int].name == view[j as int].name);
                    }
                    return None;
                }
                j += 1;
            }
            i += 1;
        }
        Some(Package { modules })
    }

    /// The number of modules in the package.
    pub fn len(&self) -> (n: usize)
        ensures
            n == self@.len(),
    {
        self.modules.len()
    }

    /// The module called `name`, if the package declares one. No other
    /// module of the package has that name.
    pub fn find_module(&self, name: &str) -> (found: Option<&Module>)
        ensures
            unique_module_names(self@),
            match found {
                Some(module) => declared_module(self@, name@) == Some(module@),
                None => declared_module(self@, name@) is None,
            },
    {
        proof {
            use_type_invariant(self);
        }
        let wanted = String::from_str(name);
        let mut i: usize = 0;
        while i < self.modules.len()
            invariant
                i <= self.modules.len(),
                wanted@ == name@,
                unique_module_names(self@),
                forall|j: int| 0 <= j < i ==> modules_view(self.modules@)[j].name != name@,
            decreases self.modules.len() - i,
        {
            if self.modules[i].name == wanted {
                proof {
                    lemma_module_position_is(modules_view(self.modules@), name@, i as int);
                }
                return Some(&self.modules[i]);
            }
            i += 1;
        }
        proof {
            lemma_module_position_is(modules_view(self.modules@), name@, i as int);
        }
        None
    }
}

} // verus!
