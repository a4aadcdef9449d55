//! The configuration model: named targets and the launcher's defaults.

use crate::text::views;
use vstd::prelude::*;

verus! {

/// A named build configuration: what the generator is told and which command
/// then builds.
#[derive(Debug, PartialEq, Eq)]
pub struct Target {
    /// Arguments handed to the generator, in this order.
    pub args: Vec<String>,
    /// The command that performs the build once the generator has run.
    pub build_command: String,
}

/// The mathematical content of a [`Target`].
pub ghost struct TargetModel {
    pub args: Seq<Seq<char>>,
    pub build_command: Seq<char>,
}

impl View for Target {
    type V = TargetModel;

    open spec fn view(&self) -> TargetModel {
        TargetModel { args: views(self.args@), build_command: self.build_command@ }
    }
}

/// The targets of a configuration, each under its own name.
#[derive(Debug)]
pub struct Targets {
    entries: Vec<(String, Target)>,
}

/// Whether some entry is filed under `name`.
spec fn holds(entries: Seq<(String, Target)>, name: Seq<char>) -> bool {
    exists|i: int| 0 <= i < entries.len() && (#[trigger] entries[i]).0@ == name
}

/// The place of an entry filed under `name`.
spec fn place(entries: Seq<(String, Target)>, name: Seq<char>) -> int {
    choose|i: int| 0 <= i < entries.len() && (#[trigger] entries[i]).0@ == name
}

/// No two entries share a name.
spec fn distinct(entries: Seq<(String, Target)>) -> bool {
    forall|i: int, j: int|
        0 <= i < j < entries.len() ==> (#[trigger] entries[i]).0@ != (#[trigger] entries[j]).0@
}

/// The mapping that a duplicate-free list of entries stands for.
spec fn mapping(entries: Seq<(String, Target)>) -> Map<Seq<char>, TargetModel> {
    Map::new(
        |name: Seq<char>| holds(entries, name),
        |name: Seq<char>| entries[place(entries, name)].1@,
    )
}

/// In a duplicate-free list the entry at `i` is the one its name maps to.
proof fn lemma_mapping_at(entries: Seq<(String, Target)>, i: int)
    requires
        distinct(entries),
        0 <= i < entries.len(),
    ensures
        mapping(entries).dom().contains(entries[i].0@),
        mapping(entries)[entries[i].0@] == entries[i].1@,
{
    let name = entries[i].0@;
    assert(holds(entries, name));
    let p = place(entries, name);
    assert(p == i) by {
        if p < i {
            assert(entries[p].0@ != entries[i].0@);
        } else if i < p {
            assert(entries[i].0@ != entries[p].0@);
        }
    }
}

impl Targets {
    #[verifier::type_invariant]
    spec fn well_formed(&self) -> bool {
        distinct(self.entries@)
    }

    /// The mapping from names to targets.
    pub closed spec fn view(&self) -> Map<Seq<char>, TargetModel> {
        mapping(self.entries@)
    }

    /// A collection without targets.
    pub fn new() -> (targets: Targets)
        ensures
            targets@ == Map::<Seq<char>, TargetModel>::empty(),
    {
        let targets = Targets { entries: Vec::new() };
        proof {
            assert(targets@ =~= Map::<Seq<char>, TargetModel>::empty());
        }
        targets
    }

    /// The place of the entry filed under `name`, if there is one.
    fn find(&self, name: &str) -> (found: Option<usize>)
        ensures
            match found {
                Some(i) => i < self.entries@.len() && self.entries@[i as int].0@ == name@,
                None => !holds(self.entries@, name@),
            },
    {
        let mut i: usize = 0;
        while i < self.entries.len()
            invariant
                i <= self.entries@.len(),
                forall|j: int| 0 <= j < i ==> (#[trigger] self.entries@[j]).0@ != name@,
            decreases self.entries@.len() - i,
        {
            if crate::text::same(self.entries[i].0.as_str(), name) {
                return Some(i);
            }
            i += 1;
        }
        None
    }

    /// Files `target` under `name`, in place of any target filed there before.
    pub fn insert(&mut self, name: String, target: Target)
        ensures
            final(self)@ == old(self)@.insert(name@, target@),
    {
        proof {
            use_type_invariant(&*self);
        }
        let ghost before = self.entries@;
        let ghost key = name@;
        let ghost model = target@;
        let found = self.find(name.as_str());
        let mut entries: Vec<(String, Target)> = Vec::new();
        core::mem::swap(&mut self.entries, &mut entries);
        let ghost k: int;
        match found {
            Some(i) => {
                entries.set(i, (name, target));
                proof {
                    k = i as int;
                }
            },
            None => {
                entries.push((name, target));
                proof {
                    k = before.len() as int;
                }
            },
        }
        proof {
            assert(entries@[k].0@ == key && entries@[k].1@ == model);
            assert(forall|j: int|
                0 <= j < entries@.len() && j != k ==> #[trigger] entries@[j] == before[j]);
            assert(distinct(entries@));
        }
        self.entries = entries;
        proof {
            let after = self.entries@;
            assert forall|n: Seq<char>| holds(after, n) <==> (n == key || holds(before, n)) by {
                if holds(after, n) {
                    let p = place(after, n);
                    if n != key {
                        assert(before[p].0@ == n);
                    }
                }
                if holds(before, n) {
                    let p = place(before, n);
                    assert(after[p].0@ == n || n == key);
                }
                if n == key {
                    assert(after[k].0@ == key);
                }
            }
            assert forall|n: Seq<char>| holds(after, n) implies mapping(after)[n] == mapping(
                before,
            ).insert(key, model)[n] by {
                let p = place(after, n);
                lemma_mapping_at(after, p);
                if n != key {
                    assert(before[p].0@ == n);
                    lemma_mapping_at(before, p);
                }
            }
            assert(mapping(after) =~= mapping(before).insert(key, model));
        }
    }

    /// The target filed under `name`, if there is one.
    pub fn get(&self, name: &str) -> (found: Option<&Target>)
        ensures
            match found {
                Some(target) => self@.dom().contains(name@) && target@ == self@[name@],
                None => !self@.dom().contains(name@),
            },
    {
        proof {
            use_type_invariant(self);
        }
        match self.find(name) {
            Some(i) => {
                proof {
                    lemma_mapping_at(self.entries@, i as int);
                }
                Some(&self.entries[i].1)
            },
            None => None,
        }
    }

    /// Whether a target is filed under `name`.
    pub fn contains(&self, name: &str) -> (present: bool)
        ensures
            present == self@.dom().contains(name@),
    {
        self.get(name).is_some()
    }
}

/// What the launcher is configured to do.
#[derive(Debug)]
pub struct Config {
    /// The declared targets, by name.
    pub targets: Targets,
    /// The directory under which each target gets a build directory of its
    /// own, relative to the directory of the marker file.
    pub build_path: String,
    /// The binary to run when none is named; empty when there is none.
    pub default_bin: String,
    /// The target to build when none is named; empty when there is none.
    pub default_target: String,
}

/// The mathematical content of a [`Config`].
pub ghost struct ConfigModel {
    pub targets: Map<Seq<char>, TargetModel>,
    pub build_path: Seq<char>,
    pub default_bin: Seq<char>,
    pub default_target: Seq<char>,
}

impl View for Config {
    type V = ConfigModel;

    open spec fn view(&self) -> ConfigModel {
        ConfigModel {
            targets: self.targets@,
            build_path: self.build_path@,
            default_bin: self.default_bin@,
            default_target: self.default_target@,
        }
    }
}

/// The directory under which per-target build directories are created when
/// the configuration names none.
pub fn default_build_path() -> (path: String)
    ensures
        path@ == "build"@,
{
    "build".to_owned()
}

} // verus!
