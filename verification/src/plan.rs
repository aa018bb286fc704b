//! The dispatch plan: the ordered list of system registrations that startup
//! hands to the engine's dispatcher builder. Each registration carries a name
//! and the names of the systems it must run after. The engine imposes that a
//! declared dependency names a system registered earlier, and that no two
//! systems share a (non-empty) name; the plan keeps both as its invariant.

use vstd::prelude::*;

verus! {

/// The mathematical view of one registration: its name, its dependency
/// names, and whether it was registered as a thread-local system. A system
/// registered under the empty name is anonymous: nothing can depend on it.
/// A thread-local system is anonymous and has no dependencies.
#[verifier::ext_equal]
pub ghost struct RegModel {
    pub name: Seq<char>,
    pub deps: Seq<Seq<char>>,
    pub thread_local: bool,
}

/// One system registration as built at startup.
pub struct SystemReg {
    pub name: String,
    pub deps: Vec<String>,
    pub thread_local: bool,
}

impl View for SystemReg {
    type V = RegModel;

    open spec fn view(&self) -> RegModel {
        RegModel {
            name: self.name@,
            deps: self.deps@.map_values(|d: String| d@),
            thread_local: self.thread_local,
        }
    }
}

/// True when some registration in `s` can be depended upon under `name`:
/// a non-thread-local registration with that non-empty name.
pub open spec fn spec_has_name(s: Seq<RegModel>, name: Seq<char>) -> bool {
    name.len() > 0 && exists|j: int|
        0 <= j < s.len() && !s[j].thread_local && s[j].name == name
}

/// What the engine demands of a new registration against the plan built so
/// far: a non-empty name must not be taken yet, and every dependency must
/// name a system already registered.
pub open spec fn spec_can_add(s: Seq<RegModel>, name: Seq<char>, deps: Seq<Seq<char>>) -> bool {
    &&& name.len() > 0 ==> !spec_has_name(s, name)
    &&& forall|d: int| 0 <= d < deps.len() ==> spec_has_name(s, #[trigger] deps[d])
}

/// The engine-imposed invariant on a plan: dependencies resolve to earlier
/// registrations, non-empty names are unique, and thread-local registrations
/// are anonymous and dependency-free.
pub open spec fn plan_wf(s: Seq<RegModel>) -> bool {
    &&& forall|i: int, d: int|
        0 <= i < s.len() && 0 <= d < s[i].deps.len() ==> spec_has_name(
            s.take(i),
            #[trigger] s[i].deps[d],
        )
    &&& forall|i: int, j: int|
        0 <= i < j < s.len() && s[i].name.len() > 0 && !s[i].thread_local && !s[j].thread_local
            ==> s[i].name != s[j].name
    &&& forall|i: int|
        0 <= i < s.len() && #[trigger] s[i].thread_local ==> s[i].name.len() == 0
            && s[i].deps.len() == 0
}

/// A registration appended under `spec_can_add`, or an anonymous
/// dependency-free thread-local one, leaves a well-formed plan well-formed:
/// its dependencies resolve to the registrations before it, its name was not
/// taken, and what held of the prefix still holds.
pub proof fn lemma_push_preserves_wf(prefix: Seq<RegModel>, m: RegModel)
    requires
        plan_wf(prefix),
        m.thread_local ==> m.name.len() == 0 && m.deps.len() == 0,
        !m.thread_local ==> spec_can_add(prefix, m.name, m.deps),
    ensures
        plan_wf(prefix.push(m)),
{
    let s = prefix.push(m);
    assert forall|i: int, d: int|
        0 <= i < s.len() && 0 <= d < s[i].deps.len() implies spec_has_name(
        s.take(i),
        #[trigger] s[i].deps[d],
    ) by {
        if i < prefix.len() {
            assert(s.take(i) =~= prefix.take(i));
            assert(spec_has_name(prefix.take(i), s[i].deps[d]));
        } else {
            assert(s[i] == m);
            assert(s.take(i) =~= prefix);
            assert(spec_has_name(prefix, m.deps[d]));
        }
    }
    assert forall|i: int, j: int|
        0 <= i < j < s.len() && s[i].name.len() > 0 && !s[i].thread_local
            && !s[j].thread_local implies s[i].name != s[j].name by {
        if j == prefix.len() {
            assert(s[j] == m);
            assert(!spec_has_name(prefix, m.name));
        }
    }
}

/// Why a registration was refused.
#[derive(Debug, PartialEq, Eq, Structural, Clone, Copy)]
pub enum PlanError {
    /// The name is already registered.
    DuplicateName,
    /// Some dependency names no system registered so far.
    UnknownDependency,
}

/// The ordered plan of registrations for the per-frame dispatch graph.
pub struct DispatcherPlan {
    regs: Vec<SystemReg>,
}

impl View for DispatcherPlan {
    type V = Seq<RegModel>;

    closed spec fn view(&self) -> Seq<RegModel> {
        self.regs@.map_values(|r: SystemReg| r@)
    }
}

impl DispatcherPlan {
    /// The plan satisfies the engine-imposed invariant.
    pub open spec fn wf(&self) -> bool {
        plan_wf(self@)
    }

    /// An empty plan.
    pub fn new() -> (r: DispatcherPlan)
        ensures
            r@ == Seq::<RegModel>::empty(),
            r.wf(),
    {
        let r = DispatcherPlan { regs: Vec::new() };
        proof {
            assert(r@ =~= Seq::<RegModel>::empty());
        }
        r
    }

    /// How many registrations the plan holds.
    pub fn len(&self) -> (n: usize)
        ensures
            n == self@.len(),
    {
        self.regs.len()
    }

    /// The name under which the `i`-th registration was made; empty for an
    /// anonymous or thread-local registration.
    pub fn name_at(&self, i: usize) -> (name: &String)
        requires
            i < self@.len(),
        ensures
            name@ == self@[i as int].name,
    {
        proof {
            assert(self@[i as int] == self.regs@[i as int]@);
        }
        &self.regs[i].name
    }

    /// The dependency names the `i`-th registration was made with.
    pub fn deps_at(&self, i: usize) -> (deps: &Vec<String>)
        requires
            i < self@.len(),
        ensures
            deps@.map_values(|d: String| d@) == self@[i as int].deps,
    {
        proof {
            assert(self@[i as int] == self.regs@[i as int]@);
        }
        &self.regs[i].deps
    }

    /// Whether the `i`-th registration is a thread-local system.
    pub fn is_thread_local_at(&self, i: usize) -> (tl: bool)
        requires
            i < self@.len(),
        ensures
            tl == self@[i as int].thread_local,
    {
        proof {
            assert(self@[i as int] == self.regs@[i as int]@);
        }
        self.regs[i].thread_local
    }

    /// Whether `name` can be depended upon in the plan built so far.
    pub fn has_system(&self, name: &String) -> (r: bool)
        ensures
            r == spec_has_name(self@, name@),
    {
        if name.as_str().is_empty() {
            return false;
        }
        let n = self.regs.len();
        let mut j: usize = 0;
        while j < n
            invariant
                n == self@.len(),
                0 <= j <= n,
                name@.len() > 0,
                forall|k: int|
                    0 <= k < j ==> !(!self@[k].thread_local && #[trigger] self@[k].name == name@),
            decreases n - j,
        {
            if !self.regs[j].thread_local && self.regs[j].name == *name {
                proof {
                    assert(self@[j as int] == self.regs@[j as int]@);
                    assert(!self@[j as int].thread_local && self@[j as int].name == name@);
                }
                return true;
            }
            proof {
                assert(self@[j as int] == self.regs@[j as int]@);
            }
            j += 1;
        }
        false
    }

    /// Registers a system under `name`, to run after the systems in `deps`.
    /// The caller has already ensured what the engine demands (`spec_can_add`);
    /// the registration is appended to the plan.
    pub fn add(&mut self, name: String, deps: Vec<String>)
        requires
            old(self).wf(),
            spec_can_add(old(self)@, name@, deps@.map_values(|d: String| d@)),
        ensures
            final(self)@ == old(self)@.push(
                RegModel {
                    name: name@,
                    deps: deps@.map_values(|d: String| d@),
                    thread_local: false,
                },
            ),
            final(self).wf(),
    {
        let ghost m = RegModel {
            name: name@,
            deps: deps@.map_values(|d: String| d@),
            thread_local: false,
        };
        self.regs.push(SystemReg { name, deps, thread_local: false });
        proof {
            assert(self@ =~= old(self)@.push(m));
            lemma_push_preserves_wf(old(self)@, m);
        }
    }

    /// Registers an anonymous thread-local system at the end of the plan.
    pub fn add_thread_local(&mut self)
        requires
            old(self).wf(),
        ensures
            final(self)@ == old(self)@.push(
                RegModel { name: Seq::empty(), deps: Seq::empty(), thread_local: true },
            ),
            final(self).wf(),
    {
        let ghost m = RegModel { name: Seq::empty(), deps: Seq::empty(), thread_local: true };
        let name = String::new();
        let deps: Vec<String> = Vec::new();
        self.regs.push(SystemReg { name, deps, thread_local: true });
        proof {
            assert(deps@.map_values(|d: String| d@) =~= Seq::<Seq<char>>::empty());
            assert(self@ =~= old(self)@.push(m));
            lemma_push_preserves_wf(old(self)@, m);
        }
    }

    /// Checks what the engine demands and registers the system only when it
    /// holds, reporting otherwise why the registration was refused: the name
    /// clash first, a missing dependency second.
    pub fn try_add(&mut self, name: String, deps: Vec<String>) -> (r: Result<(), PlanError>)
        requires
            old(self).wf(),
        ensures
            final(self).wf(),
            r is Ok <==> spec_can_add(old(self)@, name@, deps@.map_values(|d: String| d@)),
            r is Ok ==> final(self)@ == old(self)@.push(
                RegModel {
                    name: name@,
                    deps: deps@.map_values(|d: String| d@),
                    thread_local: false,
                },
            ),
            r is Err ==> final(self)@ == old(self)@,
            r == Result::<(), PlanError>::Err(PlanError::DuplicateName) <==> (name@.len() > 0
                && spec_has_name(old(self)@, name@)),
            r == Result::<(), PlanError>::Err(PlanError::UnknownDependency) <==> ((name@.len()
                == 0 || !spec_has_name(old(self)@, name@)) && exists|i: int|
                0 <= i < deps@.len() && !spec_has_name(old(self)@, #[trigger] deps@[i]@)),
    {
        if self.has_system(&name) {
            return Err(PlanError::DuplicateName);
        }
        let n = deps.len();
        let mut d: usize = 0;
        while d < n
            invariant
                n == deps@.len(),
                0 <= d <= n,
                self@ == old(self)@,
                old(self).wf(),
                !spec_has_name(old(self)@, name@),
                forall|k: int| 0 <= k < d ==> spec_has_name(self@, #[trigger] deps@[k]@),
            decreases n - d,
        {
            if !self.has_system(&deps[d]) {
                proof {
                    assert(!spec_has_name(old(self)@, deps@[d as int]@));
                    assert(deps@.map_values(|x: String| x@)[d as int] == deps@[d as int]@);
                    assert(!spec_can_add(old(self)@, name@, deps@.map_values(|x: String| x@)));
                }
                return Err(PlanError::UnknownDependency);
            }
            d += 1;
        }
        proof {
            let m = deps@.map_values(|x: String| x@);
            assert forall|k: int| 0 <= k < m.len() implies spec_has_name(
                old(self)@,
                #[trigger] m[k],
            ) by {
                assert(m[k] == deps@[k]@);
                assert(spec_has_name(self@, deps@[k]@));
            }
            assert(spec_can_add(old(self)@, name@, m));
        }
        self.add(name, deps);
        Ok(())
    }
}

} // verus!
