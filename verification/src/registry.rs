//! The process registry: the one piece of state shared between the launch
//! path and the shutdown path.
//!
//! It maps each launched role to the live process handle the launch
//! returned. A role appears at most once; inserting a role that is already
//! present replaces its handle and nothing else. The shutdown sweep takes
//! every entry out exactly once, so that each handle receives exactly one
//! terminate attempt. The handle type is opaque to the registry: it is only
//! stored and handed back, never inspected.
use vstd::prelude::*;
use crate::role::Role;

verus! {

/// One registry entry: a role and the handle of its live process.
pub struct RegistryEntry<H> {
    pub role: Role,
    pub handle: H,
}

/// The registry of launched roles, in insertion order.
pub struct Registry<H> {
    entries: Vec<RegistryEntry<H>>,
}

impl<H> View for Registry<H> {
    type V = Seq<RegistryEntry<H>>;

    closed spec fn view(&self) -> Seq<RegistryEntry<H>> {
        self.entries@
    }
}

/// The effect of one insertion on the registry's role keys: a fresh role is
/// appended, a role already present keeps its place (only its handle is
/// replaced).
pub open spec fn spec_insert_role(roles: Seq<Role>, role: Role) -> Seq<Role> {
    if roles.contains(role) {
        roles
    } else {
        roles.push(role)
    }
}

impl<H> Registry<H> {
    /// The registry's role keys, in insertion order.
    pub open spec fn roles(self) -> Seq<Role> {
        self@.map_values(|e: RegistryEntry<H>| e.role)
    }

    /// Well-formedness: a role appears at most once.
    pub open spec fn wf(self) -> bool {
        self.roles().no_duplicates()
    }

    /// An empty registry.
    pub fn new() -> (r: Self)
        ensures
            r@ == Seq::<RegistryEntry<H>>::empty(),
            r.wf(),
    {
        let r = Registry { entries: Vec::new() };
        proof {
            assert(r.roles() =~= Seq::<Role>::empty());
        }
        r
    }

    /// The number of entries.
    pub fn len(&self) -> (n: usize)
        ensures
            n == self@.len(),
    {
        self.entries.len()
    }

    /// Whether `role` is registered.
    pub fn contains_role(&self, role: Role) -> (b: bool)
        ensures
            b == self.roles().contains(role),
    {
        let mut i: usize = 0;
        while i < self.entries.len()
            invariant
                i <= self.entries.len(),
                self@ == self.entries@,
                forall|j: int| 0 <= j < i ==> self.roles()[j] != role,
            decreases self.entries.len() - i,
        {
            if self.entries[i].role == role {
                proof {
                    assert(self.roles()[i as int] == role);
                }
                return true;
            }
            i = i + 1;
        }
        proof {
            assert forall|j: int| 0 <= j < self.roles().len() implies self.roles()[j] != role by {
            }
        }
        false
    }

    /// Register `role` with the handle its launch returned. A fresh role is
    /// appended; a role already present keeps its entry's place and only
    /// its handle changes.
    pub fn insert(&mut self, role: Role, handle: H)
        requires
            old(self).wf(),
        ensures
            final(self).wf(),
            final(self).roles() == spec_insert_role(old(self).roles(), role),
            final(self).roles().contains(role),
            !old(self).roles().contains(role) ==> final(self)@ == old(self)@.push(
                RegistryEntry { role, handle },
            ),
            old(self).roles().contains(role) ==> {
                &&& final(self)@.len() == old(self)@.len()
                &&& forall|j: int|
                    0 <= j < old(self)@.len() && old(self)@[j].role != role ==> final(self)@[j]
                        == old(self)@[j]
                &&& forall|j: int|
                    0 <= j < old(self)@.len() && old(self)@[j].role == role ==> final(self)@[j]
                        == (RegistryEntry { role, handle })
            },
    {
        let ghost pre = self.entries@;
        let mut i: usize = 0;
        while i < self.entries.len()
            invariant
                i <= self.entries.len(),
                self.entries@ == pre,
                pre == old(self)@,
                old(self).wf(),
                forall|j: int| 0 <= j < i ==> pre[j].role != role,
            decreases self.entries.len() - i,
        {
            if self.entries[i].role == role {
                self.entries[i] = RegistryEntry { role, handle };
                proof {
                    let rs = pre.map_values(|e: RegistryEntry<H>| e.role);
                    assert(rs.contains(role)) by {
                        assert(rs[i as int] == role);
                    }
                    assert(self.roles() =~= rs);
                    assert forall|j: int|
                        0 <= j < pre.len() && pre[j].role != role implies self@[j] == pre[j] by {
                        assert(rs[j] != role);
                    }
                    assert forall|j: int|
                        0 <= j < pre.len() && pre[j].role == role implies self@[j]
                            == (RegistryEntry { role, handle }) by {
                        if j != i {
                            assert(rs[j] == role && rs[i as int] == role);
                            assert(!rs.no_duplicates());
                        }
                    }
                }
                return ;
            }
            i = i + 1;
        }
        proof {
            let rs = pre.map_values(|e: RegistryEntry<H>| e.role);
            assert(!rs.contains(role)) by {
                if rs.contains(role) {
                    let j = choose|j: int| 0 <= j < rs.len() && #[trigger] rs[j] == role;
                    assert(pre[j].role == role);
                }
            }
        }
        self.entries.push(RegistryEntry { role, handle });
        proof {
            let rs = pre.map_values(|e: RegistryEntry<H>| e.role);
            assert(self.entries@ =~= pre.push(RegistryEntry { role, handle }));
            assert(self.roles() =~= rs.push(role));
            assert(self.roles()[rs.len() as int] == role);
            assert(self.roles().no_duplicates()) by {
                assert forall|a: int, b: int|
                    0 <= a < b < rs.push(role).len() implies rs.push(role)[a] != rs.push(role)[b] by {
                    if b == rs.len() {
                        assert(!rs.contains(role));
                        assert(rs[a] != role);
                    }
                }
            }
        }
    }

    /// Take every entry out for the shutdown sweep. The returned entries
    /// are exactly the registry's contents, in insertion order, so each
    /// handle is handed to the sweep exactly once.
    pub fn into_entries(self) -> (r: Vec<RegistryEntry<H>>)
        ensures
            r@ == self@,
    {
        self.entries
    }
}

/// The role keys that a whole launch sequence leaves in the registry,
/// starting from the keys in `roles` and registering `todo` left to right.
pub open spec fn spec_register_all(roles: Seq<Role>, todo: Seq<Role>) -> Seq<Role>
    decreases todo.len(),
{
    if todo.len() == 0 {
        roles
    } else {
        spec_register_all(spec_insert_role(roles, todo[0]), todo.drop_first())
    }
}

/// Law: launching a sequence of distinct, fresh roles appends their keys in
/// launch order; in particular a launch of N distinct roles into an empty
/// registry leaves exactly N entries, with unique role keys.
pub proof fn lemma_register_all_distinct(roles: Seq<Role>, todo: Seq<Role>)
    requires
        todo.no_duplicates(),
        forall|i: int| 0 <= i < todo.len() ==> !roles.contains(#[trigger] todo[i]),
    ensures
        spec_register_all(roles, todo) == roles + todo,
    decreases todo.len(),
{
    if todo.len() == 0 {
        assert(roles + todo =~= roles);
    } else {
        let first = todo[0];
        let rest = todo.drop_first();
        assert(spec_insert_role(roles, first) == roles.push(first));
        assert forall|i: int| 0 <= i < rest.len() implies !roles.push(first).contains(
            #[trigger] rest[i],
        ) by {
            assert(rest[i] == todo[i + 1]);
            if roles.push(first).contains(rest[i]) {
                let j = choose|j: int| 0 <= j < roles.push(first).len() && roles.push(first)[j] == rest[i];
                if j < roles.len() {
                    assert(roles.contains(todo[i + 1]));
                } else {
                    assert(todo[0] == todo[i + 1]);
                }
            }
        }
        lemma_register_all_distinct(roles.push(first), rest);
        assert(roles.push(first) + rest =~= roles + todo);
    }
}

/// Law: a full launch of the fixed role set into an empty registry leaves
/// exactly one entry per role, keyed uniquely, in launch order.
pub proof fn lemma_full_launch_fills_registry()
    ensures
        spec_register_all(Seq::empty(), crate::role::launch_order()) == crate::role::launch_order(),
        spec_register_all(Seq::empty(), crate::role::launch_order()).no_duplicates(),
{
    let todo = crate::role::launch_order();
    assert(todo.no_duplicates());
    lemma_register_all_distinct(Seq::empty(), todo);
    assert(Seq::empty() + todo =~= todo);
}

} // verus!
