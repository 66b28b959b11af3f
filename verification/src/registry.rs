//! The priority-ordered registry of reloadable components and the
//! notification run that walks it.

use vstd::prelude::*;

use crate::error::ReloadError;

verus! {

/// A registered component together with the priority it was registered with.
/// Lower priorities are notified first.
pub struct Registered<C> {
    pub priority: u32,
    pub component: C,
}

/// Every entry's priority is at most that of every later entry.
pub open spec fn sorted_by_priority<C>(entries: Seq<Registered<C>>) -> bool {
    forall|i: int, j: int|
        0 <= i <= j < entries.len() ==> #[trigger] entries[i].priority <= #[trigger] entries[j].priority
}

/// The entries whose priority is at most `priority`.
pub open spec fn at_most<C>(entries: Seq<Registered<C>>, priority: u32) -> Seq<Registered<C>> {
    entries.filter(|entry: Registered<C>| entry.priority <= priority)
}

/// The entries whose priority is exactly `priority`, in their order.
pub open spec fn with_priority<C>(entries: Seq<Registered<C>>, priority: u32) -> Seq<Registered<C>> {
    entries.filter(|entry: Registered<C>| entry.priority == priority)
}

/// Where a newly registered entry lands: after every entry whose priority is
/// at most its own, so that entries of equal priority keep registration order.
pub open spec fn insertion_index<C>(entries: Seq<Registered<C>>, priority: u32) -> int {
    at_most(entries, priority).len() as int
}

/// The entries after registering `entry`.
pub open spec fn after_register<C>(entries: Seq<Registered<C>>, entry: Registered<C>) -> Seq<Registered<C>> {
    entries.insert(insertion_index(entries, entry.priority), entry)
}

/// The entries of a registry that was created empty and then given
/// `registrations`, in that order.
pub open spec fn registered<C>(registrations: Seq<Registered<C>>) -> Seq<Registered<C>>
    decreases registrations.len(),
{
    if registrations.len() == 0 {
        Seq::empty()
    } else {
        after_register(registered(registrations.drop_last()), registrations.last())
    }
}

/// In a list sorted by priority, the entries of priority at most `priority`
/// form a prefix, and its length is the number of such entries.
proof fn lemma_sorted_boundary<C>(entries: Seq<Registered<C>>, priority: u32) -> (boundary: int)
    requires
        sorted_by_priority(entries),
    ensures
        0 <= boundary <= entries.len(),
        boundary == insertion_index(entries, priority),
        forall|j: int| 0 <= j < boundary ==> #[trigger] entries[j].priority <= priority,
        forall|j: int| boundary <= j < entries.len() ==> #[trigger] entries[j].priority > priority,
    decreases entries.len(),
{
    reveal(Seq::filter);
    if entries.len() == 0 {
        0
    } else {
        let rest = entries.drop_last();
        assert(sorted_by_priority(rest));
        let inner = lemma_sorted_boundary(rest, priority);
        let last = entries.last();
        assert(at_most(entries, priority) == if last.priority <= priority {
            at_most(rest, priority).push(last)
        } else {
            at_most(rest, priority)
        });
        if last.priority <= priority {
            assert forall|j: int| 0 <= j < entries.len() implies #[trigger] entries[j].priority
                <= priority by {
                assert(entries[j].priority <= entries[entries.len() - 1].priority);
            }
            if inner < rest.len() {
                assert(rest[inner].priority > priority);
                assert(entries[inner].priority <= priority);
            }
            entries.len() as int
        } else {
            assert(forall|j: int| 0 <= j < rest.len() ==> rest[j] == entries[j]);
            inner
        }
    }
}

/// Inserting an entry of priority `p` at the boundary between the entries of
/// priority at most `p` and the rest keeps a sorted list sorted, and appends
/// the entry to those of its own priority while leaving the other priorities alone.
proof fn lemma_register_step<C>(entries: Seq<Registered<C>>, entry: Registered<C>)
    requires
        sorted_by_priority(entries),
    ensures
        sorted_by_priority(after_register(entries, entry)),
        forall|q: u32|
            #[trigger] with_priority(after_register(entries, entry), q) == if q == entry.priority {
                with_priority(entries, q).push(entry)
            } else {
                with_priority(entries, q)
            },
{
    broadcast use Seq::filter_distributes_over_add, Seq::lemma_filter_push;

    let p = entry.priority;
    let k = lemma_sorted_boundary(entries, p);
    let result = after_register(entries, entry);
    entries.insert_ensures(k, entry);
    assert forall|i: int, j: int| 0 <= i <= j < result.len() implies #[trigger] result[i].priority
        <= #[trigger] result[j].priority by {
        if i < k && j < k {
        } else if i < k && j == k {
        } else if i < k {
            assert(result[j] == entries[j - 1]);
        } else if i == k && j == k {
        } else if i == k {
            assert(result[j] == entries[j - 1]);
        } else {
            assert(result[i] == entries[i - 1]);
            assert(result[j] == entries[j - 1]);
        }
    }
    let front = entries.subrange(0, k);
    let back = entries.subrange(k, entries.len() as int);
    assert(entries == front + back);
    assert(result == front.push(entry) + back);
    assert forall|q: u32| #[trigger] with_priority(result, q) == if q == p {
        with_priority(entries, q).push(entry)
    } else {
        with_priority(entries, q)
    } by {
        let pred = |e: Registered<C>| e.priority == q;
        assert(with_priority(result, q) == front.push(entry).filter(pred) + back.filter(pred));
        assert(with_priority(entries, q) == front.filter(pred) + back.filter(pred));
        if q == p {
            assert(back.all(|e: Registered<C>| !pred(e))) by {
                assert forall|j: int| 0 <= j < back.len() implies !pred(#[trigger] back[j]) by {
                    assert(back[j] == entries[k + j]);
                }
            }
            back.lemma_all_neg_filter_empty(pred);
            assert(back.filter(pred) =~= Seq::<Registered<C>>::empty());
            assert(front.filter(pred).push(entry) + Seq::<Registered<C>>::empty() =~= (
            front.filter(pred) + Seq::<Registered<C>>::empty()).push(entry));
        }
    }
}

/// However components are registered, the registry lists them in ascending
/// priority, and components of equal priority in the order they were registered.
pub proof fn law_registration_is_stable_sort<C>(registrations: Seq<Registered<C>>)
    ensures
        sorted_by_priority(registered(registrations)),
        forall|q: u32|
            #[trigger] with_priority(registered(registrations), q) == with_priority(
                registrations,
                q,
            ),
    decreases registrations.len(),
{
    broadcast use Seq::lemma_filter_push;

    if registrations.len() == 0 {
        reveal(Seq::filter);
        assert forall|q: u32| #[trigger] with_priority(registered(registrations), q)
            == with_priority(registrations, q) by {
            assert(registrations =~= Seq::<Registered<C>>::empty());
        }
    } else {
        let rest = registrations.drop_last();
        let last = registrations.last();
        law_registration_is_stable_sort(rest);
        lemma_register_step(registered(rest), last);
        assert(rest.push(last) =~= registrations);
        assert forall|q: u32| #[trigger] with_priority(registered(registrations), q)
            == with_priority(registrations, q) by {
            assert(with_priority(rest.push(last), q) == if last.priority == q {
                with_priority(rest, q).push(last)
            } else {
                with_priority(rest, q)
            });
        }
    }
}

/// `entries` with the priority of entry `i` replaced by `priorities[i]`.
pub open spec fn reprioritized<C>(entries: Seq<Registered<C>>, priorities: Seq<u32>) -> Seq<
    Registered<C>,
> {
    Seq::new(
        entries.len(),
        |i: int| Registered { priority: priorities[i], component: entries[i].component },
    )
}

/// Re-prioritizing keeps every component in its place and gives the one at
/// index `i` the priority `priorities[i]`.
pub proof fn law_reprioritized<C>(entries: Seq<Registered<C>>, priorities: Seq<u32>)
    requires
        priorities.len() == entries.len(),
    ensures
        reprioritized(entries, priorities).len() == entries.len(),
        forall|i: int|
            0 <= i < entries.len() ==> #[trigger] reprioritized(entries, priorities)[i] == (
            Registered { priority: priorities[i], component: entries[i].component }),
{
}

/// Inserts `entry` into a list sorted by priority, after every entry whose
/// priority is not greater.
fn insert_by_priority<C>(entries: &mut Vec<Registered<C>>, entry: Registered<C>)
    requires
        sorted_by_priority(old(entries)@),
    ensures
        final(entries)@ == after_register(old(entries)@, entry),
        sorted_by_priority(final(entries)@),
{
    let ghost before = entries@;
    let priority = entry.priority;
    let mut index: usize = 0;
    while index < entries.len() && entries[index].priority <= priority
        invariant
            0 <= index <= entries.len(),
            entries@ == before,
            sorted_by_priority(before),
            forall|j: int| 0 <= j < index ==> #[trigger] before[j].priority <= priority,
        decreases entries.len() - index,
    {
        index = index + 1;
    }
    proof {
        let boundary = lemma_sorted_boundary(before, priority);
        if boundary < index {
            assert(before[boundary].priority <= priority);
        }
        if index < boundary {
            assert(before[index as int].priority <= priority);
        }
        lemma_register_step(before, entry);
    }
    entries.insert(index, entry);
}

/// Priority-ordered collection of reloadable components.
pub struct UpdateableRegistry<C> {
    components: Vec<Registered<C>>,
}

impl<C> View for UpdateableRegistry<C> {
    type V = Seq<Registered<C>>;

    closed spec fn view(&self) -> Seq<Registered<C>> {
        self.components@
    }
}

impl<C> UpdateableRegistry<C> {
    #[verifier::type_invariant]
    spec fn sorted(self) -> bool {
        sorted_by_priority(self.components@)
    }

    /// An empty registry.
    pub fn new() -> (registry: Self)
        ensures
            registry@ == Seq::<Registered<C>>::empty(),
    {
        UpdateableRegistry { components: Vec::new() }
    }

    /// Adds `component` with `priority`, then orders all components by their
    /// current priorities, keeping registration order among equal ones.
    /// `current_priorities[i]` is what the component at `index i` now reports
    /// as its priority; the new entry comes after every entry whose current
    /// priority is not greater.
    pub fn register(&mut self, component: C, priority: u32, current_priorities: &Vec<u32>)
        requires
            current_priorities@.len() == old(self)@.len(),
        ensures
            final(self)@ == registered(
                reprioritized(old(self)@, current_priorities@).push(
                    Registered { priority, component },
                ),
            ),
            sorted_by_priority(final(self)@),
    {
        let mut pending: Vec<Registered<C>> = Vec::new();
        std::mem::swap(&mut pending, &mut self.components);
        let ghost keyed = reprioritized(pending@, current_priorities@);
        let count = pending.len();
        let mut ordered: Vec<Registered<C>> = Vec::new();
        let mut index: usize = 0;
        while index < count
            invariant
                count == current_priorities@.len(),
                keyed.len() == count,
                index <= count,
                pending@.len() == count - index,
                forall|j: int|
                    0 <= j < pending@.len() ==> #[trigger] pending@[j].component == keyed[j
                        + index].component,
                ordered@ == registered(keyed.take(index as int)),
                sorted_by_priority(ordered@),
                forall|j: int|
                    0 <= j < count ==> #[trigger] keyed[j].priority == current_priorities@[j],
            decreases count - index,
        {
            let ghost waiting = pending@;
            let entry = pending.remove(0);
            let rekeyed = Registered { priority: current_priorities[index], component: entry.component };
            proof {
                assert(waiting[0].component == keyed[0 + index].component);
                assert(keyed[index as int].priority == current_priorities@[index as int]);
                assert(rekeyed == keyed[index as int]);
                assert forall|j: int| 0 <= j < pending@.len() implies #[trigger] pending@[j].component
                    == keyed[j + index + 1].component by {
                    assert(pending@[j] == waiting[j + 1]);
                    assert(waiting[j + 1].component == keyed[(j + 1) + index].component);
                }
                assert(keyed.take(index + 1).drop_last() =~= keyed.take(index as int));
            }
            insert_by_priority(&mut ordered, rekeyed);
            index = index + 1;
        }
        let entry = Registered { priority, component };
        proof {
            assert(keyed.take(count as int) =~= keyed);
            assert(keyed.push(entry).drop_last() =~= keyed);
        }
        insert_by_priority(&mut ordered, entry);
        self.components = ordered;
    }

    /// How many components are registered.
    pub fn len(&self) -> (count: usize)
        ensures
            count == self@.len(),
            sorted_by_priority(self@),
    {
        proof {
            use_type_invariant(self);
        }
        self.components.len()
    }

    /// The component at `index` in notification order.
    pub fn component(&self, index: usize) -> (component: &C)
        requires
            index < self@.len(),
        ensures
            *component == self@[index as int].component,
            sorted_by_priority(self@),
    {
        proof {
            use_type_invariant(self);
        }
        &self.components[index].component
    }

    /// The priority of the component at `index` in notification order.
    pub fn priority(&self, index: usize) -> (priority: u32)
        requires
            index < self@.len(),
        ensures
            priority == self@[index as int].priority,
            sorted_by_priority(self@),
    {
        proof {
            use_type_invariant(self);
        }
        self.components[index].priority
    }
}

impl<C> Default for UpdateableRegistry<C> {
    fn default() -> (registry: Self)
        ensures
            registry@ == Seq::<Registered<C>>::empty(),
    {
        Self::new()
    }
}

} // verus!
