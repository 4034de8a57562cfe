use vstd::prelude::*;

verus! {

/// The text of each name in `v`.
pub open spec fn views(v: Seq<String>) -> Seq<Seq<char>> {
    v.map_values(|s: String| s@)
}

/// The names of `s`, in order, that do not occur in `removed`.
pub open spec fn without(s: Seq<Seq<char>>, removed: Seq<Seq<char>>) -> Seq<Seq<char>> {
    s.filter(|n: Seq<char>| !removed.contains(n))
}

/// The names `names[i]`, in order, for which `delivered[i]` is false: the
/// receivers that a send did not reach.
pub open spec fn undelivered(names: Seq<Seq<char>>, delivered: Seq<bool>) -> Seq<Seq<char>>
    decreases names.len(),
{
    if names.len() == 0 {
        seq![]
    } else {
        let rest = undelivered(names.drop_last(), delivered);
        if delivered[names.len() - 1] {
            rest
        } else {
            rest.push(names.last())
        }
    }
}

/// A name survives the removal of `removed` from `s` exactly when it is
/// in `s` and not in `removed`.
pub proof fn lemma_without_contains(s: Seq<Seq<char>>, removed: Seq<Seq<char>>, name: Seq<char>)
    ensures
        without(s, removed).contains(name) <==> (s.contains(name) && !removed.contains(name)),
{
    let pred = |n: Seq<char>| !removed.contains(n);
    if without(s, removed).contains(name) {
        s.lemma_filter_contains_rev(pred, name);
        let j = choose|j: int| 0 <= j < without(s, removed).len() && without(s, removed)[j] == name;
        s.lemma_filter_pred(pred, j);
    }
    if s.contains(name) && !removed.contains(name) {
        let i = choose|i: int| 0 <= i < s.len() && s[i] == name;
        s.lemma_filter_contains(pred, i);
    }
}

/// Every name that a send did not reach is one of the receivers.
pub proof fn lemma_undelivered_are_receivers(names: Seq<Seq<char>>, delivered: Seq<bool>, name: Seq<char>)
    requires
        undelivered(names, delivered).contains(name),
    ensures
        names.contains(name),
    decreases names.len(),
{
    if names.len() > 0 {
        let rest = undelivered(names.drop_last(), delivered);
        if rest.contains(name) {
            lemma_undelivered_are_receivers(names.drop_last(), delivered, name);
            let j = choose|j: int| 0 <= j < names.drop_last().len() && names.drop_last()[j] == name;
            assert(names[j] == name);
        } else {
            assert(names[names.len() - 1] == name);
        }
    }
}

/// A receiver that a send reached is not among the undelivered ones, when
/// no receiver is named twice: after an update it stays subscribed.
pub proof fn lemma_delivered_receiver_kept(names: Seq<Seq<char>>, delivered: Seq<bool>, i: int)
    requires
        names.no_duplicates(),
        0 <= i < names.len(),
        delivered[i],
    ensures
        !undelivered(names, delivered).contains(names[i]),
    decreases names.len(),
{
    let n = names.len();
    let init = names.drop_last();
    let rest = undelivered(init, delivered);
    if i == n - 1 {
        if rest.contains(names[i]) {
            lemma_undelivered_are_receivers(init, delivered, names[i]);
            let j = choose|j: int| 0 <= j < init.len() && init[j] == names[i];
            assert(names[j] == names[i]);
        }
    } else {
        lemma_delivered_receiver_kept(init, delivered, i);
        assert(init[i] == names[i]);
        if !delivered[n - 1] {
            assert(names[n - 1] != names[i]);
            assert forall|k: int| 0 <= k < rest.push(names.last()).len() implies rest.push(
                names.last(),
            )[k] != names[i] by {
                if k < rest.len() {
                    assert(rest[k] == rest.push(names.last())[k]);
                }
            }
        }
    }
}

/// The receivers that a send did not reach are exactly those whose send
/// failed: every `names[i]` with `delivered[i]` false is among them, and
/// each of them is such a `names[i]`.
pub proof fn lemma_undelivered_exact(names: Seq<Seq<char>>, delivered: Seq<bool>)
    requires
        delivered.len() >= names.len(),
    ensures
        forall|i: int|
            0 <= i < names.len() && !delivered[i] ==> undelivered(names, delivered).contains(
                #[trigger] names[i],
            ),
        forall|x: Seq<char>|
            #[trigger] undelivered(names, delivered).contains(x) ==> exists|i: int|
                0 <= i < names.len() && !delivered[i] && names[i] == x,
    decreases names.len(),
{
    if names.len() > 0 {
        let n = names.len();
        let init = names.drop_last();
        let rest = undelivered(init, delivered);
        lemma_undelivered_exact(init, delivered);
        let u = undelivered(names, delivered);
        assert forall|i: int| 0 <= i < n && !delivered[i] implies u.contains(#[trigger] names[i]) by {
            if i == n - 1 {
                assert(u[u.len() - 1] == names[i]);
            } else {
                assert(init[i] == names[i]);
                assert(rest.contains(init[i]));
                let j = choose|j: int| 0 <= j < rest.len() && rest[j] == init[i];
                if delivered[n - 1] {
                } else {
                    assert(u[j] == rest[j]);
                }
            }
        }
        assert forall|x: Seq<char>| #[trigger] u.contains(x) implies exists|i: int|
            0 <= i < n && !delivered[i] && names[i] == x by {
            let j = choose|j: int| 0 <= j < u.len() && u[j] == x;
            if !delivered[n - 1] && j == u.len() - 1 {
                assert(names[n - 1] == x);
            } else {
                assert(rest[j] == x);
                assert(rest.contains(x));
                let i = choose|i: int| 0 <= i < init.len() && !delivered[i] && init[i] == x;
                assert(names[i] == x);
            }
        }
    }
}

/// After a send, a registered name stays registered exactly when no send
/// to it failed.
pub proof fn lemma_failed_sends_unregister(
    registered: Seq<Seq<char>>,
    sent_to: Seq<Seq<char>>,
    delivered: Seq<bool>,
    x: Seq<char>,
)
    requires
        delivered.len() == sent_to.len(),
    ensures
        without(registered, undelivered(sent_to, delivered)).contains(x) <==> (registered.contains(
            x,
        ) && !exists|i: int| 0 <= i < sent_to.len() && !delivered[i] && sent_to[i] == x),
{
    lemma_undelivered_exact(sent_to, delivered);
    lemma_without_contains(registered, undelivered(sent_to, delivered), x);
    if exists|i: int| 0 <= i < sent_to.len() && !delivered[i] && sent_to[i] == x {
        let i = choose|i: int| 0 <= i < sent_to.len() && !delivered[i] && sent_to[i] == x;
        assert(undelivered(sent_to, delivered).contains(sent_to[i]));
    }
}

/// Whether `name` is one of `names`.
pub fn contains_name(names: &Vec<String>, name: &String) -> (b: bool)
    ensures
        b == views(names@).contains(name@),
{
    let n = names.len();
    for i in 0..n
        invariant
            n == names.len(),
            forall|j: int| 0 <= j < i ==> names@[j]@ != name@,
    {
        if names[i] == *name {
            assert(views(names@)[i as int] == name@);
            return true;
        }
    }
    proof {
        if views(names@).contains(name@) {
            let j = choose|j: int| 0 <= j < views(names@).len() && views(names@)[j] == name@;
            assert(names@[j]@ == name@);
        }
    }
    false
}

/// The names of `names`, in order, that do not occur in `removed`.
pub fn names_without(names: &Vec<String>, removed: &Vec<String>) -> (r: Vec<String>)
    ensures
        views(r@) == without(views(names@), views(removed@)),
        views(names@).no_duplicates() ==> views(r@).no_duplicates(),
{
    let ghost s = views(names@);
    let ghost rm = views(removed@);
    let ghost pred = |n: Seq<char>| !rm.contains(n);
    let mut r: Vec<String> = Vec::new();
    let n = names.len();
    for i in 0..n
        invariant
            n == names.len(),
            s == views(names@),
            rm == views(removed@),
            pred == (|n: Seq<char>| !rm.contains(n)),
            views(r@) == s.take(i as int).filter(pred),
            s.no_duplicates() ==> views(r@).no_duplicates(),
    {
        proof {
            reveal_with_fuel(Seq::<_>::filter, 1);
            assert(s.take(i + 1).drop_last() =~= s.take(i as int));
            assert(s.take(i + 1).last() == names@[i as int]@);
        }
        let keep = !contains_name(removed, &names[i]);
        if keep {
            let ghost before = views(r@);
            proof {
                if s.no_duplicates() && before.contains(s[i as int]) {
                    s.take(i as int).lemma_filter_contains_rev(pred, s[i as int]);
                    let j = choose|j: int| 0 <= j < i && s.take(i as int)[j] == s[i as int];
                    assert(s[j] == s[i as int]);
                }
            }
            r.push(names[i].clone());
            assert(views(r@) =~= before.push(names@[i as int]@));
        }
    }
    assert(s.take(n as int) =~= s);
    r
}

/// The receivers, in order, to which a send did not go through: those
/// `sent_to[i]` with `delivered[i]` false.
pub fn failed_clients(sent_to: &Vec<String>, delivered: &Vec<bool>) -> (r: Vec<String>)
    requires
        sent_to.len() == delivered.len(),
    ensures
        views(r@) == undelivered(views(sent_to@), delivered@),
{
    let ghost s = views(sent_to@);
    let mut r: Vec<String> = Vec::new();
    let n = sent_to.len();
    for i in 0..n
        invariant
            n == sent_to.len(),
            n == delivered.len(),
            s == views(sent_to@),
            views(r@) == undelivered(s.take(i as int), delivered@),
    {
        proof {
            assert(s.take(i + 1).drop_last() =~= s.take(i as int));
            assert(s.take(i + 1).last() == sent_to@[i as int]@);
        }
        if !delivered[i] {
            let ghost before = views(r@);
            r.push(sent_to[i].clone());
            assert(views(r@) =~= before.push(sent_to@[i as int]@));
        }
    }
    assert(s.take(n as int) =~= s);
    r
}

/// The names of the connected clients, each at most once, in the order in
/// which they first logged in.
pub struct ClientNames {
    names: Vec<String>,
}

impl View for ClientNames {
    type V = Seq<Seq<char>>;

    closed spec fn view(&self) -> Seq<Seq<char>> {
        views(self.names@)
    }
}

impl ClientNames {
    /// No name is registered twice.
    #[verifier::type_invariant]
    spec fn wf(&self) -> bool {
        views(self.names@).no_duplicates()
    }

    pub fn new() -> (c: Self)
        ensures
            c@ == Seq::<Seq<char>>::empty(),
    {
        let c = ClientNames { names: Vec::new() };
        assert(c@ =~= Seq::<Seq<char>>::empty());
        c
    }

    pub fn len(&self) -> (n: usize)
        ensures
            n == self@.len(),
    {
        self.names.len()
    }

    pub fn contains(&self, name: &String) -> (b: bool)
        ensures
            b == self@.contains(name@),
    {
        contains_name(&self.names, name)
    }

    /// Registers `name`; a name that is already registered keeps its place.
    pub fn insert(&mut self, name: String)
        ensures
            final(self)@ == if old(self)@.contains(name@) {
                old(self)@
            } else {
                old(self)@.push(name@)
            },
    {
        proof {
            use_type_invariant(&*self);
        }
        if !contains_name(&self.names, &name) {
            let ghost before = self@;
            let mut names: Vec<String> = Vec::new();
            std::mem::swap(&mut names, &mut self.names);
            names.push(name);
            assert(views(names@) =~= before.push(name@));
            self.names = names;
        }
    }

    /// Unregisters every name in `to_be_removed`; the others keep their order.
    pub fn remove_clients(&mut self, to_be_removed: &Vec<String>)
        ensures
            final(self)@ == without(old(self)@, views(to_be_removed@)),
    {
        proof {
            use_type_invariant(&*self);
        }
        self.names = names_without(&self.names, to_be_removed);
    }

    /// The registered names, in order, other than those in `removed`.
    pub fn names_without(&self, removed: &Vec<String>) -> (r: Vec<String>)
        ensures
            views(r@) == without(self@, views(removed@)),
            views(r@).no_duplicates(),
    {
        proof {
            use_type_invariant(self);
        }
        names_without(&self.names, removed)
    }

    /// The registered names, in order.
    pub fn names(&self) -> (r: Vec<String>)
        ensures
            views(r@) == self@,
            views(r@).no_duplicates(),
    {
        proof {
            use_type_invariant(self);
        }
        let mut r: Vec<String> = Vec::new();
        let n = self.names.len();
        for i in 0..n
            invariant
                n == self.names.len(),
                views(r@) == self@.take(i as int),
        {
            let ghost before = views(r@);
            r.push(self.names[i].clone());
            assert(views(r@) =~= before.push(self.names@[i as int]@));
            assert(views(r@) =~= self@.take(i + 1));
        }
        assert(self@.take(n as int) =~= self@);
        r
    }
}

} // verus!
