use vstd::prelude::*;

verus! {

/// The first position of that name in a layer, if any.
pub open spec fn names_index(names: Seq<Seq<char>>, name: Seq<char>) -> Option<int>
    decreases names.len(),
{
    if names.len() == 0 {
        None
    } else if names[0] == name {
        Some(0)
    } else {
        match names_index(names.drop_first(), name) {
            None => None,
            Some(i) => Some(i + 1),
        }
    }
}

/// Whether any layer, innermost first, holds the name.
pub open spec fn stack_contains(stack: Seq<Seq<Seq<char>>>, name: Seq<char>) -> bool
    decreases stack.len(),
{
    if stack.len() == 0 {
        false
    } else if names_index(stack.last(), name) is Some {
        true
    } else {
        stack_contains(stack.drop_last(), name)
    }
}

/// The slot the name resolves to: its first position, one-based, in the
/// innermost layer that holds it.
pub open spec fn stack_slot(stack: Seq<Seq<Seq<char>>>, name: Seq<char>) -> Option<int>
    decreases stack.len(),
{
    if stack.len() == 0 {
        None
    } else {
        match names_index(stack.last(), name) {
            Some(i) => Some(i + 1),
            None => stack_slot(stack.drop_last(), name),
        }
    }
}

/// One scope layer: the local-variable names declared in it, in declaration
/// order.
#[derive(Debug)]
pub struct Layer {
    pub data: Vec<String>,
}

impl View for Layer {
    type V = Seq<Seq<char>>;

    open spec fn view(&self) -> Seq<Seq<char>> {
        self.data@.map_values(|s: String| s@)
    }
}

impl Layer {
    pub fn new_root() -> (l: Layer)
        ensures
            l@ == Seq::<Seq<char>>::empty(),
    {
        let l = Layer { data: Vec::new() };
        proof {
            assert(l@ =~= Seq::<Seq<char>>::empty());
        }
        l
    }

    /// Declares one more name; the returned slot is its one-based position.
    pub fn push(&mut self, name: String) -> (slot: u8)
        requires
            old(self)@.len() < 255,
        ensures
            final(self)@ == old(self)@.push(name@),
            slot == old(self)@.len() + 1,
    {
        let ghost pre = self.data@;
        self.data.push(name);
        proof {
            assert(self@ =~= pre.map_values(|s: String| s@).push(self.data@.last()@));
        }
        self.data.len() as u8
    }

    /// Whether the layer declares the name.
    #[verifier::loop_isolation(false)]
    pub fn contains(&self, name: &String) -> (r: bool)
        ensures
            r == (names_index(self@, name@) is Some),
    {
        let ghost ns = self@;
        let n = self.data.len();
        proof {
            assert(ns.skip(0) =~= ns);
        }
        for i in 0..n
            invariant
                n == self.data@.len(),
                ns == self@,
                (names_index(ns, name@) is Some) == (names_index(ns.skip(i as int), name@)
                    is Some),
        {
            proof {
                assert(ns.skip(i as int)[0] == ns[i as int]);
                assert(ns[i as int] == self.data@[i as int]@);
                assert(ns.skip(i as int).drop_first() =~= ns.skip(i + 1));
            }
            if self.data[i] == *name {
                return true;
            }
        }
        proof {
            assert(ns.skip(n as int) =~= Seq::<Seq<char>>::empty());
        }
        false
    }

    /// The one-based slot of the name's first occurrence in this layer.
    #[verifier::loop_isolation(false)]
    pub fn get(&self, name: &String) -> (slot: u8)
        requires
            names_index(self@, name@) is Some,
            self@.len() <= 255,
        ensures
            names_index(self@, name@) == Some(slot as int - 1),
    {
        let ghost ns = self@;
        let n = self.data.len();
        proof {
            assert(ns.skip(0) =~= ns);
        }
        for i in 0..n
            invariant
                n == self.data@.len(),
                ns == self@,
                (names_index(ns.skip(i as int), name@) matches Some(k) ==> names_index(ns, name@)
                    == Some(k + i)),
                names_index(ns.skip(i as int), name@) is Some,
        {
            proof {
                assert(ns.skip(i as int)[0] == ns[i as int]);
                assert(ns[i as int] == self.data@[i as int]@);
                assert(ns.skip(i as int).drop_first() =~= ns.skip(i + 1));
            }
            if self.data[i] == *name {
                return (i + 1) as u8;
            }
        }
        proof {
            assert(ns.skip(n as int) =~= Seq::<Seq<char>>::empty());
            assert(false);
        }
        1
    }

    /// How many names the layer declares.
    pub fn count(&self) -> (r: u16)
        requires
            self@.len() <= 65535,
        ensures
            r == self@.len(),
    {
        self.data.len() as u16
    }
}

/// The layered scope allocator: a stack of layers, the last one innermost.
/// Lookups search innermost first; a name's slot is stable for the life of
/// the enclosing method compilation.
#[derive(Debug)]
pub struct StateStack {
    pub layers: Vec<Layer>,
}

impl View for StateStack {
    type V = Seq<Seq<Seq<char>>>;

    open spec fn view(&self) -> Seq<Seq<Seq<char>>> {
        self.layers@.map_values(|l: Layer| l@)
    }
}

/// Every layer stays small enough for its slots to fit a one-byte index.
pub open spec fn stack_wf(stack: Seq<Seq<Seq<char>>>) -> bool {
    forall|i: int| 0 <= i < stack.len() ==> (#[trigger] stack[i]).len() <= 255
}

impl StateStack {
    /// A stack with its root layer.
    pub fn new() -> (s: StateStack)
        ensures
            s@ == seq![Seq::<Seq<char>>::empty()],
            stack_wf(s@),
    {
        let mut layers: Vec<Layer> = Vec::new();
        layers.push(Layer::new_root());
        let s = StateStack { layers };
        proof {
            assert(s@ =~= seq![Seq::<Seq<char>>::empty()]);
        }
        s
    }

    /// Opens a nested scope.
    pub fn new_layer(&mut self)
        ensures
            final(self)@ == old(self)@.push(Seq::<Seq<char>>::empty()),
            stack_wf(old(self)@) ==> stack_wf(final(self)@),
    {
        let ghost pre = self.layers@;
        self.layers.push(Layer::new_root());
        proof {
            assert(self@ =~= pre.map_values(|l: Layer| l@).push(self.layers@.last()@));
        }
    }

    /// Closes the innermost scope; the root layer always remains.
    pub fn drop_layer(&mut self)
        requires
            old(self)@.len() > 1,
        ensures
            final(self)@ == old(self)@.drop_last(),
            stack_wf(old(self)@) ==> stack_wf(final(self)@),
    {
        let ghost pre = self.layers@;
        self.layers.pop();
        proof {
            assert(self@ =~= pre.map_values(|l: Layer| l@).drop_last());
        }
    }

    /// Declares one more name in the innermost scope; the returned slot is
    /// its one-based position there.
    pub fn push(&mut self, name: &String) -> (slot: u8)
        requires
            old(self)@.len() > 0,
            old(self)@.last().len() < 255,
        ensures
            final(self)@ == old(self)@.update(
                old(self)@.len() - 1,
                old(self)@.last().push(name@),
            ),
            slot == old(self)@.last().len() + 1,
            stack_wf(old(self)@) ==> stack_wf(final(self)@),
    {
        let n = self.layers.len();
        let ghost pre = self.layers@;
        let layer = &mut self.layers[n - 1];
        proof {
            assert(pre.map_values(|l: Layer| l@)[n - 1] == pre[n - 1]@);
        }
        let slot = layer.push(name.clone());
        proof {
            assert(self@ =~= pre.map_values(|l: Layer| l@).update(
                n - 1,
                self.layers@[n - 1]@,
            ));
        }
        slot
    }

    /// Whether any active scope declares the name.
    #[verifier::loop_isolation(false)]
    pub fn contains(&self, name: &String) -> (r: bool)
        ensures
            r == stack_contains(self@, name@),
    {
        let ghost st = self@;
        let n = self.layers.len();
        proof {
            assert(st.take(n as int) =~= st);
        }
        let mut i = n;
        while i > 0
            invariant
                i <= n,
                n == self.layers@.len(),
                st == self@,
                stack_contains(st, name@) == stack_contains(st.take(i as int), name@),
            decreases i,
        {
            proof {
                assert(st.take(i as int).last() == st[i - 1]);
                assert(st[i - 1] == self.layers@[i - 1]@);
                assert(st.take(i as int).drop_last() =~= st.take(i - 1));
            }
            if self.layers[i - 1].contains(name) {
                return true;
            }
            i = i - 1;
        }
        proof {
            assert(st.take(0) =~= Seq::<Seq<Seq<char>>>::empty());
        }
        false
    }

    /// The slot the name resolves to: innermost declaration first.
    #[verifier::loop_isolation(false)]
    pub fn get(&self, name: &String) -> (slot: u8)
        requires
            stack_contains(self@, name@),
            stack_wf(self@),
        ensures
            Some(slot as int) == stack_slot(self@, name@),
    {
        let ghost st = self@;
        let n = self.layers.len();
        proof {
            assert(st.take(n as int) =~= st);
        }
        let mut i = n;
        while i > 0
            invariant
                i <= n,
                n == self.layers@.len(),
                st == self@,
                stack_contains(st.take(i as int), name@),
                stack_slot(st, name@) == stack_slot(st.take(i as int), name@),
            decreases i,
        {
            proof {
                assert(st.take(i as int).last() == st[i - 1]);
                assert(st[i - 1] == self.layers@[i - 1]@);
                assert(st.take(i as int).drop_last() =~= st.take(i - 1));
            }
            if self.layers[i - 1].contains(name) {
                return self.layers[i - 1].get(name);
            }
            i = i - 1;
        }
        proof {
            assert(st.take(0) =~= Seq::<Seq<Seq<char>>>::empty());
            assert(false);
        }
        1
    }

    /// How many names the innermost scope declares.
    pub fn count(&self) -> (r: u16)
        requires
            self@.len() > 0,
            stack_wf(self@),
        ensures
            r == self@.last().len(),
    {
        let n = self.layers.len();
        proof {
            assert(self@[n - 1] == self.layers@[n - 1]@);
        }
        self.layers[n - 1].count()
    }
}

} // verus!
