use vstd::prelude::*;

verus! {

/// Largest number of slots a table holds, so that a slot index fits in 32 bits.
pub const MAX_SLOTS: usize = 0xFFFF_FFFF;

/// A handle to one engine in a `SearcherTable`: a slot index and the
/// generation that slot had when the engine was put there.
#[derive(Clone, Copy, Debug, PartialEq, Eq, Structural)]
pub struct Searcher {
    pub index: u32,
    pub generation: u32,
}

impl Searcher {
    /// The handle as one 64-bit word: index in the high half, generation in
    /// the low half.
    pub open spec fn bits_spec(&self) -> nat {
        self.index as nat * 0x1_0000_0000 + self.generation as nat
    }

    /// Packs the handle into one word, so that it can cross a boundary that
    /// only carries pointer-sized values.
    pub fn to_bits(&self) -> (r: u64)
        ensures
            r == self.bits_spec(),
    {
        let r: u64 = (self.index as u64) * 0x1_0000_0000u64 + (self.generation as u64);
        r
    }

    /// Unpacks a word made by `to_bits`.
    pub fn from_bits(bits: u64) -> (r: Searcher)
        ensures
            r.bits_spec() == bits,
    {
        let index: u64 = bits / 0x1_0000_0000u64;
        let generation: u64 = bits % 0x1_0000_0000u64;
        Searcher { index: index as u32, generation: generation as u32 }
    }
}

/// Two handles with the same word are the same handle, so `from_bits`
/// undoes `to_bits`.
pub proof fn lemma_bits_identify(a: Searcher, b: Searcher)
    requires
        a.bits_spec() == b.bits_spec(),
    ensures
        a == b,
{
    assert(a.index == b.index && a.generation == b.generation) by (nonlinear_arith)
        requires
            a.index as nat * 0x1_0000_0000 + a.generation as nat
                == b.index as nat * 0x1_0000_0000 + b.generation as nat,
            a.generation < 0x1_0000_0000,
            b.generation < 0x1_0000_0000,
    ;
}

/// Engines indexed by generation-checked handles.
///
/// Slot `i` holds `generations[i]` and `engines[i]`. A handle is live while
/// its slot holds an engine under the handle's generation. Releasing an
/// engine moves its slot to the next generation, so a handle, once released,
/// never names an engine again.
pub struct SearcherTable<E> {
    generations: Vec<u32>,
    engines: Vec<Option<E>>,
}

impl<E> SearcherTable<E> {
    pub closed spec fn wf(&self) -> bool {
        &&& self.generations@.len() == self.engines@.len()
        &&& self.engines@.len() <= MAX_SLOTS
        &&& forall|i: int|
            0 <= i < self.generations@.len() ==> 1 <= #[trigger] self.generations@[i]
        &&& forall|i: int|
            0 <= i < self.engines@.len() && (#[trigger] self.engines@[i]) is Some
                ==> self.generations@[i] < u32::MAX
    }

    /// Number of slots ever opened.
    pub closed spec fn slot_count(&self) -> nat {
        self.engines@.len()
    }

    /// Whether slot `i` can take a new engine.
    pub closed spec fn slot_free(&self, i: int) -> bool {
        &&& 0 <= i < self.engines@.len()
        &&& self.engines@[i] is None
        &&& self.generations@[i] < u32::MAX
    }

    pub open spec fn has_free_slot(&self) -> bool {
        exists|i: int| self.slot_free(i)
    }

    /// Whether `h` names an engine of this table.
    pub closed spec fn live(&self, h: Searcher) -> bool {
        &&& (h.index as int) < self.engines@.len()
        &&& self.engines@[h.index as int] is Some
        &&& self.generations@[h.index as int] == h.generation
    }

    /// Whether `h` named an engine that has since been released.
    pub closed spec fn spent(&self, h: Searcher) -> bool {
        &&& (h.index as int) < self.generations@.len()
        &&& h.generation < self.generations@[h.index as int]
    }

    /// The live handles and the engines they name.
    pub closed spec fn view(&self) -> Map<Searcher, E> {
        Map::new(
            |h: Searcher| self.live(h),
            |h: Searcher| self.engines@[h.index as int]->Some_0,
        )
    }

    /// An empty table.
    pub fn new() -> (r: Self)
        ensures
            r.wf(),
            r@ == Map::<Searcher, E>::empty(),
            r.slot_count() == 0,
            forall|h: Searcher| !r.spent(h),
    {
        let r = SearcherTable { generations: Vec::new(), engines: Vec::new() };
        assert(r@ =~= Map::<Searcher, E>::empty());
        r
    }

    /// The engine that `h` names, if `h` is live.
    pub fn lookup(&self, h: Searcher) -> (r: Option<&E>)
        requires
            self.wf(),
        ensures
            self@.contains_key(h) ==> r == Some(&self@[h]),
            !self@.contains_key(h) ==> r is None,
    {
        let i = h.index as usize;
        if i < self.engines.len() && self.generations[i] == h.generation {
            self.engines[i].as_ref()
        } else {
            None
        }
    }
}

/// A handle that has been released names no engine.
pub proof fn lemma_released_handle_not_live<E>(table: SearcherTable<E>, h: Searcher)
    requires
        table.wf(),
        table.spent(h),
    ensures
        !table@.contains_key(h),
{
}

/// Puts `engine` in a free slot of `table`, or in a new one, and returns the
/// handle that names it. Fails, dropping the engine, only when every slot is
/// taken and the table has reached `MAX_SLOTS`.
pub fn new_searcher<E>(table: &mut SearcherTable<E>, engine: E) -> (r: Option<Searcher>)
    requires
        old(table).wf(),
    ensures
        final(table).wf(),
        r is None <==> !old(table).has_free_slot() && old(table).slot_count() == MAX_SLOTS,
        r is None ==> final(table)@ == old(table)@,
        final(table).slot_count() == if old(table).has_free_slot() || r is None {
            old(table).slot_count()
        } else {
            old(table).slot_count() + 1
        },
        r matches Some(h) ==> {
            &&& !old(table)@.contains_key(h)
            &&& !old(table).spent(h)
            &&& final(table)@ == old(table)@.insert(h, engine)
        },
        forall|h: Searcher| old(table).spent(h) ==> final(table).spent(h),
{
    let n = table.engines.len();
    let mut i: usize = 0;
    while i < n
        invariant
            table.wf(),
            *table == *old(table),
            n == table.engines@.len(),
            i <= n,
            forall|j: int| 0 <= j < i ==> !table.slot_free(j),
        decreases n - i,
    {
        if table.engines[i].is_none() && table.generations[i] < u32::MAX {
            let g = table.generations[i];
            let ghost before = *table;
            assert(before.slot_free(i as int));
            table.engines[i] = Some(engine);
            let h = Searcher { index: i as u32, generation: g };
            assert(table@ =~= before@.insert(h, engine));
            return Some(h);
        }
        i += 1;
    }
    if n < MAX_SLOTS {
        let ghost before = *table;
        table.generations.push(1);
        table.engines.push(Some(engine));
        let h = Searcher { index: n as u32, generation: 1 };
        assert(table@ =~= before@.insert(h, engine));
        Some(h)
    } else {
        assert(!table.has_free_slot());
        None
    }
}

/// Releases the engine that `h` names and hands it back. A handle that is not
/// live (never issued, or released before) is refused with `None` and the
/// table is left as it was.
pub fn deallocate_searcher<E>(table: &mut SearcherTable<E>, h: Searcher) -> (r: Option<E>)
    requires
        old(table).wf(),
    ensures
        final(table).wf(),
        final(table).slot_count() == old(table).slot_count(),
        old(table)@.contains_key(h) ==> {
            &&& r == Some(old(table)@[h])
            &&& final(table)@ == old(table)@.remove(h)
            &&& final(table).spent(h)
        },
        !old(table)@.contains_key(h) ==> r is None && final(table)@ == old(table)@,
        forall|k: Searcher| old(table).spent(k) ==> final(table).spent(k),
{
    let i = h.index as usize;
    if i < table.engines.len() && table.generations[i] == h.generation
        && table.engines[i].is_some() {
        let ghost before = *table;
        let r = table.engines[i].take();
        table.generations[i] = h.generation + 1;
        assert(table@ =~= before@.remove(h));
        r
    } else {
        assert(!table@.contains_key(h));
        None
    }
}

} // verus!
